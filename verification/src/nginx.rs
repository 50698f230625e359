//! The nginx configuration: template settings, their validation and
//! storage, the generated full-proxy configuration, and the body size limit.

use vstd::prelude::*;
use crate::auth::AppError;
use crate::node_order::{clone_opt, opt_view};
use crate::settings::{
    get_setting, lemma_set_keeps_keys, lemma_set_read, row_with_key, set_setting, setting_bool, setting_i32, spec_set,
    spec_setting_bool, spec_setting_i32, stored_value,
};
use crate::seqs::first_index;
use crate::text::{
    append_str, chars_of, contains_char, contains_str, count_char, count_char_in, decimal_nat, decimal_u64,
    has_substring, is_prefix, lemma_count_le_len, lemma_lines_total, lemma_total_prefix, lines_of, owned, parse_u16,
    parse_u32, parsed_in_range, starts_with, str_eq, string_of, strip_trailing, strip_trailing_char, text_lines,
    total_len, trim_str, trimmed, uppercase, uppercased, words, words_of, solid, strip_cr, trim_start, is_white_space,
    parsed_int,
};

verus! {

/// The settings the nginx configuration is generated from.
pub struct NginxTemplateSettings {
    pub server_name: String,
    pub backend_port: u16,
    pub gzip_enabled: bool,
    pub gzip_comp_level: u32,
    pub gzip_min_length: u32,
    pub proxy_connect_timeout: u32,
    pub proxy_send_timeout: u32,
    pub proxy_read_timeout: u32,
    pub header_x_frame_options: String,
    pub header_x_content_type: String,
    pub header_xss_protection: String,
    pub header_hsts: String,
    pub header_referrer_policy: String,
    pub header_permissions_policy: String,
    pub header_csp: String,
}

/// A change of some template settings; absent fields stay as they are.
pub struct UpdateNginxTemplateSettingsRequest {
    pub server_name: Option<String>,
    pub backend_port: Option<u16>,
    pub gzip_enabled: Option<bool>,
    pub gzip_comp_level: Option<u32>,
    pub gzip_min_length: Option<u32>,
    pub proxy_connect_timeout: Option<u32>,
    pub proxy_send_timeout: Option<u32>,
    pub proxy_read_timeout: Option<u32>,
    pub header_x_frame_options: Option<String>,
    pub header_x_content_type: Option<String>,
    pub header_xss_protection: Option<String>,
    pub header_hsts: Option<String>,
    pub header_referrer_policy: Option<String>,
    pub header_permissions_policy: Option<String>,
    pub header_csp: Option<String>,
}

/// The state of nginx as reported to the UI.
pub struct NginxStatus {
    pub running: bool,
    pub config_valid: bool,
    /// `selective` or `full_proxy`.
    pub proxy_mode: String,
    pub config_path: Option<String>,
    pub last_reload: Option<String>,
    pub error: Option<String>,
    pub client_max_body_size: Option<String>,
}

/// A request to switch nginx to full proxy mode.
pub struct UpdateNginxConfigRequest {
    pub enable_full_proxy: bool,
    pub backend_port: Option<u16>,
    pub server_name: Option<String>,
}

/// A request to change the request body size limit (such as `50M`, `1G`).
pub struct UpdateBodySizeRequest {
    pub size: String,
}

// ----------------------------------------------------------------------------
// Validation and storage of template settings
// ----------------------------------------------------------------------------

pub open spec fn timeout_ok(t: Option<u32>) -> bool {
    match t {
        Some(v) => 1 <= v && v <= 3600,
        None => true,
    }
}

/// The first rule that a template settings change breaks, in this order:
/// the backend port must not be 0, the gzip level must be 1-9, each proxy
/// timeout must be 1-3600 seconds.
pub open spec fn spec_template_update_error(req: UpdateNginxTemplateSettingsRequest) -> Option<Seq<char>> {
    if req.backend_port == Some(0u16) {
        Some("backend_port must be 1-65535"@)
    } else if req.gzip_comp_level matches Some(l) && !(1 <= l && l <= 9) {
        Some("gzip_comp_level must be 1-9"@)
    } else if !timeout_ok(req.proxy_connect_timeout) {
        Some("proxy_connect_timeout must be 1-3600"@)
    } else if !timeout_ok(req.proxy_send_timeout) {
        Some("proxy_send_timeout must be 1-3600"@)
    } else if !timeout_ok(req.proxy_read_timeout) {
        Some("proxy_read_timeout must be 1-3600"@)
    } else {
        None
    }
}

fn timeout_valid(t: Option<u32>) -> (r: bool)
    ensures
        r == timeout_ok(t),
{
    match t {
        Some(v) => 1 <= v && v <= 3600,
        None => true,
    }
}

/// Check a template settings change; a broken rule is a bad request.
pub fn validate_template_update(req: &UpdateNginxTemplateSettingsRequest) -> (r: Result<(), AppError>)
    ensures
        match spec_template_update_error(*req) {
            None => r is Ok,
            Some(m) => r matches Err(AppError::BadRequest(x)) && x@ == m,
        },
{
    if let Some(p) = req.backend_port {
        if p == 0 {
            return Err(AppError::BadRequest(owned("backend_port must be 1-65535")));
        }
    }
    if let Some(l) = req.gzip_comp_level {
        if !(1 <= l && l <= 9) {
            return Err(AppError::BadRequest(owned("gzip_comp_level must be 1-9")));
        }
    }
    if !timeout_valid(req.proxy_connect_timeout) {
        return Err(AppError::BadRequest(owned("proxy_connect_timeout must be 1-3600")));
    }
    if !timeout_valid(req.proxy_send_timeout) {
        return Err(AppError::BadRequest(owned("proxy_send_timeout must be 1-3600")));
    }
    if !timeout_valid(req.proxy_read_timeout) {
        return Err(AppError::BadRequest(owned("proxy_read_timeout must be 1-3600")));
    }
    Ok(())
}

pub open spec fn text_write(key: Seq<char>, v: Option<String>) -> Seq<(Seq<char>, Seq<char>)> {
    match v {
        Some(s) => seq![(key, s@)],
        None => seq![],
    }
}

pub open spec fn number_write(key: Seq<char>, v: Option<u32>) -> Seq<(Seq<char>, Seq<char>)> {
    match v {
        Some(n) => seq![(key, decimal_nat(n as nat))],
        None => seq![],
    }
}

/// The settings that a template settings change stores, in order, as
/// `(key, value)`: one per field that is present; numbers in decimal, the
/// gzip flag as `true` or `false`.
pub open spec fn spec_template_writes(req: UpdateNginxTemplateSettingsRequest) -> Seq<(Seq<char>, Seq<char>)> {
    text_write("nginx_server_name"@, req.server_name)
        + number_write("nginx_backend_port"@, match req.backend_port { Some(p) => Some(p as u32), None => None })
        + (match req.gzip_enabled {
            Some(b) => seq![("nginx_gzip_enabled"@, if b { "true"@ } else { "false"@ })],
            None => seq![],
        })
        + number_write("nginx_gzip_comp_level"@, req.gzip_comp_level)
        + number_write("nginx_gzip_min_length"@, req.gzip_min_length)
        + number_write("nginx_proxy_connect_timeout"@, req.proxy_connect_timeout)
        + number_write("nginx_proxy_send_timeout"@, req.proxy_send_timeout)
        + number_write("nginx_proxy_read_timeout"@, req.proxy_read_timeout)
        + text_write("nginx_header_x_frame_options"@, req.header_x_frame_options)
        + text_write("nginx_header_x_content_type"@, req.header_x_content_type)
        + text_write("nginx_header_xss_protection"@, req.header_xss_protection)
        + text_write("nginx_header_hsts"@, req.header_hsts)
        + text_write("nginx_header_referrer_policy"@, req.header_referrer_policy)
        + text_write("nginx_header_permissions_policy"@, req.header_permissions_policy)
        + text_write("nginx_header_csp"@, req.header_csp)
}

pub open spec fn pair_views(v: Seq<(String, String)>) -> Seq<(Seq<char>, Seq<char>)> {
    v.map_values(|p: (String, String)| (p.0@, p.1@))
}

fn push_text(w: &mut Vec<(String, String)>, key: &str, v: &Option<String>)
    ensures
        pair_views(final(w)@) == pair_views(old(w)@) + text_write(key@, *v),
{
    let ghost before = pair_views(w@);
    if let Some(s) = v {
        w.push((owned(key), s.clone()));
    }
    assert(pair_views(w@) =~= before + text_write(key@, *v));
}

fn push_number(w: &mut Vec<(String, String)>, key: &str, v: Option<u32>)
    ensures
        pair_views(final(w)@) == pair_views(old(w)@) + number_write(key@, v),
{
    let ghost before = pair_views(w@);
    if let Some(n) = v {
        w.push((owned(key), decimal_u64(n as u64)));
    }
    assert(pair_views(w@) =~= before + number_write(key@, v));
}

/// The `(key, value)` settings that a template settings change stores.
pub fn template_setting_writes(req: &UpdateNginxTemplateSettingsRequest) -> (w: Vec<(String, String)>)
    ensures
        pair_views(w@) == spec_template_writes(*req),
{
    let mut w: Vec<(String, String)> = Vec::new();
    assert(pair_views(w@) =~= Seq::<(Seq<char>, Seq<char>)>::empty());
    push_text(&mut w, "nginx_server_name", &req.server_name);
    let port: Option<u32> = match req.backend_port {
        Some(p) => Some(p as u32),
        None => None,
    };
    push_number(&mut w, "nginx_backend_port", port);
    let ghost before = pair_views(w@);
    if let Some(b) = req.gzip_enabled {
        w.push((owned("nginx_gzip_enabled"), if b { owned("true") } else { owned("false") }));
    }
    assert(pair_views(w@) =~= before + (match req.gzip_enabled {
        Some(b) => seq![("nginx_gzip_enabled"@, if b { "true"@ } else { "false"@ })],
        None => seq![],
    }));
    push_number(&mut w, "nginx_gzip_comp_level", req.gzip_comp_level);
    push_number(&mut w, "nginx_gzip_min_length", req.gzip_min_length);
    push_number(&mut w, "nginx_proxy_connect_timeout", req.proxy_connect_timeout);
    push_number(&mut w, "nginx_proxy_send_timeout", req.proxy_send_timeout);
    push_number(&mut w, "nginx_proxy_read_timeout", req.proxy_read_timeout);
    push_text(&mut w, "nginx_header_x_frame_options", &req.header_x_frame_options);
    push_text(&mut w, "nginx_header_x_content_type", &req.header_x_content_type);
    push_text(&mut w, "nginx_header_xss_protection", &req.header_xss_protection);
    push_text(&mut w, "nginx_header_hsts", &req.header_hsts);
    push_text(&mut w, "nginx_header_referrer_policy", &req.header_referrer_policy);
    push_text(&mut w, "nginx_header_permissions_policy", &req.header_permissions_policy);
    push_text(&mut w, "nginx_header_csp", &req.header_csp);
    w
}

/// The value a list of writes leaves under a key: the last one written
/// under it.
pub open spec fn write_value(ws: Seq<(Seq<char>, Seq<char>)>, k: Seq<char>) -> Option<Seq<char>>
    decreases ws.len(),
{
    if ws.len() == 0 {
        None
    } else if ws.last().0 == k {
        Some(ws.last().1)
    } else {
        write_value(ws.drop_last(), k)
    }
}

proof fn lemma_write_value_concat(a: Seq<(Seq<char>, Seq<char>)>, b: Seq<(Seq<char>, Seq<char>)>, k: Seq<char>)
    ensures
        write_value(a + b, k) == match write_value(b, k) {
            Some(v) => Some(v),
            None => write_value(a, k),
        },
    decreases b.len(),
{
    if b.len() > 0 {
        let ab = a + b;
        assert(ab.drop_last() =~= a + b.drop_last());
        assert(ab.last() == b.last());
        lemma_write_value_concat(a, b.drop_last(), k);
    } else {
        assert(a + b =~= a);
    }
}

/// The settings after each write, in order, replaced its key's value.
pub open spec fn spec_set_all(rows: Seq<(String, Option<String>)>, w: Seq<(String, String)>) -> Seq<(String, Option<String>)>
    decreases w.len(),
{
    if w.len() == 0 {
        rows
    } else {
        spec_set(spec_set_all(rows, w.drop_last()), w.last().0@, Some(w.last().1))
    }
}

proof fn lemma_set_all_read(rows: Seq<(String, Option<String>)>, w: Seq<(String, String)>, k: Seq<char>)
    ensures
        first_index(spec_set_all(rows, w), row_with_key(k)) == first_index(rows, row_with_key(k)),
        stored_value(spec_set_all(rows, w), k) == if first_index(rows, row_with_key(k)) is Some
            && write_value(pair_views(w), k) is Some {
            write_value(pair_views(w), k)
        } else {
            stored_value(rows, k)
        },
    decreases w.len(),
{
    if w.len() > 0 {
        let before = spec_set_all(rows, w.drop_last());
        lemma_set_all_read(rows, w.drop_last(), k);
        lemma_set_keeps_keys(before, w.last().0@, Some(w.last().1), k);
        lemma_set_read(before, w.last().0@, Some(w.last().1), k);
        lemma_set_keeps_keys(before, w.last().0@, Some(w.last().1), w.last().0@);
        assert(pair_views(w).drop_last() =~= pair_views(w.drop_last()));
        assert(pair_views(w).last() == (w.last().0@, w.last().1@));
    }
}

/// Stores a template settings change: refused, with nothing stored, when
/// it breaks a rule (see `spec_template_update_error`); else each setting
/// it carries replaces the stored value under its key, where that key has a
/// row (see `spec_template_writes`).
pub fn save_template_settings(rows: &mut Vec<(String, Option<String>)>, req: &UpdateNginxTemplateSettingsRequest) -> (r: Result<(), AppError>)
    ensures
        match spec_template_update_error(*req) {
            Some(m) => (r matches Err(AppError::BadRequest(x)) && x@ == m) && final(rows)@ == old(rows)@,
            None => r is Ok && template_saved(old(rows)@, final(rows)@, *req),
        },
{
    if let Err(e) = validate_template_update(req) {
        return Err(e);
    }
    let writes = template_setting_writes(req);
    let ghost start = rows@;
    let mut i: usize = 0;
    while i < writes.len()
        invariant
            i <= writes.len(),
            rows@ == spec_set_all(start, writes@.take(i as int)),
        decreases writes.len() - i,
    {
        let (k, v) = (writes[i].0.as_str(), writes[i].1.clone());
        set_setting(rows, k, Some(v));
        assert(writes@.take(i + 1).drop_last() =~= writes@.take(i as int));
        assert(writes@.take(i + 1).last() == writes@[i as int]);
        i = i + 1;
    }
    assert(writes@.take(writes.len() as int) =~= writes@);
    proof {
        assert forall|k: Seq<char>| #[trigger] stored_value(rows@, k) == if first_index(start, row_with_key(k)) is Some
            && write_value(spec_template_writes(*req), k) is Some {
            write_value(spec_template_writes(*req), k)
        } else {
            stored_value(start, k)
        } by {
            lemma_set_all_read(start, writes@, k);
        }
    }
    Ok(())
}

/// Every template setting has a row to be stored in.
pub open spec fn has_template_rows(rows: Seq<(String, Option<String>)>) -> bool {
    &&& first_index(rows, row_with_key("nginx_server_name"@)) is Some
    &&& first_index(rows, row_with_key("nginx_backend_port"@)) is Some
    &&& first_index(rows, row_with_key("nginx_gzip_enabled"@)) is Some
    &&& first_index(rows, row_with_key("nginx_gzip_comp_level"@)) is Some
    &&& first_index(rows, row_with_key("nginx_gzip_min_length"@)) is Some
    &&& first_index(rows, row_with_key("nginx_proxy_connect_timeout"@)) is Some
    &&& first_index(rows, row_with_key("nginx_proxy_send_timeout"@)) is Some
    &&& first_index(rows, row_with_key("nginx_proxy_read_timeout"@)) is Some
    &&& first_index(rows, row_with_key("nginx_header_x_frame_options"@)) is Some
    &&& first_index(rows, row_with_key("nginx_header_x_content_type"@)) is Some
    &&& first_index(rows, row_with_key("nginx_header_xss_protection"@)) is Some
    &&& first_index(rows, row_with_key("nginx_header_hsts"@)) is Some
    &&& first_index(rows, row_with_key("nginx_header_referrer_policy"@)) is Some
    &&& first_index(rows, row_with_key("nginx_header_permissions_policy"@)) is Some
    &&& first_index(rows, row_with_key("nginx_header_csp"@)) is Some
}

proof fn lemma_single_write(k: Seq<char>, v: Seq<char>, q: Seq<char>)
    ensures
        write_value(seq![(k, v)], q) == if q == k { Some(v) } else { None },
        write_value(Seq::<(Seq<char>, Seq<char>)>::empty(), q) is None,
{
    assert(seq![(k, v)].drop_last() =~= Seq::<(Seq<char>, Seq<char>)>::empty());
}

/// The template keys are all different.
proof fn lemma_template_keys_distinct()
    ensures
        "nginx_server_name"@ != "nginx_backend_port"@,
        "nginx_server_name"@ != "nginx_gzip_enabled"@,
        "nginx_server_name"@ != "nginx_gzip_comp_level"@,
        "nginx_server_name"@ != "nginx_gzip_min_length"@,
        "nginx_server_name"@ != "nginx_proxy_connect_timeout"@,
        "nginx_server_name"@ != "nginx_proxy_send_timeout"@,
        "nginx_server_name"@ != "nginx_proxy_read_timeout"@,
        "nginx_server_name"@ != "nginx_header_x_frame_options"@,
        "nginx_server_name"@ != "nginx_header_x_content_type"@,
        "nginx_server_name"@ != "nginx_header_xss_protection"@,
        "nginx_server_name"@ != "nginx_header_hsts"@,
        "nginx_server_name"@ != "nginx_header_referrer_policy"@,
        "nginx_server_name"@ != "nginx_header_permissions_policy"@,
        "nginx_server_name"@ != "nginx_header_csp"@,
        "nginx_backend_port"@ != "nginx_gzip_enabled"@,
        "nginx_backend_port"@ != "nginx_gzip_comp_level"@,
        "nginx_backend_port"@ != "nginx_gzip_min_length"@,
        "nginx_backend_port"@ != "nginx_proxy_connect_timeout"@,
        "nginx_backend_port"@ != "nginx_proxy_send_timeout"@,
        "nginx_backend_port"@ != "nginx_proxy_read_timeout"@,
        "nginx_backend_port"@ != "nginx_header_x_frame_options"@,
        "nginx_backend_port"@ != "nginx_header_x_content_type"@,
        "nginx_backend_port"@ != "nginx_header_xss_protection"@,
        "nginx_backend_port"@ != "nginx_header_hsts"@,
        "nginx_backend_port"@ != "nginx_header_referrer_policy"@,
        "nginx_backend_port"@ != "nginx_header_permissions_policy"@,
        "nginx_backend_port"@ != "nginx_header_csp"@,
        "nginx_gzip_enabled"@ != "nginx_gzip_comp_level"@,
        "nginx_gzip_enabled"@ != "nginx_gzip_min_length"@,
        "nginx_gzip_enabled"@ != "nginx_proxy_connect_timeout"@,
        "nginx_gzip_enabled"@ != "nginx_proxy_send_timeout"@,
        "nginx_gzip_enabled"@ != "nginx_proxy_read_timeout"@,
        "nginx_gzip_enabled"@ != "nginx_header_x_frame_options"@,
        "nginx_gzip_enabled"@ != "nginx_header_x_content_type"@,
        "nginx_gzip_enabled"@ != "nginx_header_xss_protection"@,
        "nginx_gzip_enabled"@ != "nginx_header_hsts"@,
        "nginx_gzip_enabled"@ != "nginx_header_referrer_policy"@,
        "nginx_gzip_enabled"@ != "nginx_header_permissions_policy"@,
        "nginx_gzip_enabled"@ != "nginx_header_csp"@,
        "nginx_gzip_comp_level"@ != "nginx_gzip_min_length"@,
        "nginx_gzip_comp_level"@ != "nginx_proxy_connect_timeout"@,
        "nginx_gzip_comp_level"@ != "nginx_proxy_send_timeout"@,
        "nginx_gzip_comp_level"@ != "nginx_proxy_read_timeout"@,
        "nginx_gzip_comp_level"@ != "nginx_header_x_frame_options"@,
        "nginx_gzip_comp_level"@ != "nginx_header_x_content_type"@,
        "nginx_gzip_comp_level"@ != "nginx_header_xss_protection"@,
        "nginx_gzip_comp_level"@ != "nginx_header_hsts"@,
        "nginx_gzip_comp_level"@ != "nginx_header_referrer_policy"@,
        "nginx_gzip_comp_level"@ != "nginx_header_permissions_policy"@,
        "nginx_gzip_comp_level"@ != "nginx_header_csp"@,
        "nginx_gzip_min_length"@ != "nginx_proxy_connect_timeout"@,
        "nginx_gzip_min_length"@ != "nginx_proxy_send_timeout"@,
        "nginx_gzip_min_length"@ != "nginx_proxy_read_timeout"@,
        "nginx_gzip_min_length"@ != "nginx_header_x_frame_options"@,
        "nginx_gzip_min_length"@ != "nginx_header_x_content_type"@,
        "nginx_gzip_min_length"@ != "nginx_header_xss_protection"@,
        "nginx_gzip_min_length"@ != "nginx_header_hsts"@,
        "nginx_gzip_min_length"@ != "nginx_header_referrer_policy"@,
        "nginx_gzip_min_length"@ != "nginx_header_permissions_policy"@,
        "nginx_gzip_min_length"@ != "nginx_header_csp"@,
        "nginx_proxy_connect_timeout"@ != "nginx_proxy_send_timeout"@,
        "nginx_proxy_connect_timeout"@ != "nginx_proxy_read_timeout"@,
        "nginx_proxy_connect_timeout"@ != "nginx_header_x_frame_options"@,
        "nginx_proxy_connect_timeout"@ != "nginx_header_x_content_type"@,
        "nginx_proxy_connect_timeout"@ != "nginx_header_xss_protection"@,
        "nginx_proxy_connect_timeout"@ != "nginx_header_hsts"@,
        "nginx_proxy_connect_timeout"@ != "nginx_header_referrer_policy"@,
        "nginx_proxy_connect_timeout"@ != "nginx_header_permissions_policy"@,
        "nginx_proxy_connect_timeout"@ != "nginx_header_csp"@,
        "nginx_proxy_send_timeout"@ != "nginx_proxy_read_timeout"@,
        "nginx_proxy_send_timeout"@ != "nginx_header_x_frame_options"@,
        "nginx_proxy_send_timeout"@ != "nginx_header_x_content_type"@,
        "nginx_proxy_send_timeout"@ != "nginx_header_xss_protection"@,
        "nginx_proxy_send_timeout"@ != "nginx_header_hsts"@,
        "nginx_proxy_send_timeout"@ != "nginx_header_referrer_policy"@,
        "nginx_proxy_send_timeout"@ != "nginx_header_permissions_policy"@,
        "nginx_proxy_send_timeout"@ != "nginx_header_csp"@,
        "nginx_proxy_read_timeout"@ != "nginx_header_x_frame_options"@,
        "nginx_proxy_read_timeout"@ != "nginx_header_x_content_type"@,
        "nginx_proxy_read_timeout"@ != "nginx_header_xss_protection"@,
        "nginx_proxy_read_timeout"@ != "nginx_header_hsts"@,
        "nginx_proxy_read_timeout"@ != "nginx_header_referrer_policy"@,
        "nginx_proxy_read_timeout"@ != "nginx_header_permissions_policy"@,
        "nginx_proxy_read_timeout"@ != "nginx_header_csp"@,
        "nginx_header_x_frame_options"@ != "nginx_header_x_content_type"@,
        "nginx_header_x_frame_options"@ != "nginx_header_xss_protection"@,
        "nginx_header_x_frame_options"@ != "nginx_header_hsts"@,
        "nginx_header_x_frame_options"@ != "nginx_header_referrer_policy"@,
        "nginx_header_x_frame_options"@ != "nginx_header_permissions_policy"@,
        "nginx_header_x_frame_options"@ != "nginx_header_csp"@,
        "nginx_header_x_content_type"@ != "nginx_header_xss_protection"@,
        "nginx_header_x_content_type"@ != "nginx_header_hsts"@,
        "nginx_header_x_content_type"@ != "nginx_header_referrer_policy"@,
        "nginx_header_x_content_type"@ != "nginx_header_permissions_policy"@,
        "nginx_header_x_content_type"@ != "nginx_header_csp"@,
        "nginx_header_xss_protection"@ != "nginx_header_hsts"@,
        "nginx_header_xss_protection"@ != "nginx_header_referrer_policy"@,
        "nginx_header_xss_protection"@ != "nginx_header_permissions_policy"@,
        "nginx_header_xss_protection"@ != "nginx_header_csp"@,
        "nginx_header_hsts"@ != "nginx_header_referrer_policy"@,
        "nginx_header_hsts"@ != "nginx_header_permissions_policy"@,
        "nginx_header_hsts"@ != "nginx_header_csp"@,
        "nginx_header_referrer_policy"@ != "nginx_header_permissions_policy"@,
        "nginx_header_referrer_policy"@ != "nginx_header_csp"@,
        "nginx_header_permissions_policy"@ != "nginx_header_csp"@,
{
    reveal_strlit("nginx_server_name");
    reveal_strlit("nginx_backend_port");
    reveal_strlit("nginx_gzip_enabled");
    reveal_strlit("nginx_gzip_comp_level");
    reveal_strlit("nginx_gzip_min_length");
    reveal_strlit("nginx_proxy_connect_timeout");
    reveal_strlit("nginx_proxy_send_timeout");
    reveal_strlit("nginx_proxy_read_timeout");
    reveal_strlit("nginx_header_x_frame_options");
    reveal_strlit("nginx_header_x_content_type");
    reveal_strlit("nginx_header_xss_protection");
    reveal_strlit("nginx_header_hsts");
    reveal_strlit("nginx_header_referrer_policy");
    reveal_strlit("nginx_header_permissions_policy");
    reveal_strlit("nginx_header_csp");
    assert("nginx_server_name"@.len() != "nginx_backend_port"@.len());
    assert("nginx_server_name"@.len() != "nginx_gzip_enabled"@.len());
    assert("nginx_server_name"@.len() != "nginx_gzip_comp_level"@.len());
    assert("nginx_server_name"@.len() != "nginx_gzip_min_length"@.len());
    assert("nginx_server_name"@.len() != "nginx_proxy_connect_timeout"@.len());
    assert("nginx_server_name"@.len() != "nginx_proxy_send_timeout"@.len());
    assert("nginx_server_name"@.len() != "nginx_proxy_read_timeout"@.len());
    assert("nginx_server_name"@.len() != "nginx_header_x_frame_options"@.len());
    assert("nginx_server_name"@.len() != "nginx_header_x_content_type"@.len());
    assert("nginx_server_name"@.len() != "nginx_header_xss_protection"@.len());
    assert("nginx_server_name"@[6] != "nginx_header_hsts"@[6]);
    assert("nginx_server_name"@.len() != "nginx_header_referrer_policy"@.len());
    assert("nginx_server_name"@.len() != "nginx_header_permissions_policy"@.len());
    assert("nginx_server_name"@.len() != "nginx_header_csp"@.len());
    assert("nginx_backend_port"@[6] != "nginx_gzip_enabled"@[6]);
    assert("nginx_backend_port"@.len() != "nginx_gzip_comp_level"@.len());
    assert("nginx_backend_port"@.len() != "nginx_gzip_min_length"@.len());
    assert("nginx_backend_port"@.len() != "nginx_proxy_connect_timeout"@.len());
    assert("nginx_backend_port"@.len() != "nginx_proxy_send_timeout"@.len());
    assert("nginx_backend_port"@.len() != "nginx_proxy_read_timeout"@.len());
    assert("nginx_backend_port"@.len() != "nginx_header_x_frame_options"@.len());
    assert("nginx_backend_port"@.len() != "nginx_header_x_content_type"@.len());
    assert("nginx_backend_port"@.len() != "nginx_header_xss_protection"@.len());
    assert("nginx_backend_port"@.len() != "nginx_header_hsts"@.len());
    assert("nginx_backend_port"@.len() != "nginx_header_referrer_policy"@.len());
    assert("nginx_backend_port"@.len() != "nginx_header_permissions_policy"@.len());
    assert("nginx_backend_port"@.len() != "nginx_header_csp"@.len());
    assert("nginx_gzip_enabled"@.len() != "nginx_gzip_comp_level"@.len());
    assert("nginx_gzip_enabled"@.len() != "nginx_gzip_min_length"@.len());
    assert("nginx_gzip_enabled"@.len() != "nginx_proxy_connect_timeout"@.len());
    assert("nginx_gzip_enabled"@.len() != "nginx_proxy_send_timeout"@.len());
    assert("nginx_gzip_enabled"@.len() != "nginx_proxy_read_timeout"@.len());
    assert("nginx_gzip_enabled"@.len() != "nginx_header_x_frame_options"@.len());
    assert("nginx_gzip_enabled"@.len() != "nginx_header_x_content_type"@.len());
    assert("nginx_gzip_enabled"@.len() != "nginx_header_xss_protection"@.len());
    assert("nginx_gzip_enabled"@.len() != "nginx_header_hsts"@.len());
    assert("nginx_gzip_enabled"@.len() != "nginx_header_referrer_policy"@.len());
    assert("nginx_gzip_enabled"@.len() != "nginx_header_permissions_policy"@.len());
    assert("nginx_gzip_enabled"@.len() != "nginx_header_csp"@.len());
    assert("nginx_gzip_comp_level"@[11] != "nginx_gzip_min_length"@[11]);
    assert("nginx_gzip_comp_level"@.len() != "nginx_proxy_connect_timeout"@.len());
    assert("nginx_gzip_comp_level"@.len() != "nginx_proxy_send_timeout"@.len());
    assert("nginx_gzip_comp_level"@.len() != "nginx_proxy_read_timeout"@.len());
    assert("nginx_gzip_comp_level"@.len() != "nginx_header_x_frame_options"@.len());
    assert("nginx_gzip_comp_level"@.len() != "nginx_header_x_content_type"@.len());
    assert("nginx_gzip_comp_level"@.len() != "nginx_header_xss_protection"@.len());
    assert("nginx_gzip_comp_level"@.len() != "nginx_header_hsts"@.len());
    assert("nginx_gzip_comp_level"@.len() != "nginx_header_referrer_policy"@.len());
    assert("nginx_gzip_comp_level"@.len() != "nginx_header_permissions_policy"@.len());
    assert("nginx_gzip_comp_level"@.len() != "nginx_header_csp"@.len());
    assert("nginx_gzip_min_length"@.len() != "nginx_proxy_connect_timeout"@.len());
    assert("nginx_gzip_min_length"@.len() != "nginx_proxy_send_timeout"@.len());
    assert("nginx_gzip_min_length"@.len() != "nginx_proxy_read_timeout"@.len());
    assert("nginx_gzip_min_length"@.len() != "nginx_header_x_frame_options"@.len());
    assert("nginx_gzip_min_length"@.len() != "nginx_header_x_content_type"@.len());
    assert("nginx_gzip_min_length"@.len() != "nginx_header_xss_protection"@.len());
    assert("nginx_gzip_min_length"@.len() != "nginx_header_hsts"@.len());
    assert("nginx_gzip_min_length"@.len() != "nginx_header_referrer_policy"@.len());
    assert("nginx_gzip_min_length"@.len() != "nginx_header_permissions_policy"@.len());
    assert("nginx_gzip_min_length"@.len() != "nginx_header_csp"@.len());
    assert("nginx_proxy_connect_timeout"@.len() != "nginx_proxy_send_timeout"@.len());
    assert("nginx_proxy_connect_timeout"@.len() != "nginx_proxy_read_timeout"@.len());
    assert("nginx_proxy_connect_timeout"@.len() != "nginx_header_x_frame_options"@.len());
    assert("nginx_proxy_connect_timeout"@[6] != "nginx_header_x_content_type"@[6]);
    assert("nginx_proxy_connect_timeout"@[6] != "nginx_header_xss_protection"@[6]);
    assert("nginx_proxy_connect_timeout"@.len() != "nginx_header_hsts"@.len());
    assert("nginx_proxy_connect_timeout"@.len() != "nginx_header_referrer_policy"@.len());
    assert("nginx_proxy_connect_timeout"@.len() != "nginx_header_permissions_policy"@.len());
    assert("nginx_proxy_connect_timeout"@.len() != "nginx_header_csp"@.len());
    assert("nginx_proxy_send_timeout"@[12] != "nginx_proxy_read_timeout"@[12]);
    assert("nginx_proxy_send_timeout"@.len() != "nginx_header_x_frame_options"@.len());
    assert("nginx_proxy_send_timeout"@.len() != "nginx_header_x_content_type"@.len());
    assert("nginx_proxy_send_timeout"@.len() != "nginx_header_xss_protection"@.len());
    assert("nginx_proxy_send_timeout"@.len() != "nginx_header_hsts"@.len());
    assert("nginx_proxy_send_timeout"@.len() != "nginx_header_referrer_policy"@.len());
    assert("nginx_proxy_send_timeout"@.len() != "nginx_header_permissions_policy"@.len());
    assert("nginx_proxy_send_timeout"@.len() != "nginx_header_csp"@.len());
    assert("nginx_proxy_read_timeout"@.len() != "nginx_header_x_frame_options"@.len());
    assert("nginx_proxy_read_timeout"@.len() != "nginx_header_x_content_type"@.len());
    assert("nginx_proxy_read_timeout"@.len() != "nginx_header_xss_protection"@.len());
    assert("nginx_proxy_read_timeout"@.len() != "nginx_header_hsts"@.len());
    assert("nginx_proxy_read_timeout"@.len() != "nginx_header_referrer_policy"@.len());
    assert("nginx_proxy_read_timeout"@.len() != "nginx_header_permissions_policy"@.len());
    assert("nginx_proxy_read_timeout"@.len() != "nginx_header_csp"@.len());
    assert("nginx_header_x_frame_options"@.len() != "nginx_header_x_content_type"@.len());
    assert("nginx_header_x_frame_options"@.len() != "nginx_header_xss_protection"@.len());
    assert("nginx_header_x_frame_options"@.len() != "nginx_header_hsts"@.len());
    assert("nginx_header_x_frame_options"@[13] != "nginx_header_referrer_policy"@[13]);
    assert("nginx_header_x_frame_options"@.len() != "nginx_header_permissions_policy"@.len());
    assert("nginx_header_x_frame_options"@.len() != "nginx_header_csp"@.len());
    assert("nginx_header_x_content_type"@[14] != "nginx_header_xss_protection"@[14]);
    assert("nginx_header_x_content_type"@.len() != "nginx_header_hsts"@.len());
    assert("nginx_header_x_content_type"@.len() != "nginx_header_referrer_policy"@.len());
    assert("nginx_header_x_content_type"@.len() != "nginx_header_permissions_policy"@.len());
    assert("nginx_header_x_content_type"@.len() != "nginx_header_csp"@.len());
    assert("nginx_header_xss_protection"@.len() != "nginx_header_hsts"@.len());
    assert("nginx_header_xss_protection"@.len() != "nginx_header_referrer_policy"@.len());
    assert("nginx_header_xss_protection"@.len() != "nginx_header_permissions_policy"@.len());
    assert("nginx_header_xss_protection"@.len() != "nginx_header_csp"@.len());
    assert("nginx_header_hsts"@.len() != "nginx_header_referrer_policy"@.len());
    assert("nginx_header_hsts"@.len() != "nginx_header_permissions_policy"@.len());
    assert("nginx_header_hsts"@.len() != "nginx_header_csp"@.len());
    assert("nginx_header_referrer_policy"@.len() != "nginx_header_permissions_policy"@.len());
    assert("nginx_header_referrer_policy"@.len() != "nginx_header_csp"@.len());
    assert("nginx_header_permissions_policy"@.len() != "nginx_header_csp"@.len());
}

proof fn lemma_template_writes_server_name(req: UpdateNginxTemplateSettingsRequest)
    ensures
        write_value(spec_template_writes(req), "nginx_server_name"@) == (match req.server_name { Some(v) => Some(v@), None => None }),
{
    lemma_template_keys_distinct();
    let s1 = text_write("nginx_server_name"@, req.server_name);
    if let Some(v) = req.server_name { lemma_single_write("nginx_server_name"@, v@, "nginx_server_name"@); } else { lemma_single_write("nginx_server_name"@, Seq::empty(), "nginx_server_name"@); }
    let s2 = number_write("nginx_backend_port"@, match req.backend_port { Some(p) => Some(p as u32), None => None });
    if let Some(p) = req.backend_port { lemma_single_write("nginx_backend_port"@, decimal_nat(p as nat), "nginx_server_name"@); } else { lemma_single_write("nginx_backend_port"@, Seq::empty(), "nginx_server_name"@); }
    let s3 = (match req.gzip_enabled { Some(b) => seq![("nginx_gzip_enabled"@, if b { "true"@ } else { "false"@ })], None => seq![] });
    if let Some(b) = req.gzip_enabled { lemma_single_write("nginx_gzip_enabled"@, if b { "true"@ } else { "false"@ }, "nginx_server_name"@); } else { lemma_single_write("nginx_gzip_enabled"@, Seq::empty(), "nginx_server_name"@); }
    let s4 = number_write("nginx_gzip_comp_level"@, req.gzip_comp_level);
    if let Some(n) = req.gzip_comp_level { lemma_single_write("nginx_gzip_comp_level"@, decimal_nat(n as nat), "nginx_server_name"@); } else { lemma_single_write("nginx_gzip_comp_level"@, Seq::empty(), "nginx_server_name"@); }
    let s5 = number_write("nginx_gzip_min_length"@, req.gzip_min_length);
    if let Some(n) = req.gzip_min_length { lemma_single_write("nginx_gzip_min_length"@, decimal_nat(n as nat), "nginx_server_name"@); } else { lemma_single_write("nginx_gzip_min_length"@, Seq::empty(), "nginx_server_name"@); }
    let s6 = number_write("nginx_proxy_connect_timeout"@, req.proxy_connect_timeout);
    if let Some(n) = req.proxy_connect_timeout { lemma_single_write("nginx_proxy_connect_timeout"@, decimal_nat(n as nat), "nginx_server_name"@); } else { lemma_single_write("nginx_proxy_connect_timeout"@, Seq::empty(), "nginx_server_name"@); }
    let s7 = number_write("nginx_proxy_send_timeout"@, req.proxy_send_timeout);
    if let Some(n) = req.proxy_send_timeout { lemma_single_write("nginx_proxy_send_timeout"@, decimal_nat(n as nat), "nginx_server_name"@); } else { lemma_single_write("nginx_proxy_send_timeout"@, Seq::empty(), "nginx_server_name"@); }
    let s8 = number_write("nginx_proxy_read_timeout"@, req.proxy_read_timeout);
    if let Some(n) = req.proxy_read_timeout { lemma_single_write("nginx_proxy_read_timeout"@, decimal_nat(n as nat), "nginx_server_name"@); } else { lemma_single_write("nginx_proxy_read_timeout"@, Seq::empty(), "nginx_server_name"@); }
    let s9 = text_write("nginx_header_x_frame_options"@, req.header_x_frame_options);
    if let Some(v) = req.header_x_frame_options { lemma_single_write("nginx_header_x_frame_options"@, v@, "nginx_server_name"@); } else { lemma_single_write("nginx_header_x_frame_options"@, Seq::empty(), "nginx_server_name"@); }
    let s10 = text_write("nginx_header_x_content_type"@, req.header_x_content_type);
    if let Some(v) = req.header_x_content_type { lemma_single_write("nginx_header_x_content_type"@, v@, "nginx_server_name"@); } else { lemma_single_write("nginx_header_x_content_type"@, Seq::empty(), "nginx_server_name"@); }
    let s11 = text_write("nginx_header_xss_protection"@, req.header_xss_protection);
    if let Some(v) = req.header_xss_protection { lemma_single_write("nginx_header_xss_protection"@, v@, "nginx_server_name"@); } else { lemma_single_write("nginx_header_xss_protection"@, Seq::empty(), "nginx_server_name"@); }
    let s12 = text_write("nginx_header_hsts"@, req.header_hsts);
    if let Some(v) = req.header_hsts { lemma_single_write("nginx_header_hsts"@, v@, "nginx_server_name"@); } else { lemma_single_write("nginx_header_hsts"@, Seq::empty(), "nginx_server_name"@); }
    let s13 = text_write("nginx_header_referrer_policy"@, req.header_referrer_policy);
    if let Some(v) = req.header_referrer_policy { lemma_single_write("nginx_header_referrer_policy"@, v@, "nginx_server_name"@); } else { lemma_single_write("nginx_header_referrer_policy"@, Seq::empty(), "nginx_server_name"@); }
    let s14 = text_write("nginx_header_permissions_policy"@, req.header_permissions_policy);
    if let Some(v) = req.header_permissions_policy { lemma_single_write("nginx_header_permissions_policy"@, v@, "nginx_server_name"@); } else { lemma_single_write("nginx_header_permissions_policy"@, Seq::empty(), "nginx_server_name"@); }
    let s15 = text_write("nginx_header_csp"@, req.header_csp);
    if let Some(v) = req.header_csp { lemma_single_write("nginx_header_csp"@, v@, "nginx_server_name"@); } else { lemma_single_write("nginx_header_csp"@, Seq::empty(), "nginx_server_name"@); }
    let p1 = s1;
    let p2 = p1 + s2;
    lemma_write_value_concat(p1, s2, "nginx_server_name"@);
    let p3 = p2 + s3;
    lemma_write_value_concat(p2, s3, "nginx_server_name"@);
    let p4 = p3 + s4;
    lemma_write_value_concat(p3, s4, "nginx_server_name"@);
    let p5 = p4 + s5;
    lemma_write_value_concat(p4, s5, "nginx_server_name"@);
    let p6 = p5 + s6;
    lemma_write_value_concat(p5, s6, "nginx_server_name"@);
    let p7 = p6 + s7;
    lemma_write_value_concat(p6, s7, "nginx_server_name"@);
    let p8 = p7 + s8;
    lemma_write_value_concat(p7, s8, "nginx_server_name"@);
    let p9 = p8 + s9;
    lemma_write_value_concat(p8, s9, "nginx_server_name"@);
    let p10 = p9 + s10;
    lemma_write_value_concat(p9, s10, "nginx_server_name"@);
    let p11 = p10 + s11;
    lemma_write_value_concat(p10, s11, "nginx_server_name"@);
    let p12 = p11 + s12;
    lemma_write_value_concat(p11, s12, "nginx_server_name"@);
    let p13 = p12 + s13;
    lemma_write_value_concat(p12, s13, "nginx_server_name"@);
    let p14 = p13 + s14;
    lemma_write_value_concat(p13, s14, "nginx_server_name"@);
    let p15 = p14 + s15;
    lemma_write_value_concat(p14, s15, "nginx_server_name"@);
    assert(spec_template_writes(req) == p15);
}

proof fn lemma_template_writes_backend_port(req: UpdateNginxTemplateSettingsRequest)
    ensures
        write_value(spec_template_writes(req), "nginx_backend_port"@) == (match req.backend_port { Some(p) => Some(decimal_nat(p as nat)), None => None }),
{
    lemma_template_keys_distinct();
    let s1 = text_write("nginx_server_name"@, req.server_name);
    if let Some(v) = req.server_name { lemma_single_write("nginx_server_name"@, v@, "nginx_backend_port"@); } else { lemma_single_write("nginx_server_name"@, Seq::empty(), "nginx_backend_port"@); }
    let s2 = number_write("nginx_backend_port"@, match req.backend_port { Some(p) => Some(p as u32), None => None });
    if let Some(p) = req.backend_port { lemma_single_write("nginx_backend_port"@, decimal_nat(p as nat), "nginx_backend_port"@); } else { lemma_single_write("nginx_backend_port"@, Seq::empty(), "nginx_backend_port"@); }
    let s3 = (match req.gzip_enabled { Some(b) => seq![("nginx_gzip_enabled"@, if b { "true"@ } else { "false"@ })], None => seq![] });
    if let Some(b) = req.gzip_enabled { lemma_single_write("nginx_gzip_enabled"@, if b { "true"@ } else { "false"@ }, "nginx_backend_port"@); } else { lemma_single_write("nginx_gzip_enabled"@, Seq::empty(), "nginx_backend_port"@); }
    let s4 = number_write("nginx_gzip_comp_level"@, req.gzip_comp_level);
    if let Some(n) = req.gzip_comp_level { lemma_single_write("nginx_gzip_comp_level"@, decimal_nat(n as nat), "nginx_backend_port"@); } else { lemma_single_write("nginx_gzip_comp_level"@, Seq::empty(), "nginx_backend_port"@); }
    let s5 = number_write("nginx_gzip_min_length"@, req.gzip_min_length);
    if let Some(n) = req.gzip_min_length { lemma_single_write("nginx_gzip_min_length"@, decimal_nat(n as nat), "nginx_backend_port"@); } else { lemma_single_write("nginx_gzip_min_length"@, Seq::empty(), "nginx_backend_port"@); }
    let s6 = number_write("nginx_proxy_connect_timeout"@, req.proxy_connect_timeout);
    if let Some(n) = req.proxy_connect_timeout { lemma_single_write("nginx_proxy_connect_timeout"@, decimal_nat(n as nat), "nginx_backend_port"@); } else { lemma_single_write("nginx_proxy_connect_timeout"@, Seq::empty(), "nginx_backend_port"@); }
    let s7 = number_write("nginx_proxy_send_timeout"@, req.proxy_send_timeout);
    if let Some(n) = req.proxy_send_timeout { lemma_single_write("nginx_proxy_send_timeout"@, decimal_nat(n as nat), "nginx_backend_port"@); } else { lemma_single_write("nginx_proxy_send_timeout"@, Seq::empty(), "nginx_backend_port"@); }
    let s8 = number_write("nginx_proxy_read_timeout"@, req.proxy_read_timeout);
    if let Some(n) = req.proxy_read_timeout { lemma_single_write("nginx_proxy_read_timeout"@, decimal_nat(n as nat), "nginx_backend_port"@); } else { lemma_single_write("nginx_proxy_read_timeout"@, Seq::empty(), "nginx_backend_port"@); }
    let s9 = text_write("nginx_header_x_frame_options"@, req.header_x_frame_options);
    if let Some(v) = req.header_x_frame_options { lemma_single_write("nginx_header_x_frame_options"@, v@, "nginx_backend_port"@); } else { lemma_single_write("nginx_header_x_frame_options"@, Seq::empty(), "nginx_backend_port"@); }
    let s10 = text_write("nginx_header_x_content_type"@, req.header_x_content_type);
    if let Some(v) = req.header_x_content_type { lemma_single_write("nginx_header_x_content_type"@, v@, "nginx_backend_port"@); } else { lemma_single_write("nginx_header_x_content_type"@, Seq::empty(), "nginx_backend_port"@); }
    let s11 = text_write("nginx_header_xss_protection"@, req.header_xss_protection);
    if let Some(v) = req.header_xss_protection { lemma_single_write("nginx_header_xss_protection"@, v@, "nginx_backend_port"@); } else { lemma_single_write("nginx_header_xss_protection"@, Seq::empty(), "nginx_backend_port"@); }
    let s12 = text_write("nginx_header_hsts"@, req.header_hsts);
    if let Some(v) = req.header_hsts { lemma_single_write("nginx_header_hsts"@, v@, "nginx_backend_port"@); } else { lemma_single_write("nginx_header_hsts"@, Seq::empty(), "nginx_backend_port"@); }
    let s13 = text_write("nginx_header_referrer_policy"@, req.header_referrer_policy);
    if let Some(v) = req.header_referrer_policy { lemma_single_write("nginx_header_referrer_policy"@, v@, "nginx_backend_port"@); } else { lemma_single_write("nginx_header_referrer_policy"@, Seq::empty(), "nginx_backend_port"@); }
    let s14 = text_write("nginx_header_permissions_policy"@, req.header_permissions_policy);
    if let Some(v) = req.header_permissions_policy { lemma_single_write("nginx_header_permissions_policy"@, v@, "nginx_backend_port"@); } else { lemma_single_write("nginx_header_permissions_policy"@, Seq::empty(), "nginx_backend_port"@); }
    let s15 = text_write("nginx_header_csp"@, req.header_csp);
    if let Some(v) = req.header_csp { lemma_single_write("nginx_header_csp"@, v@, "nginx_backend_port"@); } else { lemma_single_write("nginx_header_csp"@, Seq::empty(), "nginx_backend_port"@); }
    let p1 = s1;
    let p2 = p1 + s2;
    lemma_write_value_concat(p1, s2, "nginx_backend_port"@);
    let p3 = p2 + s3;
    lemma_write_value_concat(p2, s3, "nginx_backend_port"@);
    let p4 = p3 + s4;
    lemma_write_value_concat(p3, s4, "nginx_backend_port"@);
    let p5 = p4 + s5;
    lemma_write_value_concat(p4, s5, "nginx_backend_port"@);
    let p6 = p5 + s6;
    lemma_write_value_concat(p5, s6, "nginx_backend_port"@);
    let p7 = p6 + s7;
    lemma_write_value_concat(p6, s7, "nginx_backend_port"@);
    let p8 = p7 + s8;
    lemma_write_value_concat(p7, s8, "nginx_backend_port"@);
    let p9 = p8 + s9;
    lemma_write_value_concat(p8, s9, "nginx_backend_port"@);
    let p10 = p9 + s10;
    lemma_write_value_concat(p9, s10, "nginx_backend_port"@);
    let p11 = p10 + s11;
    lemma_write_value_concat(p10, s11, "nginx_backend_port"@);
    let p12 = p11 + s12;
    lemma_write_value_concat(p11, s12, "nginx_backend_port"@);
    let p13 = p12 + s13;
    lemma_write_value_concat(p12, s13, "nginx_backend_port"@);
    let p14 = p13 + s14;
    lemma_write_value_concat(p13, s14, "nginx_backend_port"@);
    let p15 = p14 + s15;
    lemma_write_value_concat(p14, s15, "nginx_backend_port"@);
    assert(spec_template_writes(req) == p15);
}

proof fn lemma_template_writes_gzip_enabled(req: UpdateNginxTemplateSettingsRequest)
    ensures
        write_value(spec_template_writes(req), "nginx_gzip_enabled"@) == (match req.gzip_enabled { Some(b) => Some(if b { "true"@ } else { "false"@ }), None => None }),
{
    lemma_template_keys_distinct();
    let s1 = text_write("nginx_server_name"@, req.server_name);
    if let Some(v) = req.server_name { lemma_single_write("nginx_server_name"@, v@, "nginx_gzip_enabled"@); } else { lemma_single_write("nginx_server_name"@, Seq::empty(), "nginx_gzip_enabled"@); }
    let s2 = number_write("nginx_backend_port"@, match req.backend_port { Some(p) => Some(p as u32), None => None });
    if let Some(p) = req.backend_port { lemma_single_write("nginx_backend_port"@, decimal_nat(p as nat), "nginx_gzip_enabled"@); } else { lemma_single_write("nginx_backend_port"@, Seq::empty(), "nginx_gzip_enabled"@); }
    let s3 = (match req.gzip_enabled { Some(b) => seq![("nginx_gzip_enabled"@, if b { "true"@ } else { "false"@ })], None => seq![] });
    if let Some(b) = req.gzip_enabled { lemma_single_write("nginx_gzip_enabled"@, if b { "true"@ } else { "false"@ }, "nginx_gzip_enabled"@); } else { lemma_single_write("nginx_gzip_enabled"@, Seq::empty(), "nginx_gzip_enabled"@); }
    let s4 = number_write("nginx_gzip_comp_level"@, req.gzip_comp_level);
    if let Some(n) = req.gzip_comp_level { lemma_single_write("nginx_gzip_comp_level"@, decimal_nat(n as nat), "nginx_gzip_enabled"@); } else { lemma_single_write("nginx_gzip_comp_level"@, Seq::empty(), "nginx_gzip_enabled"@); }
    let s5 = number_write("nginx_gzip_min_length"@, req.gzip_min_length);
    if let Some(n) = req.gzip_min_length { lemma_single_write("nginx_gzip_min_length"@, decimal_nat(n as nat), "nginx_gzip_enabled"@); } else { lemma_single_write("nginx_gzip_min_length"@, Seq::empty(), "nginx_gzip_enabled"@); }
    let s6 = number_write("nginx_proxy_connect_timeout"@, req.proxy_connect_timeout);
    if let Some(n) = req.proxy_connect_timeout { lemma_single_write("nginx_proxy_connect_timeout"@, decimal_nat(n as nat), "nginx_gzip_enabled"@); } else { lemma_single_write("nginx_proxy_connect_timeout"@, Seq::empty(), "nginx_gzip_enabled"@); }
    let s7 = number_write("nginx_proxy_send_timeout"@, req.proxy_send_timeout);
    if let Some(n) = req.proxy_send_timeout { lemma_single_write("nginx_proxy_send_timeout"@, decimal_nat(n as nat), "nginx_gzip_enabled"@); } else { lemma_single_write("nginx_proxy_send_timeout"@, Seq::empty(), "nginx_gzip_enabled"@); }
    let s8 = number_write("nginx_proxy_read_timeout"@, req.proxy_read_timeout);
    if let Some(n) = req.proxy_read_timeout { lemma_single_write("nginx_proxy_read_timeout"@, decimal_nat(n as nat), "nginx_gzip_enabled"@); } else { lemma_single_write("nginx_proxy_read_timeout"@, Seq::empty(), "nginx_gzip_enabled"@); }
    let s9 = text_write("nginx_header_x_frame_options"@, req.header_x_frame_options);
    if let Some(v) = req.header_x_frame_options { lemma_single_write("nginx_header_x_frame_options"@, v@, "nginx_gzip_enabled"@); } else { lemma_single_write("nginx_header_x_frame_options"@, Seq::empty(), "nginx_gzip_enabled"@); }
    let s10 = text_write("nginx_header_x_content_type"@, req.header_x_content_type);
    if let Some(v) = req.header_x_content_type { lemma_single_write("nginx_header_x_content_type"@, v@, "nginx_gzip_enabled"@); } else { lemma_single_write("nginx_header_x_content_type"@, Seq::empty(), "nginx_gzip_enabled"@); }
    let s11 = text_write("nginx_header_xss_protection"@, req.header_xss_protection);
    if let Some(v) = req.header_xss_protection { lemma_single_write("nginx_header_xss_protection"@, v@, "nginx_gzip_enabled"@); } else { lemma_single_write("nginx_header_xss_protection"@, Seq::empty(), "nginx_gzip_enabled"@); }
    let s12 = text_write("nginx_header_hsts"@, req.header_hsts);
    if let Some(v) = req.header_hsts { lemma_single_write("nginx_header_hsts"@, v@, "nginx_gzip_enabled"@); } else { lemma_single_write("nginx_header_hsts"@, Seq::empty(), "nginx_gzip_enabled"@); }
    let s13 = text_write("nginx_header_referrer_policy"@, req.header_referrer_policy);
    if let Some(v) = req.header_referrer_policy { lemma_single_write("nginx_header_referrer_policy"@, v@, "nginx_gzip_enabled"@); } else { lemma_single_write("nginx_header_referrer_policy"@, Seq::empty(), "nginx_gzip_enabled"@); }
    let s14 = text_write("nginx_header_permissions_policy"@, req.header_permissions_policy);
    if let Some(v) = req.header_permissions_policy { lemma_single_write("nginx_header_permissions_policy"@, v@, "nginx_gzip_enabled"@); } else { lemma_single_write("nginx_header_permissions_policy"@, Seq::empty(), "nginx_gzip_enabled"@); }
    let s15 = text_write("nginx_header_csp"@, req.header_csp);
    if let Some(v) = req.header_csp { lemma_single_write("nginx_header_csp"@, v@, "nginx_gzip_enabled"@); } else { lemma_single_write("nginx_header_csp"@, Seq::empty(), "nginx_gzip_enabled"@); }
    let p1 = s1;
    let p2 = p1 + s2;
    lemma_write_value_concat(p1, s2, "nginx_gzip_enabled"@);
    let p3 = p2 + s3;
    lemma_write_value_concat(p2, s3, "nginx_gzip_enabled"@);
    let p4 = p3 + s4;
    lemma_write_value_concat(p3, s4, "nginx_gzip_enabled"@);
    let p5 = p4 + s5;
    lemma_write_value_concat(p4, s5, "nginx_gzip_enabled"@);
    let p6 = p5 + s6;
    lemma_write_value_concat(p5, s6, "nginx_gzip_enabled"@);
    let p7 = p6 + s7;
    lemma_write_value_concat(p6, s7, "nginx_gzip_enabled"@);
    let p8 = p7 + s8;
    lemma_write_value_concat(p7, s8, "nginx_gzip_enabled"@);
    let p9 = p8 + s9;
    lemma_write_value_concat(p8, s9, "nginx_gzip_enabled"@);
    let p10 = p9 + s10;
    lemma_write_value_concat(p9, s10, "nginx_gzip_enabled"@);
    let p11 = p10 + s11;
    lemma_write_value_concat(p10, s11, "nginx_gzip_enabled"@);
    let p12 = p11 + s12;
    lemma_write_value_concat(p11, s12, "nginx_gzip_enabled"@);
    let p13 = p12 + s13;
    lemma_write_value_concat(p12, s13, "nginx_gzip_enabled"@);
    let p14 = p13 + s14;
    lemma_write_value_concat(p13, s14, "nginx_gzip_enabled"@);
    let p15 = p14 + s15;
    lemma_write_value_concat(p14, s15, "nginx_gzip_enabled"@);
    assert(spec_template_writes(req) == p15);
}

proof fn lemma_template_writes_gzip_comp_level(req: UpdateNginxTemplateSettingsRequest)
    ensures
        write_value(spec_template_writes(req), "nginx_gzip_comp_level"@) == (match req.gzip_comp_level { Some(n) => Some(decimal_nat(n as nat)), None => None }),
{
    lemma_template_keys_distinct();
    let s1 = text_write("nginx_server_name"@, req.server_name);
    if let Some(v) = req.server_name { lemma_single_write("nginx_server_name"@, v@, "nginx_gzip_comp_level"@); } else { lemma_single_write("nginx_server_name"@, Seq::empty(), "nginx_gzip_comp_level"@); }
    let s2 = number_write("nginx_backend_port"@, match req.backend_port { Some(p) => Some(p as u32), None => None });
    if let Some(p) = req.backend_port { lemma_single_write("nginx_backend_port"@, decimal_nat(p as nat), "nginx_gzip_comp_level"@); } else { lemma_single_write("nginx_backend_port"@, Seq::empty(), "nginx_gzip_comp_level"@); }
    let s3 = (match req.gzip_enabled { Some(b) => seq![("nginx_gzip_enabled"@, if b { "true"@ } else { "false"@ })], None => seq![] });
    if let Some(b) = req.gzip_enabled { lemma_single_write("nginx_gzip_enabled"@, if b { "true"@ } else { "false"@ }, "nginx_gzip_comp_level"@); } else { lemma_single_write("nginx_gzip_enabled"@, Seq::empty(), "nginx_gzip_comp_level"@); }
    let s4 = number_write("nginx_gzip_comp_level"@, req.gzip_comp_level);
    if let Some(n) = req.gzip_comp_level { lemma_single_write("nginx_gzip_comp_level"@, decimal_nat(n as nat), "nginx_gzip_comp_level"@); } else { lemma_single_write("nginx_gzip_comp_level"@, Seq::empty(), "nginx_gzip_comp_level"@); }
    let s5 = number_write("nginx_gzip_min_length"@, req.gzip_min_length);
    if let Some(n) = req.gzip_min_length { lemma_single_write("nginx_gzip_min_length"@, decimal_nat(n as nat), "nginx_gzip_comp_level"@); } else { lemma_single_write("nginx_gzip_min_length"@, Seq::empty(), "nginx_gzip_comp_level"@); }
    let s6 = number_write("nginx_proxy_connect_timeout"@, req.proxy_connect_timeout);
    if let Some(n) = req.proxy_connect_timeout { lemma_single_write("nginx_proxy_connect_timeout"@, decimal_nat(n as nat), "nginx_gzip_comp_level"@); } else { lemma_single_write("nginx_proxy_connect_timeout"@, Seq::empty(), "nginx_gzip_comp_level"@); }
    let s7 = number_write("nginx_proxy_send_timeout"@, req.proxy_send_timeout);
    if let Some(n) = req.proxy_send_timeout { lemma_single_write("nginx_proxy_send_timeout"@, decimal_nat(n as nat), "nginx_gzip_comp_level"@); } else { lemma_single_write("nginx_proxy_send_timeout"@, Seq::empty(), "nginx_gzip_comp_level"@); }
    let s8 = number_write("nginx_proxy_read_timeout"@, req.proxy_read_timeout);
    if let Some(n) = req.proxy_read_timeout { lemma_single_write("nginx_proxy_read_timeout"@, decimal_nat(n as nat), "nginx_gzip_comp_level"@); } else { lemma_single_write("nginx_proxy_read_timeout"@, Seq::empty(), "nginx_gzip_comp_level"@); }
    let s9 = text_write("nginx_header_x_frame_options"@, req.header_x_frame_options);
    if let Some(v) = req.header_x_frame_options { lemma_single_write("nginx_header_x_frame_options"@, v@, "nginx_gzip_comp_level"@); } else { lemma_single_write("nginx_header_x_frame_options"@, Seq::empty(), "nginx_gzip_comp_level"@); }
    let s10 = text_write("nginx_header_x_content_type"@, req.header_x_content_type);
    if let Some(v) = req.header_x_content_type { lemma_single_write("nginx_header_x_content_type"@, v@, "nginx_gzip_comp_level"@); } else { lemma_single_write("nginx_header_x_content_type"@, Seq::empty(), "nginx_gzip_comp_level"@); }
    let s11 = text_write("nginx_header_xss_protection"@, req.header_xss_protection);
    if let Some(v) = req.header_xss_protection { lemma_single_write("nginx_header_xss_protection"@, v@, "nginx_gzip_comp_level"@); } else { lemma_single_write("nginx_header_xss_protection"@, Seq::empty(), "nginx_gzip_comp_level"@); }
    let s12 = text_write("nginx_header_hsts"@, req.header_hsts);
    if let Some(v) = req.header_hsts { lemma_single_write("nginx_header_hsts"@, v@, "nginx_gzip_comp_level"@); } else { lemma_single_write("nginx_header_hsts"@, Seq::empty(), "nginx_gzip_comp_level"@); }
    let s13 = text_write("nginx_header_referrer_policy"@, req.header_referrer_policy);
    if let Some(v) = req.header_referrer_policy { lemma_single_write("nginx_header_referrer_policy"@, v@, "nginx_gzip_comp_level"@); } else { lemma_single_write("nginx_header_referrer_policy"@, Seq::empty(), "nginx_gzip_comp_level"@); }
    let s14 = text_write("nginx_header_permissions_policy"@, req.header_permissions_policy);
    if let Some(v) = req.header_permissions_policy { lemma_single_write("nginx_header_permissions_policy"@, v@, "nginx_gzip_comp_level"@); } else { lemma_single_write("nginx_header_permissions_policy"@, Seq::empty(), "nginx_gzip_comp_level"@); }
    let s15 = text_write("nginx_header_csp"@, req.header_csp);
    if let Some(v) = req.header_csp { lemma_single_write("nginx_header_csp"@, v@, "nginx_gzip_comp_level"@); } else { lemma_single_write("nginx_header_csp"@, Seq::empty(), "nginx_gzip_comp_level"@); }
    let p1 = s1;
    let p2 = p1 + s2;
    lemma_write_value_concat(p1, s2, "nginx_gzip_comp_level"@);
    let p3 = p2 + s3;
    lemma_write_value_concat(p2, s3, "nginx_gzip_comp_level"@);
    let p4 = p3 + s4;
    lemma_write_value_concat(p3, s4, "nginx_gzip_comp_level"@);
    let p5 = p4 + s5;
    lemma_write_value_concat(p4, s5, "nginx_gzip_comp_level"@);
    let p6 = p5 + s6;
    lemma_write_value_concat(p5, s6, "nginx_gzip_comp_level"@);
    let p7 = p6 + s7;
    lemma_write_value_concat(p6, s7, "nginx_gzip_comp_level"@);
    let p8 = p7 + s8;
    lemma_write_value_concat(p7, s8, "nginx_gzip_comp_level"@);
    let p9 = p8 + s9;
    lemma_write_value_concat(p8, s9, "nginx_gzip_comp_level"@);
    let p10 = p9 + s10;
    lemma_write_value_concat(p9, s10, "nginx_gzip_comp_level"@);
    let p11 = p10 + s11;
    lemma_write_value_concat(p10, s11, "nginx_gzip_comp_level"@);
    let p12 = p11 + s12;
    lemma_write_value_concat(p11, s12, "nginx_gzip_comp_level"@);
    let p13 = p12 + s13;
    lemma_write_value_concat(p12, s13, "nginx_gzip_comp_level"@);
    let p14 = p13 + s14;
    lemma_write_value_concat(p13, s14, "nginx_gzip_comp_level"@);
    let p15 = p14 + s15;
    lemma_write_value_concat(p14, s15, "nginx_gzip_comp_level"@);
    assert(spec_template_writes(req) == p15);
}

proof fn lemma_template_writes_gzip_min_length(req: UpdateNginxTemplateSettingsRequest)
    ensures
        write_value(spec_template_writes(req), "nginx_gzip_min_length"@) == (match req.gzip_min_length { Some(n) => Some(decimal_nat(n as nat)), None => None }),
{
    lemma_template_keys_distinct();
    let s1 = text_write("nginx_server_name"@, req.server_name);
    if let Some(v) = req.server_name { lemma_single_write("nginx_server_name"@, v@, "nginx_gzip_min_length"@); } else { lemma_single_write("nginx_server_name"@, Seq::empty(), "nginx_gzip_min_length"@); }
    let s2 = number_write("nginx_backend_port"@, match req.backend_port { Some(p) => Some(p as u32), None => None });
    if let Some(p) = req.backend_port { lemma_single_write("nginx_backend_port"@, decimal_nat(p as nat), "nginx_gzip_min_length"@); } else { lemma_single_write("nginx_backend_port"@, Seq::empty(), "nginx_gzip_min_length"@); }
    let s3 = (match req.gzip_enabled { Some(b) => seq![("nginx_gzip_enabled"@, if b { "true"@ } else { "false"@ })], None => seq![] });
    if let Some(b) = req.gzip_enabled { lemma_single_write("nginx_gzip_enabled"@, if b { "true"@ } else { "false"@ }, "nginx_gzip_min_length"@); } else { lemma_single_write("nginx_gzip_enabled"@, Seq::empty(), "nginx_gzip_min_length"@); }
    let s4 = number_write("nginx_gzip_comp_level"@, req.gzip_comp_level);
    if let Some(n) = req.gzip_comp_level { lemma_single_write("nginx_gzip_comp_level"@, decimal_nat(n as nat), "nginx_gzip_min_length"@); } else { lemma_single_write("nginx_gzip_comp_level"@, Seq::empty(), "nginx_gzip_min_length"@); }
    let s5 = number_write("nginx_gzip_min_length"@, req.gzip_min_length);
    if let Some(n) = req.gzip_min_length { lemma_single_write("nginx_gzip_min_length"@, decimal_nat(n as nat), "nginx_gzip_min_length"@); } else { lemma_single_write("nginx_gzip_min_length"@, Seq::empty(), "nginx_gzip_min_length"@); }
    let s6 = number_write("nginx_proxy_connect_timeout"@, req.proxy_connect_timeout);
    if let Some(n) = req.proxy_connect_timeout { lemma_single_write("nginx_proxy_connect_timeout"@, decimal_nat(n as nat), "nginx_gzip_min_length"@); } else { lemma_single_write("nginx_proxy_connect_timeout"@, Seq::empty(), "nginx_gzip_min_length"@); }
    let s7 = number_write("nginx_proxy_send_timeout"@, req.proxy_send_timeout);
    if let Some(n) = req.proxy_send_timeout { lemma_single_write("nginx_proxy_send_timeout"@, decimal_nat(n as nat), "nginx_gzip_min_length"@); } else { lemma_single_write("nginx_proxy_send_timeout"@, Seq::empty(), "nginx_gzip_min_length"@); }
    let s8 = number_write("nginx_proxy_read_timeout"@, req.proxy_read_timeout);
    if let Some(n) = req.proxy_read_timeout { lemma_single_write("nginx_proxy_read_timeout"@, decimal_nat(n as nat), "nginx_gzip_min_length"@); } else { lemma_single_write("nginx_proxy_read_timeout"@, Seq::empty(), "nginx_gzip_min_length"@); }
    let s9 = text_write("nginx_header_x_frame_options"@, req.header_x_frame_options);
    if let Some(v) = req.header_x_frame_options { lemma_single_write("nginx_header_x_frame_options"@, v@, "nginx_gzip_min_length"@); } else { lemma_single_write("nginx_header_x_frame_options"@, Seq::empty(), "nginx_gzip_min_length"@); }
    let s10 = text_write("nginx_header_x_content_type"@, req.header_x_content_type);
    if let Some(v) = req.header_x_content_type { lemma_single_write("nginx_header_x_content_type"@, v@, "nginx_gzip_min_length"@); } else { lemma_single_write("nginx_header_x_content_type"@, Seq::empty(), "nginx_gzip_min_length"@); }
    let s11 = text_write("nginx_header_xss_protection"@, req.header_xss_protection);
    if let Some(v) = req.header_xss_protection { lemma_single_write("nginx_header_xss_protection"@, v@, "nginx_gzip_min_length"@); } else { lemma_single_write("nginx_header_xss_protection"@, Seq::empty(), "nginx_gzip_min_length"@); }
    let s12 = text_write("nginx_header_hsts"@, req.header_hsts);
    if let Some(v) = req.header_hsts { lemma_single_write("nginx_header_hsts"@, v@, "nginx_gzip_min_length"@); } else { lemma_single_write("nginx_header_hsts"@, Seq::empty(), "nginx_gzip_min_length"@); }
    let s13 = text_write("nginx_header_referrer_policy"@, req.header_referrer_policy);
    if let Some(v) = req.header_referrer_policy { lemma_single_write("nginx_header_referrer_policy"@, v@, "nginx_gzip_min_length"@); } else { lemma_single_write("nginx_header_referrer_policy"@, Seq::empty(), "nginx_gzip_min_length"@); }
    let s14 = text_write("nginx_header_permissions_policy"@, req.header_permissions_policy);
    if let Some(v) = req.header_permissions_policy { lemma_single_write("nginx_header_permissions_policy"@, v@, "nginx_gzip_min_length"@); } else { lemma_single_write("nginx_header_permissions_policy"@, Seq::empty(), "nginx_gzip_min_length"@); }
    let s15 = text_write("nginx_header_csp"@, req.header_csp);
    if let Some(v) = req.header_csp { lemma_single_write("nginx_header_csp"@, v@, "nginx_gzip_min_length"@); } else { lemma_single_write("nginx_header_csp"@, Seq::empty(), "nginx_gzip_min_length"@); }
    let p1 = s1;
    let p2 = p1 + s2;
    lemma_write_value_concat(p1, s2, "nginx_gzip_min_length"@);
    let p3 = p2 + s3;
    lemma_write_value_concat(p2, s3, "nginx_gzip_min_length"@);
    let p4 = p3 + s4;
    lemma_write_value_concat(p3, s4, "nginx_gzip_min_length"@);
    let p5 = p4 + s5;
    lemma_write_value_concat(p4, s5, "nginx_gzip_min_length"@);
    let p6 = p5 + s6;
    lemma_write_value_concat(p5, s6, "nginx_gzip_min_length"@);
    let p7 = p6 + s7;
    lemma_write_value_concat(p6, s7, "nginx_gzip_min_length"@);
    let p8 = p7 + s8;
    lemma_write_value_concat(p7, s8, "nginx_gzip_min_length"@);
    let p9 = p8 + s9;
    lemma_write_value_concat(p8, s9, "nginx_gzip_min_length"@);
    let p10 = p9 + s10;
    lemma_write_value_concat(p9, s10, "nginx_gzip_min_length"@);
    let p11 = p10 + s11;
    lemma_write_value_concat(p10, s11, "nginx_gzip_min_length"@);
    let p12 = p11 + s12;
    lemma_write_value_concat(p11, s12, "nginx_gzip_min_length"@);
    let p13 = p12 + s13;
    lemma_write_value_concat(p12, s13, "nginx_gzip_min_length"@);
    let p14 = p13 + s14;
    lemma_write_value_concat(p13, s14, "nginx_gzip_min_length"@);
    let p15 = p14 + s15;
    lemma_write_value_concat(p14, s15, "nginx_gzip_min_length"@);
    assert(spec_template_writes(req) == p15);
}

proof fn lemma_template_writes_proxy_connect_timeout(req: UpdateNginxTemplateSettingsRequest)
    ensures
        write_value(spec_template_writes(req), "nginx_proxy_connect_timeout"@) == (match req.proxy_connect_timeout { Some(n) => Some(decimal_nat(n as nat)), None => None }),
{
    lemma_template_keys_distinct();
    let s1 = text_write("nginx_server_name"@, req.server_name);
    if let Some(v) = req.server_name { lemma_single_write("nginx_server_name"@, v@, "nginx_proxy_connect_timeout"@); } else { lemma_single_write("nginx_server_name"@, Seq::empty(), "nginx_proxy_connect_timeout"@); }
    let s2 = number_write("nginx_backend_port"@, match req.backend_port { Some(p) => Some(p as u32), None => None });
    if let Some(p) = req.backend_port { lemma_single_write("nginx_backend_port"@, decimal_nat(p as nat), "nginx_proxy_connect_timeout"@); } else { lemma_single_write("nginx_backend_port"@, Seq::empty(), "nginx_proxy_connect_timeout"@); }
    let s3 = (match req.gzip_enabled { Some(b) => seq![("nginx_gzip_enabled"@, if b { "true"@ } else { "false"@ })], None => seq![] });
    if let Some(b) = req.gzip_enabled { lemma_single_write("nginx_gzip_enabled"@, if b { "true"@ } else { "false"@ }, "nginx_proxy_connect_timeout"@); } else { lemma_single_write("nginx_gzip_enabled"@, Seq::empty(), "nginx_proxy_connect_timeout"@); }
    let s4 = number_write("nginx_gzip_comp_level"@, req.gzip_comp_level);
    if let Some(n) = req.gzip_comp_level { lemma_single_write("nginx_gzip_comp_level"@, decimal_nat(n as nat), "nginx_proxy_connect_timeout"@); } else { lemma_single_write("nginx_gzip_comp_level"@, Seq::empty(), "nginx_proxy_connect_timeout"@); }
    let s5 = number_write("nginx_gzip_min_length"@, req.gzip_min_length);
    if let Some(n) = req.gzip_min_length { lemma_single_write("nginx_gzip_min_length"@, decimal_nat(n as nat), "nginx_proxy_connect_timeout"@); } else { lemma_single_write("nginx_gzip_min_length"@, Seq::empty(), "nginx_proxy_connect_timeout"@); }
    let s6 = number_write("nginx_proxy_connect_timeout"@, req.proxy_connect_timeout);
    if let Some(n) = req.proxy_connect_timeout { lemma_single_write("nginx_proxy_connect_timeout"@, decimal_nat(n as nat), "nginx_proxy_connect_timeout"@); } else { lemma_single_write("nginx_proxy_connect_timeout"@, Seq::empty(), "nginx_proxy_connect_timeout"@); }
    let s7 = number_write("nginx_proxy_send_timeout"@, req.proxy_send_timeout);
    if let Some(n) = req.proxy_send_timeout { lemma_single_write("nginx_proxy_send_timeout"@, decimal_nat(n as nat), "nginx_proxy_connect_timeout"@); } else { lemma_single_write("nginx_proxy_send_timeout"@, Seq::empty(), "nginx_proxy_connect_timeout"@); }
    let s8 = number_write("nginx_proxy_read_timeout"@, req.proxy_read_timeout);
    if let Some(n) = req.proxy_read_timeout { lemma_single_write("nginx_proxy_read_timeout"@, decimal_nat(n as nat), "nginx_proxy_connect_timeout"@); } else { lemma_single_write("nginx_proxy_read_timeout"@, Seq::empty(), "nginx_proxy_connect_timeout"@); }
    let s9 = text_write("nginx_header_x_frame_options"@, req.header_x_frame_options);
    if let Some(v) = req.header_x_frame_options { lemma_single_write("nginx_header_x_frame_options"@, v@, "nginx_proxy_connect_timeout"@); } else { lemma_single_write("nginx_header_x_frame_options"@, Seq::empty(), "nginx_proxy_connect_timeout"@); }
    let s10 = text_write("nginx_header_x_content_type"@, req.header_x_content_type);
    if let Some(v) = req.header_x_content_type { lemma_single_write("nginx_header_x_content_type"@, v@, "nginx_proxy_connect_timeout"@); } else { lemma_single_write("nginx_header_x_content_type"@, Seq::empty(), "nginx_proxy_connect_timeout"@); }
    let s11 = text_write("nginx_header_xss_protection"@, req.header_xss_protection);
    if let Some(v) = req.header_xss_protection { lemma_single_write("nginx_header_xss_protection"@, v@, "nginx_proxy_connect_timeout"@); } else { lemma_single_write("nginx_header_xss_protection"@, Seq::empty(), "nginx_proxy_connect_timeout"@); }
    let s12 = text_write("nginx_header_hsts"@, req.header_hsts);
    if let Some(v) = req.header_hsts { lemma_single_write("nginx_header_hsts"@, v@, "nginx_proxy_connect_timeout"@); } else { lemma_single_write("nginx_header_hsts"@, Seq::empty(), "nginx_proxy_connect_timeout"@); }
    let s13 = text_write("nginx_header_referrer_policy"@, req.header_referrer_policy);
    if let Some(v) = req.header_referrer_policy { lemma_single_write("nginx_header_referrer_policy"@, v@, "nginx_proxy_connect_timeout"@); } else { lemma_single_write("nginx_header_referrer_policy"@, Seq::empty(), "nginx_proxy_connect_timeout"@); }
    let s14 = text_write("nginx_header_permissions_policy"@, req.header_permissions_policy);
    if let Some(v) = req.header_permissions_policy { lemma_single_write("nginx_header_permissions_policy"@, v@, "nginx_proxy_connect_timeout"@); } else { lemma_single_write("nginx_header_permissions_policy"@, Seq::empty(), "nginx_proxy_connect_timeout"@); }
    let s15 = text_write("nginx_header_csp"@, req.header_csp);
    if let Some(v) = req.header_csp { lemma_single_write("nginx_header_csp"@, v@, "nginx_proxy_connect_timeout"@); } else { lemma_single_write("nginx_header_csp"@, Seq::empty(), "nginx_proxy_connect_timeout"@); }
    let p1 = s1;
    let p2 = p1 + s2;
    lemma_write_value_concat(p1, s2, "nginx_proxy_connect_timeout"@);
    let p3 = p2 + s3;
    lemma_write_value_concat(p2, s3, "nginx_proxy_connect_timeout"@);
    let p4 = p3 + s4;
    lemma_write_value_concat(p3, s4, "nginx_proxy_connect_timeout"@);
    let p5 = p4 + s5;
    lemma_write_value_concat(p4, s5, "nginx_proxy_connect_timeout"@);
    let p6 = p5 + s6;
    lemma_write_value_concat(p5, s6, "nginx_proxy_connect_timeout"@);
    let p7 = p6 + s7;
    lemma_write_value_concat(p6, s7, "nginx_proxy_connect_timeout"@);
    let p8 = p7 + s8;
    lemma_write_value_concat(p7, s8, "nginx_proxy_connect_timeout"@);
    let p9 = p8 + s9;
    lemma_write_value_concat(p8, s9, "nginx_proxy_connect_timeout"@);
    let p10 = p9 + s10;
    lemma_write_value_concat(p9, s10, "nginx_proxy_connect_timeout"@);
    let p11 = p10 + s11;
    lemma_write_value_concat(p10, s11, "nginx_proxy_connect_timeout"@);
    let p12 = p11 + s12;
    lemma_write_value_concat(p11, s12, "nginx_proxy_connect_timeout"@);
    let p13 = p12 + s13;
    lemma_write_value_concat(p12, s13, "nginx_proxy_connect_timeout"@);
    let p14 = p13 + s14;
    lemma_write_value_concat(p13, s14, "nginx_proxy_connect_timeout"@);
    let p15 = p14 + s15;
    lemma_write_value_concat(p14, s15, "nginx_proxy_connect_timeout"@);
    assert(spec_template_writes(req) == p15);
}

proof fn lemma_template_writes_proxy_send_timeout(req: UpdateNginxTemplateSettingsRequest)
    ensures
        write_value(spec_template_writes(req), "nginx_proxy_send_timeout"@) == (match req.proxy_send_timeout { Some(n) => Some(decimal_nat(n as nat)), None => None }),
{
    lemma_template_keys_distinct();
    let s1 = text_write("nginx_server_name"@, req.server_name);
    if let Some(v) = req.server_name { lemma_single_write("nginx_server_name"@, v@, "nginx_proxy_send_timeout"@); } else { lemma_single_write("nginx_server_name"@, Seq::empty(), "nginx_proxy_send_timeout"@); }
    let s2 = number_write("nginx_backend_port"@, match req.backend_port { Some(p) => Some(p as u32), None => None });
    if let Some(p) = req.backend_port { lemma_single_write("nginx_backend_port"@, decimal_nat(p as nat), "nginx_proxy_send_timeout"@); } else { lemma_single_write("nginx_backend_port"@, Seq::empty(), "nginx_proxy_send_timeout"@); }
    let s3 = (match req.gzip_enabled { Some(b) => seq![("nginx_gzip_enabled"@, if b { "true"@ } else { "false"@ })], None => seq![] });
    if let Some(b) = req.gzip_enabled { lemma_single_write("nginx_gzip_enabled"@, if b { "true"@ } else { "false"@ }, "nginx_proxy_send_timeout"@); } else { lemma_single_write("nginx_gzip_enabled"@, Seq::empty(), "nginx_proxy_send_timeout"@); }
    let s4 = number_write("nginx_gzip_comp_level"@, req.gzip_comp_level);
    if let Some(n) = req.gzip_comp_level { lemma_single_write("nginx_gzip_comp_level"@, decimal_nat(n as nat), "nginx_proxy_send_timeout"@); } else { lemma_single_write("nginx_gzip_comp_level"@, Seq::empty(), "nginx_proxy_send_timeout"@); }
    let s5 = number_write("nginx_gzip_min_length"@, req.gzip_min_length);
    if let Some(n) = req.gzip_min_length { lemma_single_write("nginx_gzip_min_length"@, decimal_nat(n as nat), "nginx_proxy_send_timeout"@); } else { lemma_single_write("nginx_gzip_min_length"@, Seq::empty(), "nginx_proxy_send_timeout"@); }
    let s6 = number_write("nginx_proxy_connect_timeout"@, req.proxy_connect_timeout);
    if let Some(n) = req.proxy_connect_timeout { lemma_single_write("nginx_proxy_connect_timeout"@, decimal_nat(n as nat), "nginx_proxy_send_timeout"@); } else { lemma_single_write("nginx_proxy_connect_timeout"@, Seq::empty(), "nginx_proxy_send_timeout"@); }
    let s7 = number_write("nginx_proxy_send_timeout"@, req.proxy_send_timeout);
    if let Some(n) = req.proxy_send_timeout { lemma_single_write("nginx_proxy_send_timeout"@, decimal_nat(n as nat), "nginx_proxy_send_timeout"@); } else { lemma_single_write("nginx_proxy_send_timeout"@, Seq::empty(), "nginx_proxy_send_timeout"@); }
    let s8 = number_write("nginx_proxy_read_timeout"@, req.proxy_read_timeout);
    if let Some(n) = req.proxy_read_timeout { lemma_single_write("nginx_proxy_read_timeout"@, decimal_nat(n as nat), "nginx_proxy_send_timeout"@); } else { lemma_single_write("nginx_proxy_read_timeout"@, Seq::empty(), "nginx_proxy_send_timeout"@); }
    let s9 = text_write("nginx_header_x_frame_options"@, req.header_x_frame_options);
    if let Some(v) = req.header_x_frame_options { lemma_single_write("nginx_header_x_frame_options"@, v@, "nginx_proxy_send_timeout"@); } else { lemma_single_write("nginx_header_x_frame_options"@, Seq::empty(), "nginx_proxy_send_timeout"@); }
    let s10 = text_write("nginx_header_x_content_type"@, req.header_x_content_type);
    if let Some(v) = req.header_x_content_type { lemma_single_write("nginx_header_x_content_type"@, v@, "nginx_proxy_send_timeout"@); } else { lemma_single_write("nginx_header_x_content_type"@, Seq::empty(), "nginx_proxy_send_timeout"@); }
    let s11 = text_write("nginx_header_xss_protection"@, req.header_xss_protection);
    if let Some(v) = req.header_xss_protection { lemma_single_write("nginx_header_xss_protection"@, v@, "nginx_proxy_send_timeout"@); } else { lemma_single_write("nginx_header_xss_protection"@, Seq::empty(), "nginx_proxy_send_timeout"@); }
    let s12 = text_write("nginx_header_hsts"@, req.header_hsts);
    if let Some(v) = req.header_hsts { lemma_single_write("nginx_header_hsts"@, v@, "nginx_proxy_send_timeout"@); } else { lemma_single_write("nginx_header_hsts"@, Seq::empty(), "nginx_proxy_send_timeout"@); }
    let s13 = text_write("nginx_header_referrer_policy"@, req.header_referrer_policy);
    if let Some(v) = req.header_referrer_policy { lemma_single_write("nginx_header_referrer_policy"@, v@, "nginx_proxy_send_timeout"@); } else { lemma_single_write("nginx_header_referrer_policy"@, Seq::empty(), "nginx_proxy_send_timeout"@); }
    let s14 = text_write("nginx_header_permissions_policy"@, req.header_permissions_policy);
    if let Some(v) = req.header_permissions_policy { lemma_single_write("nginx_header_permissions_policy"@, v@, "nginx_proxy_send_timeout"@); } else { lemma_single_write("nginx_header_permissions_policy"@, Seq::empty(), "nginx_proxy_send_timeout"@); }
    let s15 = text_write("nginx_header_csp"@, req.header_csp);
    if let Some(v) = req.header_csp { lemma_single_write("nginx_header_csp"@, v@, "nginx_proxy_send_timeout"@); } else { lemma_single_write("nginx_header_csp"@, Seq::empty(), "nginx_proxy_send_timeout"@); }
    let p1 = s1;
    let p2 = p1 + s2;
    lemma_write_value_concat(p1, s2, "nginx_proxy_send_timeout"@);
    let p3 = p2 + s3;
    lemma_write_value_concat(p2, s3, "nginx_proxy_send_timeout"@);
    let p4 = p3 + s4;
    lemma_write_value_concat(p3, s4, "nginx_proxy_send_timeout"@);
    let p5 = p4 + s5;
    lemma_write_value_concat(p4, s5, "nginx_proxy_send_timeout"@);
    let p6 = p5 + s6;
    lemma_write_value_concat(p5, s6, "nginx_proxy_send_timeout"@);
    let p7 = p6 + s7;
    lemma_write_value_concat(p6, s7, "nginx_proxy_send_timeout"@);
    let p8 = p7 + s8;
    lemma_write_value_concat(p7, s8, "nginx_proxy_send_timeout"@);
    let p9 = p8 + s9;
    lemma_write_value_concat(p8, s9, "nginx_proxy_send_timeout"@);
    let p10 = p9 + s10;
    lemma_write_value_concat(p9, s10, "nginx_proxy_send_timeout"@);
    let p11 = p10 + s11;
    lemma_write_value_concat(p10, s11, "nginx_proxy_send_timeout"@);
    let p12 = p11 + s12;
    lemma_write_value_concat(p11, s12, "nginx_proxy_send_timeout"@);
    let p13 = p12 + s13;
    lemma_write_value_concat(p12, s13, "nginx_proxy_send_timeout"@);
    let p14 = p13 + s14;
    lemma_write_value_concat(p13, s14, "nginx_proxy_send_timeout"@);
    let p15 = p14 + s15;
    lemma_write_value_concat(p14, s15, "nginx_proxy_send_timeout"@);
    assert(spec_template_writes(req) == p15);
}

proof fn lemma_template_writes_proxy_read_timeout(req: UpdateNginxTemplateSettingsRequest)
    ensures
        write_value(spec_template_writes(req), "nginx_proxy_read_timeout"@) == (match req.proxy_read_timeout { Some(n) => Some(decimal_nat(n as nat)), None => None }),
{
    lemma_template_keys_distinct();
    let s1 = text_write("nginx_server_name"@, req.server_name);
    if let Some(v) = req.server_name { lemma_single_write("nginx_server_name"@, v@, "nginx_proxy_read_timeout"@); } else { lemma_single_write("nginx_server_name"@, Seq::empty(), "nginx_proxy_read_timeout"@); }
    let s2 = number_write("nginx_backend_port"@, match req.backend_port { Some(p) => Some(p as u32), None => None });
    if let Some(p) = req.backend_port { lemma_single_write("nginx_backend_port"@, decimal_nat(p as nat), "nginx_proxy_read_timeout"@); } else { lemma_single_write("nginx_backend_port"@, Seq::empty(), "nginx_proxy_read_timeout"@); }
    let s3 = (match req.gzip_enabled { Some(b) => seq![("nginx_gzip_enabled"@, if b { "true"@ } else { "false"@ })], None => seq![] });
    if let Some(b) = req.gzip_enabled { lemma_single_write("nginx_gzip_enabled"@, if b { "true"@ } else { "false"@ }, "nginx_proxy_read_timeout"@); } else { lemma_single_write("nginx_gzip_enabled"@, Seq::empty(), "nginx_proxy_read_timeout"@); }
    let s4 = number_write("nginx_gzip_comp_level"@, req.gzip_comp_level);
    if let Some(n) = req.gzip_comp_level { lemma_single_write("nginx_gzip_comp_level"@, decimal_nat(n as nat), "nginx_proxy_read_timeout"@); } else { lemma_single_write("nginx_gzip_comp_level"@, Seq::empty(), "nginx_proxy_read_timeout"@); }
    let s5 = number_write("nginx_gzip_min_length"@, req.gzip_min_length);
    if let Some(n) = req.gzip_min_length { lemma_single_write("nginx_gzip_min_length"@, decimal_nat(n as nat), "nginx_proxy_read_timeout"@); } else { lemma_single_write("nginx_gzip_min_length"@, Seq::empty(), "nginx_proxy_read_timeout"@); }
    let s6 = number_write("nginx_proxy_connect_timeout"@, req.proxy_connect_timeout);
    if let Some(n) = req.proxy_connect_timeout { lemma_single_write("nginx_proxy_connect_timeout"@, decimal_nat(n as nat), "nginx_proxy_read_timeout"@); } else { lemma_single_write("nginx_proxy_connect_timeout"@, Seq::empty(), "nginx_proxy_read_timeout"@); }
    let s7 = number_write("nginx_proxy_send_timeout"@, req.proxy_send_timeout);
    if let Some(n) = req.proxy_send_timeout { lemma_single_write("nginx_proxy_send_timeout"@, decimal_nat(n as nat), "nginx_proxy_read_timeout"@); } else { lemma_single_write("nginx_proxy_send_timeout"@, Seq::empty(), "nginx_proxy_read_timeout"@); }
    let s8 = number_write("nginx_proxy_read_timeout"@, req.proxy_read_timeout);
    if let Some(n) = req.proxy_read_timeout { lemma_single_write("nginx_proxy_read_timeout"@, decimal_nat(n as nat), "nginx_proxy_read_timeout"@); } else { lemma_single_write("nginx_proxy_read_timeout"@, Seq::empty(), "nginx_proxy_read_timeout"@); }
    let s9 = text_write("nginx_header_x_frame_options"@, req.header_x_frame_options);
    if let Some(v) = req.header_x_frame_options { lemma_single_write("nginx_header_x_frame_options"@, v@, "nginx_proxy_read_timeout"@); } else { lemma_single_write("nginx_header_x_frame_options"@, Seq::empty(), "nginx_proxy_read_timeout"@); }
    let s10 = text_write("nginx_header_x_content_type"@, req.header_x_content_type);
    if let Some(v) = req.header_x_content_type { lemma_single_write("nginx_header_x_content_type"@, v@, "nginx_proxy_read_timeout"@); } else { lemma_single_write("nginx_header_x_content_type"@, Seq::empty(), "nginx_proxy_read_timeout"@); }
    let s11 = text_write("nginx_header_xss_protection"@, req.header_xss_protection);
    if let Some(v) = req.header_xss_protection { lemma_single_write("nginx_header_xss_protection"@, v@, "nginx_proxy_read_timeout"@); } else { lemma_single_write("nginx_header_xss_protection"@, Seq::empty(), "nginx_proxy_read_timeout"@); }
    let s12 = text_write("nginx_header_hsts"@, req.header_hsts);
    if let Some(v) = req.header_hsts { lemma_single_write("nginx_header_hsts"@, v@, "nginx_proxy_read_timeout"@); } else { lemma_single_write("nginx_header_hsts"@, Seq::empty(), "nginx_proxy_read_timeout"@); }
    let s13 = text_write("nginx_header_referrer_policy"@, req.header_referrer_policy);
    if let Some(v) = req.header_referrer_policy { lemma_single_write("nginx_header_referrer_policy"@, v@, "nginx_proxy_read_timeout"@); } else { lemma_single_write("nginx_header_referrer_policy"@, Seq::empty(), "nginx_proxy_read_timeout"@); }
    let s14 = text_write("nginx_header_permissions_policy"@, req.header_permissions_policy);
    if let Some(v) = req.header_permissions_policy { lemma_single_write("nginx_header_permissions_policy"@, v@, "nginx_proxy_read_timeout"@); } else { lemma_single_write("nginx_header_permissions_policy"@, Seq::empty(), "nginx_proxy_read_timeout"@); }
    let s15 = text_write("nginx_header_csp"@, req.header_csp);
    if let Some(v) = req.header_csp { lemma_single_write("nginx_header_csp"@, v@, "nginx_proxy_read_timeout"@); } else { lemma_single_write("nginx_header_csp"@, Seq::empty(), "nginx_proxy_read_timeout"@); }
    let p1 = s1;
    let p2 = p1 + s2;
    lemma_write_value_concat(p1, s2, "nginx_proxy_read_timeout"@);
    let p3 = p2 + s3;
    lemma_write_value_concat(p2, s3, "nginx_proxy_read_timeout"@);
    let p4 = p3 + s4;
    lemma_write_value_concat(p3, s4, "nginx_proxy_read_timeout"@);
    let p5 = p4 + s5;
    lemma_write_value_concat(p4, s5, "nginx_proxy_read_timeout"@);
    let p6 = p5 + s6;
    lemma_write_value_concat(p5, s6, "nginx_proxy_read_timeout"@);
    let p7 = p6 + s7;
    lemma_write_value_concat(p6, s7, "nginx_proxy_read_timeout"@);
    let p8 = p7 + s8;
    lemma_write_value_concat(p7, s8, "nginx_proxy_read_timeout"@);
    let p9 = p8 + s9;
    lemma_write_value_concat(p8, s9, "nginx_proxy_read_timeout"@);
    let p10 = p9 + s10;
    lemma_write_value_concat(p9, s10, "nginx_proxy_read_timeout"@);
    let p11 = p10 + s11;
    lemma_write_value_concat(p10, s11, "nginx_proxy_read_timeout"@);
    let p12 = p11 + s12;
    lemma_write_value_concat(p11, s12, "nginx_proxy_read_timeout"@);
    let p13 = p12 + s13;
    lemma_write_value_concat(p12, s13, "nginx_proxy_read_timeout"@);
    let p14 = p13 + s14;
    lemma_write_value_concat(p13, s14, "nginx_proxy_read_timeout"@);
    let p15 = p14 + s15;
    lemma_write_value_concat(p14, s15, "nginx_proxy_read_timeout"@);
    assert(spec_template_writes(req) == p15);
}

proof fn lemma_template_writes_header_x_frame_options(req: UpdateNginxTemplateSettingsRequest)
    ensures
        write_value(spec_template_writes(req), "nginx_header_x_frame_options"@) == (match req.header_x_frame_options { Some(v) => Some(v@), None => None }),
{
    lemma_template_keys_distinct();
    let s1 = text_write("nginx_server_name"@, req.server_name);
    if let Some(v) = req.server_name { lemma_single_write("nginx_server_name"@, v@, "nginx_header_x_frame_options"@); } else { lemma_single_write("nginx_server_name"@, Seq::empty(), "nginx_header_x_frame_options"@); }
    let s2 = number_write("nginx_backend_port"@, match req.backend_port { Some(p) => Some(p as u32), None => None });
    if let Some(p) = req.backend_port { lemma_single_write("nginx_backend_port"@, decimal_nat(p as nat), "nginx_header_x_frame_options"@); } else { lemma_single_write("nginx_backend_port"@, Seq::empty(), "nginx_header_x_frame_options"@); }
    let s3 = (match req.gzip_enabled { Some(b) => seq![("nginx_gzip_enabled"@, if b { "true"@ } else { "false"@ })], None => seq![] });
    if let Some(b) = req.gzip_enabled { lemma_single_write("nginx_gzip_enabled"@, if b { "true"@ } else { "false"@ }, "nginx_header_x_frame_options"@); } else { lemma_single_write("nginx_gzip_enabled"@, Seq::empty(), "nginx_header_x_frame_options"@); }
    let s4 = number_write("nginx_gzip_comp_level"@, req.gzip_comp_level);
    if let Some(n) = req.gzip_comp_level { lemma_single_write("nginx_gzip_comp_level"@, decimal_nat(n as nat), "nginx_header_x_frame_options"@); } else { lemma_single_write("nginx_gzip_comp_level"@, Seq::empty(), "nginx_header_x_frame_options"@); }
    let s5 = number_write("nginx_gzip_min_length"@, req.gzip_min_length);
    if let Some(n) = req.gzip_min_length { lemma_single_write("nginx_gzip_min_length"@, decimal_nat(n as nat), "nginx_header_x_frame_options"@); } else { lemma_single_write("nginx_gzip_min_length"@, Seq::empty(), "nginx_header_x_frame_options"@); }
    let s6 = number_write("nginx_proxy_connect_timeout"@, req.proxy_connect_timeout);
    if let Some(n) = req.proxy_connect_timeout { lemma_single_write("nginx_proxy_connect_timeout"@, decimal_nat(n as nat), "nginx_header_x_frame_options"@); } else { lemma_single_write("nginx_proxy_connect_timeout"@, Seq::empty(), "nginx_header_x_frame_options"@); }
    let s7 = number_write("nginx_proxy_send_timeout"@, req.proxy_send_timeout);
    if let Some(n) = req.proxy_send_timeout { lemma_single_write("nginx_proxy_send_timeout"@, decimal_nat(n as nat), "nginx_header_x_frame_options"@); } else { lemma_single_write("nginx_proxy_send_timeout"@, Seq::empty(), "nginx_header_x_frame_options"@); }
    let s8 = number_write("nginx_proxy_read_timeout"@, req.proxy_read_timeout);
    if let Some(n) = req.proxy_read_timeout { lemma_single_write("nginx_proxy_read_timeout"@, decimal_nat(n as nat), "nginx_header_x_frame_options"@); } else { lemma_single_write("nginx_proxy_read_timeout"@, Seq::empty(), "nginx_header_x_frame_options"@); }
    let s9 = text_write("nginx_header_x_frame_options"@, req.header_x_frame_options);
    if let Some(v) = req.header_x_frame_options { lemma_single_write("nginx_header_x_frame_options"@, v@, "nginx_header_x_frame_options"@); } else { lemma_single_write("nginx_header_x_frame_options"@, Seq::empty(), "nginx_header_x_frame_options"@); }
    let s10 = text_write("nginx_header_x_content_type"@, req.header_x_content_type);
    if let Some(v) = req.header_x_content_type { lemma_single_write("nginx_header_x_content_type"@, v@, "nginx_header_x_frame_options"@); } else { lemma_single_write("nginx_header_x_content_type"@, Seq::empty(), "nginx_header_x_frame_options"@); }
    let s11 = text_write("nginx_header_xss_protection"@, req.header_xss_protection);
    if let Some(v) = req.header_xss_protection { lemma_single_write("nginx_header_xss_protection"@, v@, "nginx_header_x_frame_options"@); } else { lemma_single_write("nginx_header_xss_protection"@, Seq::empty(), "nginx_header_x_frame_options"@); }
    let s12 = text_write("nginx_header_hsts"@, req.header_hsts);
    if let Some(v) = req.header_hsts { lemma_single_write("nginx_header_hsts"@, v@, "nginx_header_x_frame_options"@); } else { lemma_single_write("nginx_header_hsts"@, Seq::empty(), "nginx_header_x_frame_options"@); }
    let s13 = text_write("nginx_header_referrer_policy"@, req.header_referrer_policy);
    if let Some(v) = req.header_referrer_policy { lemma_single_write("nginx_header_referrer_policy"@, v@, "nginx_header_x_frame_options"@); } else { lemma_single_write("nginx_header_referrer_policy"@, Seq::empty(), "nginx_header_x_frame_options"@); }
    let s14 = text_write("nginx_header_permissions_policy"@, req.header_permissions_policy);
    if let Some(v) = req.header_permissions_policy { lemma_single_write("nginx_header_permissions_policy"@, v@, "nginx_header_x_frame_options"@); } else { lemma_single_write("nginx_header_permissions_policy"@, Seq::empty(), "nginx_header_x_frame_options"@); }
    let s15 = text_write("nginx_header_csp"@, req.header_csp);
    if let Some(v) = req.header_csp { lemma_single_write("nginx_header_csp"@, v@, "nginx_header_x_frame_options"@); } else { lemma_single_write("nginx_header_csp"@, Seq::empty(), "nginx_header_x_frame_options"@); }
    let p1 = s1;
    let p2 = p1 + s2;
    lemma_write_value_concat(p1, s2, "nginx_header_x_frame_options"@);
    let p3 = p2 + s3;
    lemma_write_value_concat(p2, s3, "nginx_header_x_frame_options"@);
    let p4 = p3 + s4;
    lemma_write_value_concat(p3, s4, "nginx_header_x_frame_options"@);
    let p5 = p4 + s5;
    lemma_write_value_concat(p4, s5, "nginx_header_x_frame_options"@);
    let p6 = p5 + s6;
    lemma_write_value_concat(p5, s6, "nginx_header_x_frame_options"@);
    let p7 = p6 + s7;
    lemma_write_value_concat(p6, s7, "nginx_header_x_frame_options"@);
    let p8 = p7 + s8;
    lemma_write_value_concat(p7, s8, "nginx_header_x_frame_options"@);
    let p9 = p8 + s9;
    lemma_write_value_concat(p8, s9, "nginx_header_x_frame_options"@);
    let p10 = p9 + s10;
    lemma_write_value_concat(p9, s10, "nginx_header_x_frame_options"@);
    let p11 = p10 + s11;
    lemma_write_value_concat(p10, s11, "nginx_header_x_frame_options"@);
    let p12 = p11 + s12;
    lemma_write_value_concat(p11, s12, "nginx_header_x_frame_options"@);
    let p13 = p12 + s13;
    lemma_write_value_concat(p12, s13, "nginx_header_x_frame_options"@);
    let p14 = p13 + s14;
    lemma_write_value_concat(p13, s14, "nginx_header_x_frame_options"@);
    let p15 = p14 + s15;
    lemma_write_value_concat(p14, s15, "nginx_header_x_frame_options"@);
    assert(spec_template_writes(req) == p15);
}

proof fn lemma_template_writes_header_x_content_type(req: UpdateNginxTemplateSettingsRequest)
    ensures
        write_value(spec_template_writes(req), "nginx_header_x_content_type"@) == (match req.header_x_content_type { Some(v) => Some(v@), None => None }),
{
    lemma_template_keys_distinct();
    let s1 = text_write("nginx_server_name"@, req.server_name);
    if let Some(v) = req.server_name { lemma_single_write("nginx_server_name"@, v@, "nginx_header_x_content_type"@); } else { lemma_single_write("nginx_server_name"@, Seq::empty(), "nginx_header_x_content_type"@); }
    let s2 = number_write("nginx_backend_port"@, match req.backend_port { Some(p) => Some(p as u32), None => None });
    if let Some(p) = req.backend_port { lemma_single_write("nginx_backend_port"@, decimal_nat(p as nat), "nginx_header_x_content_type"@); } else { lemma_single_write("nginx_backend_port"@, Seq::empty(), "nginx_header_x_content_type"@); }
    let s3 = (match req.gzip_enabled { Some(b) => seq![("nginx_gzip_enabled"@, if b { "true"@ } else { "false"@ })], None => seq![] });
    if let Some(b) = req.gzip_enabled { lemma_single_write("nginx_gzip_enabled"@, if b { "true"@ } else { "false"@ }, "nginx_header_x_content_type"@); } else { lemma_single_write("nginx_gzip_enabled"@, Seq::empty(), "nginx_header_x_content_type"@); }
    let s4 = number_write("nginx_gzip_comp_level"@, req.gzip_comp_level);
    if let Some(n) = req.gzip_comp_level { lemma_single_write("nginx_gzip_comp_level"@, decimal_nat(n as nat), "nginx_header_x_content_type"@); } else { lemma_single_write("nginx_gzip_comp_level"@, Seq::empty(), "nginx_header_x_content_type"@); }
    let s5 = number_write("nginx_gzip_min_length"@, req.gzip_min_length);
    if let Some(n) = req.gzip_min_length { lemma_single_write("nginx_gzip_min_length"@, decimal_nat(n as nat), "nginx_header_x_content_type"@); } else { lemma_single_write("nginx_gzip_min_length"@, Seq::empty(), "nginx_header_x_content_type"@); }
    let s6 = number_write("nginx_proxy_connect_timeout"@, req.proxy_connect_timeout);
    if let Some(n) = req.proxy_connect_timeout { lemma_single_write("nginx_proxy_connect_timeout"@, decimal_nat(n as nat), "nginx_header_x_content_type"@); } else { lemma_single_write("nginx_proxy_connect_timeout"@, Seq::empty(), "nginx_header_x_content_type"@); }
    let s7 = number_write("nginx_proxy_send_timeout"@, req.proxy_send_timeout);
    if let Some(n) = req.proxy_send_timeout { lemma_single_write("nginx_proxy_send_timeout"@, decimal_nat(n as nat), "nginx_header_x_content_type"@); } else { lemma_single_write("nginx_proxy_send_timeout"@, Seq::empty(), "nginx_header_x_content_type"@); }
    let s8 = number_write("nginx_proxy_read_timeout"@, req.proxy_read_timeout);
    if let Some(n) = req.proxy_read_timeout { lemma_single_write("nginx_proxy_read_timeout"@, decimal_nat(n as nat), "nginx_header_x_content_type"@); } else { lemma_single_write("nginx_proxy_read_timeout"@, Seq::empty(), "nginx_header_x_content_type"@); }
    let s9 = text_write("nginx_header_x_frame_options"@, req.header_x_frame_options);
    if let Some(v) = req.header_x_frame_options { lemma_single_write("nginx_header_x_frame_options"@, v@, "nginx_header_x_content_type"@); } else { lemma_single_write("nginx_header_x_frame_options"@, Seq::empty(), "nginx_header_x_content_type"@); }
    let s10 = text_write("nginx_header_x_content_type"@, req.header_x_content_type);
    if let Some(v) = req.header_x_content_type { lemma_single_write("nginx_header_x_content_type"@, v@, "nginx_header_x_content_type"@); } else { lemma_single_write("nginx_header_x_content_type"@, Seq::empty(), "nginx_header_x_content_type"@); }
    let s11 = text_write("nginx_header_xss_protection"@, req.header_xss_protection);
    if let Some(v) = req.header_xss_protection { lemma_single_write("nginx_header_xss_protection"@, v@, "nginx_header_x_content_type"@); } else { lemma_single_write("nginx_header_xss_protection"@, Seq::empty(), "nginx_header_x_content_type"@); }
    let s12 = text_write("nginx_header_hsts"@, req.header_hsts);
    if let Some(v) = req.header_hsts { lemma_single_write("nginx_header_hsts"@, v@, "nginx_header_x_content_type"@); } else { lemma_single_write("nginx_header_hsts"@, Seq::empty(), "nginx_header_x_content_type"@); }
    let s13 = text_write("nginx_header_referrer_policy"@, req.header_referrer_policy);
    if let Some(v) = req.header_referrer_policy { lemma_single_write("nginx_header_referrer_policy"@, v@, "nginx_header_x_content_type"@); } else { lemma_single_write("nginx_header_referrer_policy"@, Seq::empty(), "nginx_header_x_content_type"@); }
    let s14 = text_write("nginx_header_permissions_policy"@, req.header_permissions_policy);
    if let Some(v) = req.header_permissions_policy { lemma_single_write("nginx_header_permissions_policy"@, v@, "nginx_header_x_content_type"@); } else { lemma_single_write("nginx_header_permissions_policy"@, Seq::empty(), "nginx_header_x_content_type"@); }
    let s15 = text_write("nginx_header_csp"@, req.header_csp);
    if let Some(v) = req.header_csp { lemma_single_write("nginx_header_csp"@, v@, "nginx_header_x_content_type"@); } else { lemma_single_write("nginx_header_csp"@, Seq::empty(), "nginx_header_x_content_type"@); }
    let p1 = s1;
    let p2 = p1 + s2;
    lemma_write_value_concat(p1, s2, "nginx_header_x_content_type"@);
    let p3 = p2 + s3;
    lemma_write_value_concat(p2, s3, "nginx_header_x_content_type"@);
    let p4 = p3 + s4;
    lemma_write_value_concat(p3, s4, "nginx_header_x_content_type"@);
    let p5 = p4 + s5;
    lemma_write_value_concat(p4, s5, "nginx_header_x_content_type"@);
    let p6 = p5 + s6;
    lemma_write_value_concat(p5, s6, "nginx_header_x_content_type"@);
    let p7 = p6 + s7;
    lemma_write_value_concat(p6, s7, "nginx_header_x_content_type"@);
    let p8 = p7 + s8;
    lemma_write_value_concat(p7, s8, "nginx_header_x_content_type"@);
    let p9 = p8 + s9;
    lemma_write_value_concat(p8, s9, "nginx_header_x_content_type"@);
    let p10 = p9 + s10;
    lemma_write_value_concat(p9, s10, "nginx_header_x_content_type"@);
    let p11 = p10 + s11;
    lemma_write_value_concat(p10, s11, "nginx_header_x_content_type"@);
    let p12 = p11 + s12;
    lemma_write_value_concat(p11, s12, "nginx_header_x_content_type"@);
    let p13 = p12 + s13;
    lemma_write_value_concat(p12, s13, "nginx_header_x_content_type"@);
    let p14 = p13 + s14;
    lemma_write_value_concat(p13, s14, "nginx_header_x_content_type"@);
    let p15 = p14 + s15;
    lemma_write_value_concat(p14, s15, "nginx_header_x_content_type"@);
    assert(spec_template_writes(req) == p15);
}

proof fn lemma_template_writes_header_xss_protection(req: UpdateNginxTemplateSettingsRequest)
    ensures
        write_value(spec_template_writes(req), "nginx_header_xss_protection"@) == (match req.header_xss_protection { Some(v) => Some(v@), None => None }),
{
    lemma_template_keys_distinct();
    let s1 = text_write("nginx_server_name"@, req.server_name);
    if let Some(v) = req.server_name { lemma_single_write("nginx_server_name"@, v@, "nginx_header_xss_protection"@); } else { lemma_single_write("nginx_server_name"@, Seq::empty(), "nginx_header_xss_protection"@); }
    let s2 = number_write("nginx_backend_port"@, match req.backend_port { Some(p) => Some(p as u32), None => None });
    if let Some(p) = req.backend_port { lemma_single_write("nginx_backend_port"@, decimal_nat(p as nat), "nginx_header_xss_protection"@); } else { lemma_single_write("nginx_backend_port"@, Seq::empty(), "nginx_header_xss_protection"@); }
    let s3 = (match req.gzip_enabled { Some(b) => seq![("nginx_gzip_enabled"@, if b { "true"@ } else { "false"@ })], None => seq![] });
    if let Some(b) = req.gzip_enabled { lemma_single_write("nginx_gzip_enabled"@, if b { "true"@ } else { "false"@ }, "nginx_header_xss_protection"@); } else { lemma_single_write("nginx_gzip_enabled"@, Seq::empty(), "nginx_header_xss_protection"@); }
    let s4 = number_write("nginx_gzip_comp_level"@, req.gzip_comp_level);
    if let Some(n) = req.gzip_comp_level { lemma_single_write("nginx_gzip_comp_level"@, decimal_nat(n as nat), "nginx_header_xss_protection"@); } else { lemma_single_write("nginx_gzip_comp_level"@, Seq::empty(), "nginx_header_xss_protection"@); }
    let s5 = number_write("nginx_gzip_min_length"@, req.gzip_min_length);
    if let Some(n) = req.gzip_min_length { lemma_single_write("nginx_gzip_min_length"@, decimal_nat(n as nat), "nginx_header_xss_protection"@); } else { lemma_single_write("nginx_gzip_min_length"@, Seq::empty(), "nginx_header_xss_protection"@); }
    let s6 = number_write("nginx_proxy_connect_timeout"@, req.proxy_connect_timeout);
    if let Some(n) = req.proxy_connect_timeout { lemma_single_write("nginx_proxy_connect_timeout"@, decimal_nat(n as nat), "nginx_header_xss_protection"@); } else { lemma_single_write("nginx_proxy_connect_timeout"@, Seq::empty(), "nginx_header_xss_protection"@); }
    let s7 = number_write("nginx_proxy_send_timeout"@, req.proxy_send_timeout);
    if let Some(n) = req.proxy_send_timeout { lemma_single_write("nginx_proxy_send_timeout"@, decimal_nat(n as nat), "nginx_header_xss_protection"@); } else { lemma_single_write("nginx_proxy_send_timeout"@, Seq::empty(), "nginx_header_xss_protection"@); }
    let s8 = number_write("nginx_proxy_read_timeout"@, req.proxy_read_timeout);
    if let Some(n) = req.proxy_read_timeout { lemma_single_write("nginx_proxy_read_timeout"@, decimal_nat(n as nat), "nginx_header_xss_protection"@); } else { lemma_single_write("nginx_proxy_read_timeout"@, Seq::empty(), "nginx_header_xss_protection"@); }
    let s9 = text_write("nginx_header_x_frame_options"@, req.header_x_frame_options);
    if let Some(v) = req.header_x_frame_options { lemma_single_write("nginx_header_x_frame_options"@, v@, "nginx_header_xss_protection"@); } else { lemma_single_write("nginx_header_x_frame_options"@, Seq::empty(), "nginx_header_xss_protection"@); }
    let s10 = text_write("nginx_header_x_content_type"@, req.header_x_content_type);
    if let Some(v) = req.header_x_content_type { lemma_single_write("nginx_header_x_content_type"@, v@, "nginx_header_xss_protection"@); } else { lemma_single_write("nginx_header_x_content_type"@, Seq::empty(), "nginx_header_xss_protection"@); }
    let s11 = text_write("nginx_header_xss_protection"@, req.header_xss_protection);
    if let Some(v) = req.header_xss_protection { lemma_single_write("nginx_header_xss_protection"@, v@, "nginx_header_xss_protection"@); } else { lemma_single_write("nginx_header_xss_protection"@, Seq::empty(), "nginx_header_xss_protection"@); }
    let s12 = text_write("nginx_header_hsts"@, req.header_hsts);
    if let Some(v) = req.header_hsts { lemma_single_write("nginx_header_hsts"@, v@, "nginx_header_xss_protection"@); } else { lemma_single_write("nginx_header_hsts"@, Seq::empty(), "nginx_header_xss_protection"@); }
    let s13 = text_write("nginx_header_referrer_policy"@, req.header_referrer_policy);
    if let Some(v) = req.header_referrer_policy { lemma_single_write("nginx_header_referrer_policy"@, v@, "nginx_header_xss_protection"@); } else { lemma_single_write("nginx_header_referrer_policy"@, Seq::empty(), "nginx_header_xss_protection"@); }
    let s14 = text_write("nginx_header_permissions_policy"@, req.header_permissions_policy);
    if let Some(v) = req.header_permissions_policy { lemma_single_write("nginx_header_permissions_policy"@, v@, "nginx_header_xss_protection"@); } else { lemma_single_write("nginx_header_permissions_policy"@, Seq::empty(), "nginx_header_xss_protection"@); }
    let s15 = text_write("nginx_header_csp"@, req.header_csp);
    if let Some(v) = req.header_csp { lemma_single_write("nginx_header_csp"@, v@, "nginx_header_xss_protection"@); } else { lemma_single_write("nginx_header_csp"@, Seq::empty(), "nginx_header_xss_protection"@); }
    let p1 = s1;
    let p2 = p1 + s2;
    lemma_write_value_concat(p1, s2, "nginx_header_xss_protection"@);
    let p3 = p2 + s3;
    lemma_write_value_concat(p2, s3, "nginx_header_xss_protection"@);
    let p4 = p3 + s4;
    lemma_write_value_concat(p3, s4, "nginx_header_xss_protection"@);
    let p5 = p4 + s5;
    lemma_write_value_concat(p4, s5, "nginx_header_xss_protection"@);
    let p6 = p5 + s6;
    lemma_write_value_concat(p5, s6, "nginx_header_xss_protection"@);
    let p7 = p6 + s7;
    lemma_write_value_concat(p6, s7, "nginx_header_xss_protection"@);
    let p8 = p7 + s8;
    lemma_write_value_concat(p7, s8, "nginx_header_xss_protection"@);
    let p9 = p8 + s9;
    lemma_write_value_concat(p8, s9, "nginx_header_xss_protection"@);
    let p10 = p9 + s10;
    lemma_write_value_concat(p9, s10, "nginx_header_xss_protection"@);
    let p11 = p10 + s11;
    lemma_write_value_concat(p10, s11, "nginx_header_xss_protection"@);
    let p12 = p11 + s12;
    lemma_write_value_concat(p11, s12, "nginx_header_xss_protection"@);
    let p13 = p12 + s13;
    lemma_write_value_concat(p12, s13, "nginx_header_xss_protection"@);
    let p14 = p13 + s14;
    lemma_write_value_concat(p13, s14, "nginx_header_xss_protection"@);
    let p15 = p14 + s15;
    lemma_write_value_concat(p14, s15, "nginx_header_xss_protection"@);
    assert(spec_template_writes(req) == p15);
}

proof fn lemma_template_writes_header_hsts(req: UpdateNginxTemplateSettingsRequest)
    ensures
        write_value(spec_template_writes(req), "nginx_header_hsts"@) == (match req.header_hsts { Some(v) => Some(v@), None => None }),
{
    lemma_template_keys_distinct();
    let s1 = text_write("nginx_server_name"@, req.server_name);
    if let Some(v) = req.server_name { lemma_single_write("nginx_server_name"@, v@, "nginx_header_hsts"@); } else { lemma_single_write("nginx_server_name"@, Seq::empty(), "nginx_header_hsts"@); }
    let s2 = number_write("nginx_backend_port"@, match req.backend_port { Some(p) => Some(p as u32), None => None });
    if let Some(p) = req.backend_port { lemma_single_write("nginx_backend_port"@, decimal_nat(p as nat), "nginx_header_hsts"@); } else { lemma_single_write("nginx_backend_port"@, Seq::empty(), "nginx_header_hsts"@); }
    let s3 = (match req.gzip_enabled { Some(b) => seq![("nginx_gzip_enabled"@, if b { "true"@ } else { "false"@ })], None => seq![] });
    if let Some(b) = req.gzip_enabled { lemma_single_write("nginx_gzip_enabled"@, if b { "true"@ } else { "false"@ }, "nginx_header_hsts"@); } else { lemma_single_write("nginx_gzip_enabled"@, Seq::empty(), "nginx_header_hsts"@); }
    let s4 = number_write("nginx_gzip_comp_level"@, req.gzip_comp_level);
    if let Some(n) = req.gzip_comp_level { lemma_single_write("nginx_gzip_comp_level"@, decimal_nat(n as nat), "nginx_header_hsts"@); } else { lemma_single_write("nginx_gzip_comp_level"@, Seq::empty(), "nginx_header_hsts"@); }
    let s5 = number_write("nginx_gzip_min_length"@, req.gzip_min_length);
    if let Some(n) = req.gzip_min_length { lemma_single_write("nginx_gzip_min_length"@, decimal_nat(n as nat), "nginx_header_hsts"@); } else { lemma_single_write("nginx_gzip_min_length"@, Seq::empty(), "nginx_header_hsts"@); }
    let s6 = number_write("nginx_proxy_connect_timeout"@, req.proxy_connect_timeout);
    if let Some(n) = req.proxy_connect_timeout { lemma_single_write("nginx_proxy_connect_timeout"@, decimal_nat(n as nat), "nginx_header_hsts"@); } else { lemma_single_write("nginx_proxy_connect_timeout"@, Seq::empty(), "nginx_header_hsts"@); }
    let s7 = number_write("nginx_proxy_send_timeout"@, req.proxy_send_timeout);
    if let Some(n) = req.proxy_send_timeout { lemma_single_write("nginx_proxy_send_timeout"@, decimal_nat(n as nat), "nginx_header_hsts"@); } else { lemma_single_write("nginx_proxy_send_timeout"@, Seq::empty(), "nginx_header_hsts"@); }
    let s8 = number_write("nginx_proxy_read_timeout"@, req.proxy_read_timeout);
    if let Some(n) = req.proxy_read_timeout { lemma_single_write("nginx_proxy_read_timeout"@, decimal_nat(n as nat), "nginx_header_hsts"@); } else { lemma_single_write("nginx_proxy_read_timeout"@, Seq::empty(), "nginx_header_hsts"@); }
    let s9 = text_write("nginx_header_x_frame_options"@, req.header_x_frame_options);
    if let Some(v) = req.header_x_frame_options { lemma_single_write("nginx_header_x_frame_options"@, v@, "nginx_header_hsts"@); } else { lemma_single_write("nginx_header_x_frame_options"@, Seq::empty(), "nginx_header_hsts"@); }
    let s10 = text_write("nginx_header_x_content_type"@, req.header_x_content_type);
    if let Some(v) = req.header_x_content_type { lemma_single_write("nginx_header_x_content_type"@, v@, "nginx_header_hsts"@); } else { lemma_single_write("nginx_header_x_content_type"@, Seq::empty(), "nginx_header_hsts"@); }
    let s11 = text_write("nginx_header_xss_protection"@, req.header_xss_protection);
    if let Some(v) = req.header_xss_protection { lemma_single_write("nginx_header_xss_protection"@, v@, "nginx_header_hsts"@); } else { lemma_single_write("nginx_header_xss_protection"@, Seq::empty(), "nginx_header_hsts"@); }
    let s12 = text_write("nginx_header_hsts"@, req.header_hsts);
    if let Some(v) = req.header_hsts { lemma_single_write("nginx_header_hsts"@, v@, "nginx_header_hsts"@); } else { lemma_single_write("nginx_header_hsts"@, Seq::empty(), "nginx_header_hsts"@); }
    let s13 = text_write("nginx_header_referrer_policy"@, req.header_referrer_policy);
    if let Some(v) = req.header_referrer_policy { lemma_single_write("nginx_header_referrer_policy"@, v@, "nginx_header_hsts"@); } else { lemma_single_write("nginx_header_referrer_policy"@, Seq::empty(), "nginx_header_hsts"@); }
    let s14 = text_write("nginx_header_permissions_policy"@, req.header_permissions_policy);
    if let Some(v) = req.header_permissions_policy { lemma_single_write("nginx_header_permissions_policy"@, v@, "nginx_header_hsts"@); } else { lemma_single_write("nginx_header_permissions_policy"@, Seq::empty(), "nginx_header_hsts"@); }
    let s15 = text_write("nginx_header_csp"@, req.header_csp);
    if let Some(v) = req.header_csp { lemma_single_write("nginx_header_csp"@, v@, "nginx_header_hsts"@); } else { lemma_single_write("nginx_header_csp"@, Seq::empty(), "nginx_header_hsts"@); }
    let p1 = s1;
    let p2 = p1 + s2;
    lemma_write_value_concat(p1, s2, "nginx_header_hsts"@);
    let p3 = p2 + s3;
    lemma_write_value_concat(p2, s3, "nginx_header_hsts"@);
    let p4 = p3 + s4;
    lemma_write_value_concat(p3, s4, "nginx_header_hsts"@);
    let p5 = p4 + s5;
    lemma_write_value_concat(p4, s5, "nginx_header_hsts"@);
    let p6 = p5 + s6;
    lemma_write_value_concat(p5, s6, "nginx_header_hsts"@);
    let p7 = p6 + s7;
    lemma_write_value_concat(p6, s7, "nginx_header_hsts"@);
    let p8 = p7 + s8;
    lemma_write_value_concat(p7, s8, "nginx_header_hsts"@);
    let p9 = p8 + s9;
    lemma_write_value_concat(p8, s9, "nginx_header_hsts"@);
    let p10 = p9 + s10;
    lemma_write_value_concat(p9, s10, "nginx_header_hsts"@);
    let p11 = p10 + s11;
    lemma_write_value_concat(p10, s11, "nginx_header_hsts"@);
    let p12 = p11 + s12;
    lemma_write_value_concat(p11, s12, "nginx_header_hsts"@);
    let p13 = p12 + s13;
    lemma_write_value_concat(p12, s13, "nginx_header_hsts"@);
    let p14 = p13 + s14;
    lemma_write_value_concat(p13, s14, "nginx_header_hsts"@);
    let p15 = p14 + s15;
    lemma_write_value_concat(p14, s15, "nginx_header_hsts"@);
    assert(spec_template_writes(req) == p15);
}

proof fn lemma_template_writes_header_referrer_policy(req: UpdateNginxTemplateSettingsRequest)
    ensures
        write_value(spec_template_writes(req), "nginx_header_referrer_policy"@) == (match req.header_referrer_policy { Some(v) => Some(v@), None => None }),
{
    lemma_template_keys_distinct();
    let s1 = text_write("nginx_server_name"@, req.server_name);
    if let Some(v) = req.server_name { lemma_single_write("nginx_server_name"@, v@, "nginx_header_referrer_policy"@); } else { lemma_single_write("nginx_server_name"@, Seq::empty(), "nginx_header_referrer_policy"@); }
    let s2 = number_write("nginx_backend_port"@, match req.backend_port { Some(p) => Some(p as u32), None => None });
    if let Some(p) = req.backend_port { lemma_single_write("nginx_backend_port"@, decimal_nat(p as nat), "nginx_header_referrer_policy"@); } else { lemma_single_write("nginx_backend_port"@, Seq::empty(), "nginx_header_referrer_policy"@); }
    let s3 = (match req.gzip_enabled { Some(b) => seq![("nginx_gzip_enabled"@, if b { "true"@ } else { "false"@ })], None => seq![] });
    if let Some(b) = req.gzip_enabled { lemma_single_write("nginx_gzip_enabled"@, if b { "true"@ } else { "false"@ }, "nginx_header_referrer_policy"@); } else { lemma_single_write("nginx_gzip_enabled"@, Seq::empty(), "nginx_header_referrer_policy"@); }
    let s4 = number_write("nginx_gzip_comp_level"@, req.gzip_comp_level);
    if let Some(n) = req.gzip_comp_level { lemma_single_write("nginx_gzip_comp_level"@, decimal_nat(n as nat), "nginx_header_referrer_policy"@); } else { lemma_single_write("nginx_gzip_comp_level"@, Seq::empty(), "nginx_header_referrer_policy"@); }
    let s5 = number_write("nginx_gzip_min_length"@, req.gzip_min_length);
    if let Some(n) = req.gzip_min_length { lemma_single_write("nginx_gzip_min_length"@, decimal_nat(n as nat), "nginx_header_referrer_policy"@); } else { lemma_single_write("nginx_gzip_min_length"@, Seq::empty(), "nginx_header_referrer_policy"@); }
    let s6 = number_write("nginx_proxy_connect_timeout"@, req.proxy_connect_timeout);
    if let Some(n) = req.proxy_connect_timeout { lemma_single_write("nginx_proxy_connect_timeout"@, decimal_nat(n as nat), "nginx_header_referrer_policy"@); } else { lemma_single_write("nginx_proxy_connect_timeout"@, Seq::empty(), "nginx_header_referrer_policy"@); }
    let s7 = number_write("nginx_proxy_send_timeout"@, req.proxy_send_timeout);
    if let Some(n) = req.proxy_send_timeout { lemma_single_write("nginx_proxy_send_timeout"@, decimal_nat(n as nat), "nginx_header_referrer_policy"@); } else { lemma_single_write("nginx_proxy_send_timeout"@, Seq::empty(), "nginx_header_referrer_policy"@); }
    let s8 = number_write("nginx_proxy_read_timeout"@, req.proxy_read_timeout);
    if let Some(n) = req.proxy_read_timeout { lemma_single_write("nginx_proxy_read_timeout"@, decimal_nat(n as nat), "nginx_header_referrer_policy"@); } else { lemma_single_write("nginx_proxy_read_timeout"@, Seq::empty(), "nginx_header_referrer_policy"@); }
    let s9 = text_write("nginx_header_x_frame_options"@, req.header_x_frame_options);
    if let Some(v) = req.header_x_frame_options { lemma_single_write("nginx_header_x_frame_options"@, v@, "nginx_header_referrer_policy"@); } else { lemma_single_write("nginx_header_x_frame_options"@, Seq::empty(), "nginx_header_referrer_policy"@); }
    let s10 = text_write("nginx_header_x_content_type"@, req.header_x_content_type);
    if let Some(v) = req.header_x_content_type { lemma_single_write("nginx_header_x_content_type"@, v@, "nginx_header_referrer_policy"@); } else { lemma_single_write("nginx_header_x_content_type"@, Seq::empty(), "nginx_header_referrer_policy"@); }
    let s11 = text_write("nginx_header_xss_protection"@, req.header_xss_protection);
    if let Some(v) = req.header_xss_protection { lemma_single_write("nginx_header_xss_protection"@, v@, "nginx_header_referrer_policy"@); } else { lemma_single_write("nginx_header_xss_protection"@, Seq::empty(), "nginx_header_referrer_policy"@); }
    let s12 = text_write("nginx_header_hsts"@, req.header_hsts);
    if let Some(v) = req.header_hsts { lemma_single_write("nginx_header_hsts"@, v@, "nginx_header_referrer_policy"@); } else { lemma_single_write("nginx_header_hsts"@, Seq::empty(), "nginx_header_referrer_policy"@); }
    let s13 = text_write("nginx_header_referrer_policy"@, req.header_referrer_policy);
    if let Some(v) = req.header_referrer_policy { lemma_single_write("nginx_header_referrer_policy"@, v@, "nginx_header_referrer_policy"@); } else { lemma_single_write("nginx_header_referrer_policy"@, Seq::empty(), "nginx_header_referrer_policy"@); }
    let s14 = text_write("nginx_header_permissions_policy"@, req.header_permissions_policy);
    if let Some(v) = req.header_permissions_policy { lemma_single_write("nginx_header_permissions_policy"@, v@, "nginx_header_referrer_policy"@); } else { lemma_single_write("nginx_header_permissions_policy"@, Seq::empty(), "nginx_header_referrer_policy"@); }
    let s15 = text_write("nginx_header_csp"@, req.header_csp);
    if let Some(v) = req.header_csp { lemma_single_write("nginx_header_csp"@, v@, "nginx_header_referrer_policy"@); } else { lemma_single_write("nginx_header_csp"@, Seq::empty(), "nginx_header_referrer_policy"@); }
    let p1 = s1;
    let p2 = p1 + s2;
    lemma_write_value_concat(p1, s2, "nginx_header_referrer_policy"@);
    let p3 = p2 + s3;
    lemma_write_value_concat(p2, s3, "nginx_header_referrer_policy"@);
    let p4 = p3 + s4;
    lemma_write_value_concat(p3, s4, "nginx_header_referrer_policy"@);
    let p5 = p4 + s5;
    lemma_write_value_concat(p4, s5, "nginx_header_referrer_policy"@);
    let p6 = p5 + s6;
    lemma_write_value_concat(p5, s6, "nginx_header_referrer_policy"@);
    let p7 = p6 + s7;
    lemma_write_value_concat(p6, s7, "nginx_header_referrer_policy"@);
    let p8 = p7 + s8;
    lemma_write_value_concat(p7, s8, "nginx_header_referrer_policy"@);
    let p9 = p8 + s9;
    lemma_write_value_concat(p8, s9, "nginx_header_referrer_policy"@);
    let p10 = p9 + s10;
    lemma_write_value_concat(p9, s10, "nginx_header_referrer_policy"@);
    let p11 = p10 + s11;
    lemma_write_value_concat(p10, s11, "nginx_header_referrer_policy"@);
    let p12 = p11 + s12;
    lemma_write_value_concat(p11, s12, "nginx_header_referrer_policy"@);
    let p13 = p12 + s13;
    lemma_write_value_concat(p12, s13, "nginx_header_referrer_policy"@);
    let p14 = p13 + s14;
    lemma_write_value_concat(p13, s14, "nginx_header_referrer_policy"@);
    let p15 = p14 + s15;
    lemma_write_value_concat(p14, s15, "nginx_header_referrer_policy"@);
    assert(spec_template_writes(req) == p15);
}

proof fn lemma_template_writes_header_permissions_policy(req: UpdateNginxTemplateSettingsRequest)
    ensures
        write_value(spec_template_writes(req), "nginx_header_permissions_policy"@) == (match req.header_permissions_policy { Some(v) => Some(v@), None => None }),
{
    lemma_template_keys_distinct();
    let s1 = text_write("nginx_server_name"@, req.server_name);
    if let Some(v) = req.server_name { lemma_single_write("nginx_server_name"@, v@, "nginx_header_permissions_policy"@); } else { lemma_single_write("nginx_server_name"@, Seq::empty(), "nginx_header_permissions_policy"@); }
    let s2 = number_write("nginx_backend_port"@, match req.backend_port { Some(p) => Some(p as u32), None => None });
    if let Some(p) = req.backend_port { lemma_single_write("nginx_backend_port"@, decimal_nat(p as nat), "nginx_header_permissions_policy"@); } else { lemma_single_write("nginx_backend_port"@, Seq::empty(), "nginx_header_permissions_policy"@); }
    let s3 = (match req.gzip_enabled { Some(b) => seq![("nginx_gzip_enabled"@, if b { "true"@ } else { "false"@ })], None => seq![] });
    if let Some(b) = req.gzip_enabled { lemma_single_write("nginx_gzip_enabled"@, if b { "true"@ } else { "false"@ }, "nginx_header_permissions_policy"@); } else { lemma_single_write("nginx_gzip_enabled"@, Seq::empty(), "nginx_header_permissions_policy"@); }
    let s4 = number_write("nginx_gzip_comp_level"@, req.gzip_comp_level);
    if let Some(n) = req.gzip_comp_level { lemma_single_write("nginx_gzip_comp_level"@, decimal_nat(n as nat), "nginx_header_permissions_policy"@); } else { lemma_single_write("nginx_gzip_comp_level"@, Seq::empty(), "nginx_header_permissions_policy"@); }
    let s5 = number_write("nginx_gzip_min_length"@, req.gzip_min_length);
    if let Some(n) = req.gzip_min_length { lemma_single_write("nginx_gzip_min_length"@, decimal_nat(n as nat), "nginx_header_permissions_policy"@); } else { lemma_single_write("nginx_gzip_min_length"@, Seq::empty(), "nginx_header_permissions_policy"@); }
    let s6 = number_write("nginx_proxy_connect_timeout"@, req.proxy_connect_timeout);
    if let Some(n) = req.proxy_connect_timeout { lemma_single_write("nginx_proxy_connect_timeout"@, decimal_nat(n as nat), "nginx_header_permissions_policy"@); } else { lemma_single_write("nginx_proxy_connect_timeout"@, Seq::empty(), "nginx_header_permissions_policy"@); }
    let s7 = number_write("nginx_proxy_send_timeout"@, req.proxy_send_timeout);
    if let Some(n) = req.proxy_send_timeout { lemma_single_write("nginx_proxy_send_timeout"@, decimal_nat(n as nat), "nginx_header_permissions_policy"@); } else { lemma_single_write("nginx_proxy_send_timeout"@, Seq::empty(), "nginx_header_permissions_policy"@); }
    let s8 = number_write("nginx_proxy_read_timeout"@, req.proxy_read_timeout);
    if let Some(n) = req.proxy_read_timeout { lemma_single_write("nginx_proxy_read_timeout"@, decimal_nat(n as nat), "nginx_header_permissions_policy"@); } else { lemma_single_write("nginx_proxy_read_timeout"@, Seq::empty(), "nginx_header_permissions_policy"@); }
    let s9 = text_write("nginx_header_x_frame_options"@, req.header_x_frame_options);
    if let Some(v) = req.header_x_frame_options { lemma_single_write("nginx_header_x_frame_options"@, v@, "nginx_header_permissions_policy"@); } else { lemma_single_write("nginx_header_x_frame_options"@, Seq::empty(), "nginx_header_permissions_policy"@); }
    let s10 = text_write("nginx_header_x_content_type"@, req.header_x_content_type);
    if let Some(v) = req.header_x_content_type { lemma_single_write("nginx_header_x_content_type"@, v@, "nginx_header_permissions_policy"@); } else { lemma_single_write("nginx_header_x_content_type"@, Seq::empty(), "nginx_header_permissions_policy"@); }
    let s11 = text_write("nginx_header_xss_protection"@, req.header_xss_protection);
    if let Some(v) = req.header_xss_protection { lemma_single_write("nginx_header_xss_protection"@, v@, "nginx_header_permissions_policy"@); } else { lemma_single_write("nginx_header_xss_protection"@, Seq::empty(), "nginx_header_permissions_policy"@); }
    let s12 = text_write("nginx_header_hsts"@, req.header_hsts);
    if let Some(v) = req.header_hsts { lemma_single_write("nginx_header_hsts"@, v@, "nginx_header_permissions_policy"@); } else { lemma_single_write("nginx_header_hsts"@, Seq::empty(), "nginx_header_permissions_policy"@); }
    let s13 = text_write("nginx_header_referrer_policy"@, req.header_referrer_policy);
    if let Some(v) = req.header_referrer_policy { lemma_single_write("nginx_header_referrer_policy"@, v@, "nginx_header_permissions_policy"@); } else { lemma_single_write("nginx_header_referrer_policy"@, Seq::empty(), "nginx_header_permissions_policy"@); }
    let s14 = text_write("nginx_header_permissions_policy"@, req.header_permissions_policy);
    if let Some(v) = req.header_permissions_policy { lemma_single_write("nginx_header_permissions_policy"@, v@, "nginx_header_permissions_policy"@); } else { lemma_single_write("nginx_header_permissions_policy"@, Seq::empty(), "nginx_header_permissions_policy"@); }
    let s15 = text_write("nginx_header_csp"@, req.header_csp);
    if let Some(v) = req.header_csp { lemma_single_write("nginx_header_csp"@, v@, "nginx_header_permissions_policy"@); } else { lemma_single_write("nginx_header_csp"@, Seq::empty(), "nginx_header_permissions_policy"@); }
    let p1 = s1;
    let p2 = p1 + s2;
    lemma_write_value_concat(p1, s2, "nginx_header_permissions_policy"@);
    let p3 = p2 + s3;
    lemma_write_value_concat(p2, s3, "nginx_header_permissions_policy"@);
    let p4 = p3 + s4;
    lemma_write_value_concat(p3, s4, "nginx_header_permissions_policy"@);
    let p5 = p4 + s5;
    lemma_write_value_concat(p4, s5, "nginx_header_permissions_policy"@);
    let p6 = p5 + s6;
    lemma_write_value_concat(p5, s6, "nginx_header_permissions_policy"@);
    let p7 = p6 + s7;
    lemma_write_value_concat(p6, s7, "nginx_header_permissions_policy"@);
    let p8 = p7 + s8;
    lemma_write_value_concat(p7, s8, "nginx_header_permissions_policy"@);
    let p9 = p8 + s9;
    lemma_write_value_concat(p8, s9, "nginx_header_permissions_policy"@);
    let p10 = p9 + s10;
    lemma_write_value_concat(p9, s10, "nginx_header_permissions_policy"@);
    let p11 = p10 + s11;
    lemma_write_value_concat(p10, s11, "nginx_header_permissions_policy"@);
    let p12 = p11 + s12;
    lemma_write_value_concat(p11, s12, "nginx_header_permissions_policy"@);
    let p13 = p12 + s13;
    lemma_write_value_concat(p12, s13, "nginx_header_permissions_policy"@);
    let p14 = p13 + s14;
    lemma_write_value_concat(p13, s14, "nginx_header_permissions_policy"@);
    let p15 = p14 + s15;
    lemma_write_value_concat(p14, s15, "nginx_header_permissions_policy"@);
    assert(spec_template_writes(req) == p15);
}

proof fn lemma_template_writes_header_csp(req: UpdateNginxTemplateSettingsRequest)
    ensures
        write_value(spec_template_writes(req), "nginx_header_csp"@) == (match req.header_csp { Some(v) => Some(v@), None => None }),
{
    lemma_template_keys_distinct();
    let s1 = text_write("nginx_server_name"@, req.server_name);
    if let Some(v) = req.server_name { lemma_single_write("nginx_server_name"@, v@, "nginx_header_csp"@); } else { lemma_single_write("nginx_server_name"@, Seq::empty(), "nginx_header_csp"@); }
    let s2 = number_write("nginx_backend_port"@, match req.backend_port { Some(p) => Some(p as u32), None => None });
    if let Some(p) = req.backend_port { lemma_single_write("nginx_backend_port"@, decimal_nat(p as nat), "nginx_header_csp"@); } else { lemma_single_write("nginx_backend_port"@, Seq::empty(), "nginx_header_csp"@); }
    let s3 = (match req.gzip_enabled { Some(b) => seq![("nginx_gzip_enabled"@, if b { "true"@ } else { "false"@ })], None => seq![] });
    if let Some(b) = req.gzip_enabled { lemma_single_write("nginx_gzip_enabled"@, if b { "true"@ } else { "false"@ }, "nginx_header_csp"@); } else { lemma_single_write("nginx_gzip_enabled"@, Seq::empty(), "nginx_header_csp"@); }
    let s4 = number_write("nginx_gzip_comp_level"@, req.gzip_comp_level);
    if let Some(n) = req.gzip_comp_level { lemma_single_write("nginx_gzip_comp_level"@, decimal_nat(n as nat), "nginx_header_csp"@); } else { lemma_single_write("nginx_gzip_comp_level"@, Seq::empty(), "nginx_header_csp"@); }
    let s5 = number_write("nginx_gzip_min_length"@, req.gzip_min_length);
    if let Some(n) = req.gzip_min_length { lemma_single_write("nginx_gzip_min_length"@, decimal_nat(n as nat), "nginx_header_csp"@); } else { lemma_single_write("nginx_gzip_min_length"@, Seq::empty(), "nginx_header_csp"@); }
    let s6 = number_write("nginx_proxy_connect_timeout"@, req.proxy_connect_timeout);
    if let Some(n) = req.proxy_connect_timeout { lemma_single_write("nginx_proxy_connect_timeout"@, decimal_nat(n as nat), "nginx_header_csp"@); } else { lemma_single_write("nginx_proxy_connect_timeout"@, Seq::empty(), "nginx_header_csp"@); }
    let s7 = number_write("nginx_proxy_send_timeout"@, req.proxy_send_timeout);
    if let Some(n) = req.proxy_send_timeout { lemma_single_write("nginx_proxy_send_timeout"@, decimal_nat(n as nat), "nginx_header_csp"@); } else { lemma_single_write("nginx_proxy_send_timeout"@, Seq::empty(), "nginx_header_csp"@); }
    let s8 = number_write("nginx_proxy_read_timeout"@, req.proxy_read_timeout);
    if let Some(n) = req.proxy_read_timeout { lemma_single_write("nginx_proxy_read_timeout"@, decimal_nat(n as nat), "nginx_header_csp"@); } else { lemma_single_write("nginx_proxy_read_timeout"@, Seq::empty(), "nginx_header_csp"@); }
    let s9 = text_write("nginx_header_x_frame_options"@, req.header_x_frame_options);
    if let Some(v) = req.header_x_frame_options { lemma_single_write("nginx_header_x_frame_options"@, v@, "nginx_header_csp"@); } else { lemma_single_write("nginx_header_x_frame_options"@, Seq::empty(), "nginx_header_csp"@); }
    let s10 = text_write("nginx_header_x_content_type"@, req.header_x_content_type);
    if let Some(v) = req.header_x_content_type { lemma_single_write("nginx_header_x_content_type"@, v@, "nginx_header_csp"@); } else { lemma_single_write("nginx_header_x_content_type"@, Seq::empty(), "nginx_header_csp"@); }
    let s11 = text_write("nginx_header_xss_protection"@, req.header_xss_protection);
    if let Some(v) = req.header_xss_protection { lemma_single_write("nginx_header_xss_protection"@, v@, "nginx_header_csp"@); } else { lemma_single_write("nginx_header_xss_protection"@, Seq::empty(), "nginx_header_csp"@); }
    let s12 = text_write("nginx_header_hsts"@, req.header_hsts);
    if let Some(v) = req.header_hsts { lemma_single_write("nginx_header_hsts"@, v@, "nginx_header_csp"@); } else { lemma_single_write("nginx_header_hsts"@, Seq::empty(), "nginx_header_csp"@); }
    let s13 = text_write("nginx_header_referrer_policy"@, req.header_referrer_policy);
    if let Some(v) = req.header_referrer_policy { lemma_single_write("nginx_header_referrer_policy"@, v@, "nginx_header_csp"@); } else { lemma_single_write("nginx_header_referrer_policy"@, Seq::empty(), "nginx_header_csp"@); }
    let s14 = text_write("nginx_header_permissions_policy"@, req.header_permissions_policy);
    if let Some(v) = req.header_permissions_policy { lemma_single_write("nginx_header_permissions_policy"@, v@, "nginx_header_csp"@); } else { lemma_single_write("nginx_header_permissions_policy"@, Seq::empty(), "nginx_header_csp"@); }
    let s15 = text_write("nginx_header_csp"@, req.header_csp);
    if let Some(v) = req.header_csp { lemma_single_write("nginx_header_csp"@, v@, "nginx_header_csp"@); } else { lemma_single_write("nginx_header_csp"@, Seq::empty(), "nginx_header_csp"@); }
    let p1 = s1;
    let p2 = p1 + s2;
    lemma_write_value_concat(p1, s2, "nginx_header_csp"@);
    let p3 = p2 + s3;
    lemma_write_value_concat(p2, s3, "nginx_header_csp"@);
    let p4 = p3 + s4;
    lemma_write_value_concat(p3, s4, "nginx_header_csp"@);
    let p5 = p4 + s5;
    lemma_write_value_concat(p4, s5, "nginx_header_csp"@);
    let p6 = p5 + s6;
    lemma_write_value_concat(p5, s6, "nginx_header_csp"@);
    let p7 = p6 + s7;
    lemma_write_value_concat(p6, s7, "nginx_header_csp"@);
    let p8 = p7 + s8;
    lemma_write_value_concat(p7, s8, "nginx_header_csp"@);
    let p9 = p8 + s9;
    lemma_write_value_concat(p8, s9, "nginx_header_csp"@);
    let p10 = p9 + s10;
    lemma_write_value_concat(p9, s10, "nginx_header_csp"@);
    let p11 = p10 + s11;
    lemma_write_value_concat(p10, s11, "nginx_header_csp"@);
    let p12 = p11 + s12;
    lemma_write_value_concat(p11, s12, "nginx_header_csp"@);
    let p13 = p12 + s13;
    lemma_write_value_concat(p12, s13, "nginx_header_csp"@);
    let p14 = p13 + s14;
    lemma_write_value_concat(p13, s14, "nginx_header_csp"@);
    let p15 = p14 + s15;
    lemma_write_value_concat(p14, s15, "nginx_header_csp"@);
    assert(spec_template_writes(req) == p15);
}


/// The settings after a stored change, as `save_template_settings` leaves
/// them.
pub open spec fn template_saved(before: Seq<(String, Option<String>)>, after: Seq<(String, Option<String>)>, req: UpdateNginxTemplateSettingsRequest) -> bool {
    forall|k: Seq<char>| #[trigger] stored_value(after, k) == if first_index(before, row_with_key(k)) is Some
        && write_value(spec_template_writes(req), k) is Some {
        write_value(spec_template_writes(req), k)
    } else {
        stored_value(before, k)
    }
}

/// What is saved is what is read back: once a valid change is stored where
/// every template setting has a row, the template settings read from the
/// store carry each value the change gave. A minimum gzip length above
/// `i32::MAX` is the exception: it is stored, but read back as the default.
#[verifier::rlimit(40)]
pub proof fn lemma_template_read_back(
    before: Seq<(String, Option<String>)>,
    after: Seq<(String, Option<String>)>,
    req: UpdateNginxTemplateSettingsRequest,
    s: NginxTemplateSettings,
)
    requires
        spec_template_update_error(req) is None,
        req.gzip_min_length matches Some(l) ==> l <= 2147483647,
        has_template_rows(before),
        template_saved(before, after, req),
        spec_template_settings(after, s),
    ensures
        req.server_name matches Some(v) ==> s.server_name@ == v@,
        req.backend_port matches Some(v) ==> s.backend_port == v,
        req.gzip_enabled matches Some(v) ==> s.gzip_enabled == v,
        req.gzip_comp_level matches Some(v) ==> s.gzip_comp_level == v,
        req.gzip_min_length matches Some(v) ==> s.gzip_min_length == v,
        req.proxy_connect_timeout matches Some(v) ==> s.proxy_connect_timeout == v,
        req.proxy_send_timeout matches Some(v) ==> s.proxy_send_timeout == v,
        req.proxy_read_timeout matches Some(v) ==> s.proxy_read_timeout == v,
        req.header_x_frame_options matches Some(v) ==> s.header_x_frame_options@ == v@,
        req.header_x_content_type matches Some(v) ==> s.header_x_content_type@ == v@,
        req.header_xss_protection matches Some(v) ==> s.header_xss_protection@ == v@,
        req.header_hsts matches Some(v) ==> s.header_hsts@ == v@,
        req.header_referrer_policy matches Some(v) ==> s.header_referrer_policy@ == v@,
        req.header_permissions_policy matches Some(v) ==> s.header_permissions_policy@ == v@,
        req.header_csp matches Some(v) ==> s.header_csp@ == v@,
{
    lemma_template_writes_server_name(req);
    assert(stored_value(after, "nginx_server_name"@) == stored_value(after, "nginx_server_name"@));
    lemma_template_writes_backend_port(req);
    assert(stored_value(after, "nginx_backend_port"@) == stored_value(after, "nginx_backend_port"@));
    lemma_template_writes_gzip_enabled(req);
    assert(stored_value(after, "nginx_gzip_enabled"@) == stored_value(after, "nginx_gzip_enabled"@));
    lemma_template_writes_gzip_comp_level(req);
    assert(stored_value(after, "nginx_gzip_comp_level"@) == stored_value(after, "nginx_gzip_comp_level"@));
    lemma_template_writes_gzip_min_length(req);
    assert(stored_value(after, "nginx_gzip_min_length"@) == stored_value(after, "nginx_gzip_min_length"@));
    lemma_template_writes_proxy_connect_timeout(req);
    assert(stored_value(after, "nginx_proxy_connect_timeout"@) == stored_value(after, "nginx_proxy_connect_timeout"@));
    lemma_template_writes_proxy_send_timeout(req);
    assert(stored_value(after, "nginx_proxy_send_timeout"@) == stored_value(after, "nginx_proxy_send_timeout"@));
    lemma_template_writes_proxy_read_timeout(req);
    assert(stored_value(after, "nginx_proxy_read_timeout"@) == stored_value(after, "nginx_proxy_read_timeout"@));
    lemma_template_writes_header_x_frame_options(req);
    assert(stored_value(after, "nginx_header_x_frame_options"@) == stored_value(after, "nginx_header_x_frame_options"@));
    lemma_template_writes_header_x_content_type(req);
    assert(stored_value(after, "nginx_header_x_content_type"@) == stored_value(after, "nginx_header_x_content_type"@));
    lemma_template_writes_header_xss_protection(req);
    assert(stored_value(after, "nginx_header_xss_protection"@) == stored_value(after, "nginx_header_xss_protection"@));
    lemma_template_writes_header_hsts(req);
    assert(stored_value(after, "nginx_header_hsts"@) == stored_value(after, "nginx_header_hsts"@));
    lemma_template_writes_header_referrer_policy(req);
    assert(stored_value(after, "nginx_header_referrer_policy"@) == stored_value(after, "nginx_header_referrer_policy"@));
    lemma_template_writes_header_permissions_policy(req);
    assert(stored_value(after, "nginx_header_permissions_policy"@) == stored_value(after, "nginx_header_permissions_policy"@));
    lemma_template_writes_header_csp(req);
    assert(stored_value(after, "nginx_header_csp"@) == stored_value(after, "nginx_header_csp"@));
    reveal_strlit("true");
    reveal_strlit("false");
    reveal_strlit("1");
    if let Some(b) = req.gzip_enabled {
        assert("false"@.len() == 5 && "true"@.len() == 4 && "1"@.len() == 1);
        assert(spec_setting_bool(Some(if b { "true"@ } else { "false"@ })) == b);
    }
    if let Some(p) = req.backend_port {
        crate::text::lemma_decimal_parse(p as nat, false);
    }
    if let Some(n) = req.gzip_comp_level {
        crate::text::lemma_decimal_parse(n as nat, true);
    }
    if let Some(n) = req.gzip_min_length {
        crate::text::lemma_decimal_parse(n as nat, true);
    }
    if let Some(n) = req.proxy_connect_timeout {
        crate::text::lemma_decimal_parse(n as nat, true);
    }
    if let Some(n) = req.proxy_send_timeout {
        crate::text::lemma_decimal_parse(n as nat, true);
    }
    if let Some(n) = req.proxy_read_timeout {
        crate::text::lemma_decimal_parse(n as nat, true);
    }
}

pub open spec fn or_default(v: Option<Seq<char>>, d: Seq<char>) -> Seq<char> {
    match v {
        Some(s) => s,
        None => d,
    }
}

/// The template settings read from the stored settings: a missing server
/// name is `_`; a missing or unreadable backend port is 8081; gzip is on
/// unless a stored value says otherwise (on is `true` or `1`); the gzip level (6), minimum length (1024) and
/// proxy timeouts (60 s) are read as 32-bit integers with those defaults
/// (taken as unsigned); each security header has its default value.
pub open spec fn spec_template_settings(rows: Seq<(String, Option<String>)>, s: NginxTemplateSettings) -> bool {
    &&& s.server_name@ == or_default(stored_value(rows, "nginx_server_name"@), "_"@)
    &&& s.header_x_frame_options@ == or_default(stored_value(rows, "nginx_header_x_frame_options"@), "SAMEORIGIN"@)
    &&& s.header_x_content_type@ == or_default(stored_value(rows, "nginx_header_x_content_type"@), "nosniff"@)
    &&& s.header_xss_protection@ == or_default(stored_value(rows, "nginx_header_xss_protection"@), "1; mode=block"@)
    &&& s.header_hsts@ == or_default(stored_value(rows, "nginx_header_hsts"@), "max-age=31536000; includeSubDomains"@)
    &&& s.header_referrer_policy@ == or_default(stored_value(rows, "nginx_header_referrer_policy"@), "strict-origin-when-cross-origin"@)
    &&& s.header_permissions_policy@ == or_default(stored_value(rows, "nginx_header_permissions_policy"@), "camera=(), microphone=(), geolocation=()"@)
    &&& s.header_csp@ == or_default(stored_value(rows, "nginx_header_csp"@), "default-src 'self'; script-src 'self' 'unsafe-inline' 'unsafe-eval'; style-src 'self' 'unsafe-inline'; img-src 'self' data: https:; font-src 'self' data:; frame-src 'self' https://maps.google.com https://www.google.com;"@)
    &&& s.backend_port == match stored_value(rows, "nginx_backend_port"@) {
        Some(v) => match parsed_in_range(v, false, 0, 65535) {
            Some(n) => n as u16,
            None => 8081u16,
        },
        None => 8081u16,
    }
    &&& s.gzip_enabled == match stored_value(rows, "nginx_gzip_enabled"@) {
        Some(v) => v == "true"@ || v == "1"@,
        None => true,
    }
    &&& s.gzip_comp_level == spec_setting_i32(stored_value(rows, "nginx_gzip_comp_level"@), 6) as u32
    &&& s.gzip_min_length == spec_setting_i32(stored_value(rows, "nginx_gzip_min_length"@), 1024) as u32
    &&& s.proxy_connect_timeout == spec_setting_i32(stored_value(rows, "nginx_proxy_connect_timeout"@), 60) as u32
    &&& s.proxy_send_timeout == spec_setting_i32(stored_value(rows, "nginx_proxy_send_timeout"@), 60) as u32
    &&& s.proxy_read_timeout == spec_setting_i32(stored_value(rows, "nginx_proxy_read_timeout"@), 60) as u32
}

fn text_or(v: Option<String>, d: &str) -> (r: String)
    ensures
        r@ == or_default(opt_view(v), d@),
{
    match v {
        Some(s) => s,
        None => owned(d),
    }
}

/// The template settings, from the stored `(key, value)` settings.
pub fn template_settings_from_stored(rows: &Vec<(String, Option<String>)>) -> (s: NginxTemplateSettings)
    ensures
        spec_template_settings(rows@, s),
{
    let backend_port: u16 = match get_setting(rows, "nginx_backend_port") {
        Some(v) => match parse_u16(v.as_str()) {
            Some(n) => n,
            None => 8081,
        },
        None => 8081,
    };
    NginxTemplateSettings {
        server_name: text_or(get_setting(rows, "nginx_server_name"), "_"),
        backend_port,
        gzip_enabled: match get_setting(rows, "nginx_gzip_enabled") {
            Some(v) => setting_bool(&Some(v)),
            None => true,
        },
        gzip_comp_level: setting_i32(&get_setting(rows, "nginx_gzip_comp_level"), 6) as u32,
        gzip_min_length: setting_i32(&get_setting(rows, "nginx_gzip_min_length"), 1024) as u32,
        proxy_connect_timeout: setting_i32(&get_setting(rows, "nginx_proxy_connect_timeout"), 60) as u32,
        proxy_send_timeout: setting_i32(&get_setting(rows, "nginx_proxy_send_timeout"), 60) as u32,
        proxy_read_timeout: setting_i32(&get_setting(rows, "nginx_proxy_read_timeout"), 60) as u32,
        header_x_frame_options: text_or(get_setting(rows, "nginx_header_x_frame_options"), "SAMEORIGIN"),
        header_x_content_type: text_or(get_setting(rows, "nginx_header_x_content_type"), "nosniff"),
        header_xss_protection: text_or(get_setting(rows, "nginx_header_xss_protection"), "1; mode=block"),
        header_hsts: text_or(get_setting(rows, "nginx_header_hsts"), "max-age=31536000; includeSubDomains"),
        header_referrer_policy: text_or(get_setting(rows, "nginx_header_referrer_policy"), "strict-origin-when-cross-origin"),
        header_permissions_policy: text_or(get_setting(rows, "nginx_header_permissions_policy"), "camera=(), microphone=(), geolocation=()"),
        header_csp: text_or(get_setting(rows, "nginx_header_csp"), "default-src 'self'; script-src 'self' 'unsafe-inline' 'unsafe-eval'; style-src 'self' 'unsafe-inline'; img-src 'self' data: https:; font-src 'self' data:; frame-src 'self' https://maps.google.com https://www.google.com;"),
    }
}

/// The template settings of a fresh installation, for a server name and a
/// backend port.
pub fn default_template_settings(server_name: &str, backend_port: u16) -> (s: NginxTemplateSettings)
    ensures
        s.server_name@ == server_name@,
        s.backend_port == backend_port,
        s.gzip_enabled,
        s.gzip_comp_level == 6,
        s.gzip_min_length == 1024,
        s.proxy_connect_timeout == 60,
        s.proxy_send_timeout == 60,
        s.proxy_read_timeout == 60,
        s.header_x_frame_options@ == "SAMEORIGIN"@,
        s.header_x_content_type@ == "nosniff"@,
        s.header_xss_protection@ == "1; mode=block"@,
        s.header_hsts@ == "max-age=31536000; includeSubDomains"@,
        s.header_referrer_policy@ == "strict-origin-when-cross-origin"@,
        s.header_permissions_policy@ == "camera=(), microphone=(), geolocation=()"@,
        s.header_csp@ == "default-src 'self'; script-src 'self' 'unsafe-inline' 'unsafe-eval'; style-src 'self' 'unsafe-inline'; img-src 'self' data: https:; font-src 'self' data:; frame-src 'self' https://maps.google.com https://www.google.com;"@,
{
    NginxTemplateSettings {
        server_name: owned(server_name),
        backend_port,
        gzip_enabled: true,
        gzip_comp_level: 6,
        gzip_min_length: 1024,
        proxy_connect_timeout: 60,
        proxy_send_timeout: 60,
        proxy_read_timeout: 60,
        header_x_frame_options: owned("SAMEORIGIN"),
        header_x_content_type: owned("nosniff"),
        header_xss_protection: owned("1; mode=block"),
        header_hsts: owned("max-age=31536000; includeSubDomains"),
        header_referrer_policy: owned("strict-origin-when-cross-origin"),
        header_permissions_policy: owned("camera=(), microphone=(), geolocation=()"),
        header_csp: owned("default-src 'self'; script-src 'self' 'unsafe-inline' 'unsafe-eval'; style-src 'self' 'unsafe-inline'; img-src 'self' data: https:; font-src 'self' data:; frame-src 'self' https://maps.google.com https://www.google.com;"),
    }
}

// ----------------------------------------------------------------------------
// The generated configuration
// ----------------------------------------------------------------------------

/// The gzip part of the configuration.
pub open spec fn gzip_section(s: NginxTemplateSettings) -> Seq<char> {
    if s.gzip_enabled {
        "    # Gzip compression\n    gzip on;\n    gzip_vary on;\n    gzip_proxied any;\n    gzip_comp_level "@ + decimal_nat(s.gzip_comp_level as nat) + ";\n    gzip_min_length "@ + decimal_nat(s.gzip_min_length as nat) + ";\n    gzip_types text/plain text/css application/json application/javascript\n               text/xml application/xml application/xml+rss text/javascript\n               image/svg+xml application/font-woff2;"@
    } else {
        "    # Gzip compression (disabled)\n    gzip off;"@
    }
}

/// `    add_header {name} "{value}" always;`
pub open spec fn header_line(name: Seq<char>, value: Seq<char>) -> Seq<char> {
    "    add_header "@ + name + " \""@ + value + "\" always;"@
}

pub open spec fn header_if_set(name: Seq<char>, value: Seq<char>) -> Seq<Seq<char>> {
    if value.len() == 0 { seq![] } else { seq![header_line(name, value)] }
}

/// The security header lines, for the headers that have a value.
pub open spec fn header_lines(s: NginxTemplateSettings) -> Seq<Seq<char>> {
        header_if_set("X-Frame-Options"@, s.header_x_frame_options@)
        + header_if_set("X-Content-Type-Options"@, s.header_x_content_type@)
        + header_if_set("X-XSS-Protection"@, s.header_xss_protection@)
        + header_if_set("Strict-Transport-Security"@, s.header_hsts@)
        + header_if_set("Referrer-Policy"@, s.header_referrer_policy@)
        + header_if_set("Permissions-Policy"@, s.header_permissions_policy@)
        + header_if_set("Content-Security-Policy"@, s.header_csp@)
}

/// Lines joined with newlines.
pub open spec fn join_lines(ls: Seq<Seq<char>>) -> Seq<char>
    decreases ls.len(),
{
    if ls.len() == 0 {
        Seq::empty()
    } else if ls.len() == 1 {
        ls[0]
    } else {
        join_lines(ls.drop_last()) + "\n"@ + ls.last()
    }
}

/// The security headers part of the configuration.
pub open spec fn headers_section(s: NginxTemplateSettings) -> Seq<char> {
    if header_lines(s).len() == 0 {
        "    # Security headers (all disabled)"@
    } else {
        "    # Security headers\n"@ + join_lines(header_lines(s))
    }
}

/// The full proxy configuration: HTTP redirected to HTTPS, TLS with the
/// certbot certificate of the server name, the gzip and header sections, and
/// every request proxied to the backend port with the configured timeouts.
pub open spec fn spec_proxy_config(s: NginxTemplateSettings) -> Seq<char> {
    "# LacisProxyGateway2 - Full Proxy Mode\n# Generated automatically from template settings - DO NOT EDIT MANUALLY\n# All routing is managed through the LacisProxyGateway2 UI\n\nserver {\n    listen 80;\n    server_name "@
        + s.server_name@
        + ";\n\n    # Redirect HTTP to HTTPS\n    return 301 https://$host$request_uri;\n}\n\nserver {\n    listen 443 ssl http2;\n    server_name "@
        + s.server_name@
        + ";\n\n    # SSL Configuration (managed by certbot)\n    ssl_certificate /etc/letsencrypt/live/"@
        + s.server_name@
        + "/fullchain.pem;\n    ssl_certificate_key /etc/letsencrypt/live/"@
        + s.server_name@
        + "/privkey.pem;\n    include /etc/letsencrypt/options-ssl-nginx.conf;\n    ssl_dhparam /etc/letsencrypt/ssl-dhparams.pem;\n\n    # SSL hardening (TLS 1.2+ only, strong cipher suites)\n    ssl_protocols TLSv1.2 TLSv1.3;\n    ssl_prefer_server_ciphers on;\n    ssl_ciphers ECDHE-ECDSA-AES128-GCM-SHA256:ECDHE-RSA-AES128-GCM-SHA256:ECDHE-ECDSA-AES256-GCM-SHA384:ECDHE-RSA-AES256-GCM-SHA384;\n    ssl_session_cache shared:SSL:10m;\n    ssl_session_timeout 1d;\n    ssl_session_tickets off;\n\n"@
        + gzip_section(s)
        + "\n\n"@
        + headers_section(s)
        + "\n\n    # Proxy all requests to LacisProxyGateway2 backend\n    location / {\n        proxy_pass http://127.0.0.1:"@
        + decimal_nat(s.backend_port as nat)
        + ";\n        proxy_http_version 1.1;\n\n        # Headers\n        proxy_set_header Host $host;\n        proxy_set_header X-Real-IP $remote_addr;\n        proxy_set_header X-Forwarded-For $proxy_add_x_forwarded_for;\n        proxy_set_header X-Forwarded-Proto $scheme;\n\n        # WebSocket support\n        proxy_set_header Upgrade $http_upgrade;\n        proxy_set_header Connection \"upgrade\";\n\n        # Timeouts\n        proxy_connect_timeout "@
        + decimal_nat(s.proxy_connect_timeout as nat)
        + "s;\n        proxy_send_timeout "@
        + decimal_nat(s.proxy_send_timeout as nat)
        + "s;\n        proxy_read_timeout "@
        + decimal_nat(s.proxy_read_timeout as nat)
        + "s;\n\n        # Buffering\n        proxy_buffering off;\n        proxy_request_buffering off;\n    }\n\n    # Let's Encrypt challenge\n    location /.well-known/acme-challenge/ {\n        root /var/www/certbot;\n    }\n}\n"@
}

/// A timeout line of the generated configuration: `        {name} {secs}s;`.
pub open spec fn timeout_line(name: Seq<char>, secs: u32) -> Seq<char> {
    "        "@ + name + " "@ + decimal_nat(secs as nat) + "s;\n"@
}

/// Each proxy timeout reaches nginx with its own value: the generated
/// configuration holds the connect, send and read timeout lines, each
/// carrying the setting of that name.
pub proof fn lemma_timeouts_written(s: NginxTemplateSettings)
    ensures
        exists|p: Seq<char>, q: Seq<char>| spec_proxy_config(s)
            == p + timeout_line("proxy_connect_timeout"@, s.proxy_connect_timeout) + q,
        exists|p: Seq<char>, q: Seq<char>| spec_proxy_config(s)
            == p + timeout_line("proxy_send_timeout"@, s.proxy_send_timeout) + q,
        exists|p: Seq<char>, q: Seq<char>| spec_proxy_config(s)
            == p + timeout_line("proxy_read_timeout"@, s.proxy_read_timeout) + q,
{
    let head = "# LacisProxyGateway2 - Full Proxy Mode\n# Generated automatically from template settings - DO NOT EDIT MANUALLY\n# All routing is managed through the LacisProxyGateway2 UI\n\nserver {\n    listen 80;\n    server_name "@
        + s.server_name@
        + ";\n\n    # Redirect HTTP to HTTPS\n    return 301 https://$host$request_uri;\n}\n\nserver {\n    listen 443 ssl http2;\n    server_name "@
        + s.server_name@
        + ";\n\n    # SSL Configuration (managed by certbot)\n    ssl_certificate /etc/letsencrypt/live/"@
        + s.server_name@
        + "/fullchain.pem;\n    ssl_certificate_key /etc/letsencrypt/live/"@
        + s.server_name@
        + "/privkey.pem;\n    include /etc/letsencrypt/options-ssl-nginx.conf;\n    ssl_dhparam /etc/letsencrypt/ssl-dhparams.pem;\n\n    # SSL hardening (TLS 1.2+ only, strong cipher suites)\n    ssl_protocols TLSv1.2 TLSv1.3;\n    ssl_prefer_server_ciphers on;\n    ssl_ciphers ECDHE-ECDSA-AES128-GCM-SHA256:ECDHE-RSA-AES128-GCM-SHA256:ECDHE-ECDSA-AES256-GCM-SHA384:ECDHE-RSA-AES256-GCM-SHA384;\n    ssl_session_cache shared:SSL:10m;\n    ssl_session_timeout 1d;\n    ssl_session_tickets off;\n\n"@
        + gzip_section(s)
        + "\n\n"@
        + headers_section(s)
        + "\n\n    # Proxy all requests to LacisProxyGateway2 backend\n    location / {\n        proxy_pass http://127.0.0.1:"@
        + decimal_nat(s.backend_port as nat);
    let l0 = ";\n        proxy_http_version 1.1;\n\n        # Headers\n        proxy_set_header Host $host;\n        proxy_set_header X-Real-IP $remote_addr;\n        proxy_set_header X-Forwarded-For $proxy_add_x_forwarded_for;\n        proxy_set_header X-Forwarded-Proto $scheme;\n\n        # WebSocket support\n        proxy_set_header Upgrade $http_upgrade;\n        proxy_set_header Connection \"upgrade\";\n\n        # Timeouts\n        proxy_connect_timeout "@;
    let l1 = "s;\n        proxy_send_timeout "@;
    let l2 = "s;\n        proxy_read_timeout "@;
    let l3 = "s;\n\n        # Buffering\n        proxy_buffering off;\n        proxy_request_buffering off;\n    }\n\n    # Let's Encrypt challenge\n    location /.well-known/acme-challenge/ {\n        root /var/www/certbot;\n    }\n}\n"@;
    let d1 = decimal_nat(s.proxy_connect_timeout as nat);
    let d2 = decimal_nat(s.proxy_send_timeout as nat);
    let d3 = decimal_nat(s.proxy_read_timeout as nat);
    let c = spec_proxy_config(s);
    assert(c == head + l0 + d1 + l1 + d2 + l2 + d3 + l3);
    reveal_strlit(";\n        proxy_http_version 1.1;\n\n        # Headers\n        proxy_set_header Host $host;\n        proxy_set_header X-Real-IP $remote_addr;\n        proxy_set_header X-Forwarded-For $proxy_add_x_forwarded_for;\n        proxy_set_header X-Forwarded-Proto $scheme;\n\n        # WebSocket support\n        proxy_set_header Upgrade $http_upgrade;\n        proxy_set_header Connection \"upgrade\";\n\n        # Timeouts\n        proxy_connect_timeout ");
    reveal_strlit("s;\n        proxy_send_timeout ");
    reveal_strlit("s;\n        proxy_read_timeout ");
    reveal_strlit("s;\n\n        # Buffering\n        proxy_buffering off;\n        proxy_request_buffering off;\n    }\n\n    # Let's Encrypt challenge\n    location /.well-known/acme-challenge/ {\n        root /var/www/certbot;\n    }\n}\n");
    reveal_strlit("        ");
    reveal_strlit(" ");
    reveal_strlit("s;\n");
    reveal_strlit("proxy_connect_timeout");
    reveal_strlit("proxy_send_timeout");
    reveal_strlit("proxy_read_timeout");
    let n0 = l0.len() - 30;
    assert(l0.skip(n0) =~= "        "@ + "proxy_connect_timeout"@ + " "@);
    assert(l0 =~= l0.take(n0) + l0.skip(n0));
    assert(l1 =~= "s;\n"@ + ("        "@ + "proxy_send_timeout"@ + " "@));
    assert(l2 =~= "s;\n"@ + ("        "@ + "proxy_read_timeout"@ + " "@));
    assert(l3 =~= "s;\n"@ + l3.skip(3));
    let p1 = head + l0.take(n0);
    let q1 = l1.skip(3) + d2 + l2 + d3 + l3;
    assert(c =~= p1 + timeout_line("proxy_connect_timeout"@, s.proxy_connect_timeout) + q1);
    let p2 = head + l0 + d1 + "s;\n"@;
    let q2 = l2.skip(3) + d3 + l3;
    assert(c =~= p2 + timeout_line("proxy_send_timeout"@, s.proxy_send_timeout) + q2);
    let p3 = head + l0 + d1 + l1 + d2 + "s;\n"@;
    let q3 = l3.skip(3);
    assert(c =~= p3 + timeout_line("proxy_read_timeout"@, s.proxy_read_timeout) + q3);
}

fn gzip_text(s: &NginxTemplateSettings) -> (r: String)
    ensures
        r@ == gzip_section(*s),
{
    if s.gzip_enabled {
        let mut r = owned("    # Gzip compression\n    gzip on;\n    gzip_vary on;\n    gzip_proxied any;\n    gzip_comp_level ");
        append_str(&mut r, decimal_u64(s.gzip_comp_level as u64).as_str());
        append_str(&mut r, ";\n    gzip_min_length ");
        append_str(&mut r, decimal_u64(s.gzip_min_length as u64).as_str());
        append_str(&mut r, ";\n    gzip_types text/plain text/css application/json application/javascript\n               text/xml application/xml application/xml+rss text/javascript\n               image/svg+xml application/font-woff2;");
        r
    } else {
        owned("    # Gzip compression (disabled)\n    gzip off;")
    }
}

fn push_header(lines: &mut Vec<String>, name: &str, value: &String)
    ensures
        final(lines)@.map_values(|l: String| l@) == old(lines)@.map_values(|l: String| l@) + header_if_set(name@, value@),
{
    let ghost before = lines@.map_values(|l: String| l@);
    if !value.as_str().is_empty() {
        let mut l = owned("    add_header ");
        append_str(&mut l, name);
        append_str(&mut l, " \"");
        append_str(&mut l, value.as_str());
        append_str(&mut l, "\" always;");
        lines.push(l);
    }
    assert(lines@.map_values(|l: String| l@) =~= before + header_if_set(name@, value@));
}

fn join_text(ls: &Vec<String>) -> (r: String)
    ensures
        r@ == join_lines(ls@.map_values(|l: String| l@)),
{
    let ghost v = ls@.map_values(|l: String| l@);
    let mut r = String::new();
    let mut i: usize = 0;
    while i < ls.len()
        invariant
            i <= ls.len(),
            v == ls@.map_values(|l: String| l@),
            r@ == join_lines(v.take(i as int)),
        decreases ls.len() - i,
    {
        assert(v.take(i + 1).drop_last() =~= v.take(i as int));
        if i > 0 {
            append_str(&mut r, "\n");
        }
        append_str(&mut r, ls[i].as_str());
        assert(v.take(i + 1).last() == ls@[i as int]@);
        proof {
            if i == 0 {
                assert(r@ =~= v.take(1)[0]);
            }
        }
        i = i + 1;
    }
    assert(v.take(v.len() as int) =~= v);
    r
}

fn headers_text(s: &NginxTemplateSettings) -> (r: String)
    ensures
        r@ == headers_section(*s),
{
    let mut lines: Vec<String> = Vec::new();
    assert(lines@.map_values(|l: String| l@) =~= Seq::<Seq<char>>::empty());
    push_header(&mut lines, "X-Frame-Options", &s.header_x_frame_options);
    push_header(&mut lines, "X-Content-Type-Options", &s.header_x_content_type);
    push_header(&mut lines, "X-XSS-Protection", &s.header_xss_protection);
    push_header(&mut lines, "Strict-Transport-Security", &s.header_hsts);
    push_header(&mut lines, "Referrer-Policy", &s.header_referrer_policy);
    push_header(&mut lines, "Permissions-Policy", &s.header_permissions_policy);
    push_header(&mut lines, "Content-Security-Policy", &s.header_csp);
    assert(lines@.map_values(|l: String| l@) =~= header_lines(*s));
    if lines.len() == 0 {
        owned("    # Security headers (all disabled)")
    } else {
        let mut r = owned("    # Security headers\n");
        append_str(&mut r, join_text(&lines).as_str());
        r
    }
}

/// The nginx configuration generated from the template settings.
pub fn generate_full_proxy_config_from_settings(s: &NginxTemplateSettings) -> (r: String)
    ensures
        r@ == spec_proxy_config(*s),
{
    let mut r = owned("# LacisProxyGateway2 - Full Proxy Mode\n# Generated automatically from template settings - DO NOT EDIT MANUALLY\n# All routing is managed through the LacisProxyGateway2 UI\n\nserver {\n    listen 80;\n    server_name ");
    append_str(&mut r, s.server_name.as_str());
    append_str(&mut r, ";\n\n    # Redirect HTTP to HTTPS\n    return 301 https://$host$request_uri;\n}\n\nserver {\n    listen 443 ssl http2;\n    server_name ");
    append_str(&mut r, s.server_name.as_str());
    append_str(&mut r, ";\n\n    # SSL Configuration (managed by certbot)\n    ssl_certificate /etc/letsencrypt/live/");
    append_str(&mut r, s.server_name.as_str());
    append_str(&mut r, "/fullchain.pem;\n    ssl_certificate_key /etc/letsencrypt/live/");
    append_str(&mut r, s.server_name.as_str());
    append_str(&mut r, "/privkey.pem;\n    include /etc/letsencrypt/options-ssl-nginx.conf;\n    ssl_dhparam /etc/letsencrypt/ssl-dhparams.pem;\n\n    # SSL hardening (TLS 1.2+ only, strong cipher suites)\n    ssl_protocols TLSv1.2 TLSv1.3;\n    ssl_prefer_server_ciphers on;\n    ssl_ciphers ECDHE-ECDSA-AES128-GCM-SHA256:ECDHE-RSA-AES128-GCM-SHA256:ECDHE-ECDSA-AES256-GCM-SHA384:ECDHE-RSA-AES256-GCM-SHA384;\n    ssl_session_cache shared:SSL:10m;\n    ssl_session_timeout 1d;\n    ssl_session_tickets off;\n\n");
    append_str(&mut r, gzip_text(s).as_str());
    append_str(&mut r, "\n\n");
    append_str(&mut r, headers_text(s).as_str());
    append_str(&mut r, "\n\n    # Proxy all requests to LacisProxyGateway2 backend\n    location / {\n        proxy_pass http://127.0.0.1:");
    append_str(&mut r, decimal_u64(s.backend_port as u64).as_str());
    append_str(&mut r, ";\n        proxy_http_version 1.1;\n\n        # Headers\n        proxy_set_header Host $host;\n        proxy_set_header X-Real-IP $remote_addr;\n        proxy_set_header X-Forwarded-For $proxy_add_x_forwarded_for;\n        proxy_set_header X-Forwarded-Proto $scheme;\n\n        # WebSocket support\n        proxy_set_header Upgrade $http_upgrade;\n        proxy_set_header Connection \"upgrade\";\n\n        # Timeouts\n        proxy_connect_timeout ");
    append_str(&mut r, decimal_u64(s.proxy_connect_timeout as u64).as_str());
    append_str(&mut r, "s;\n        proxy_send_timeout ");
    append_str(&mut r, decimal_u64(s.proxy_send_timeout as u64).as_str());
    append_str(&mut r, "s;\n        proxy_read_timeout ");
    append_str(&mut r, decimal_u64(s.proxy_read_timeout as u64).as_str());
    append_str(&mut r, "s;\n\n        # Buffering\n        proxy_buffering off;\n        proxy_request_buffering off;\n    }\n\n    # Let's Encrypt challenge\n    location /.well-known/acme-challenge/ {\n        root /var/www/certbot;\n    }\n}\n");
    r
}

/// The configuration with the default template settings for a server name
/// and a backend port.
pub fn generate_full_proxy_config(server_name: &str, backend_port: u16) -> (r: String)
    ensures
        exists|s: NginxTemplateSettings| r@ == spec_proxy_config(s) && s.server_name@ == server_name@
            && s.backend_port == backend_port && s.gzip_enabled && s.gzip_comp_level == 6 && s.gzip_min_length == 1024
            && s.proxy_connect_timeout == 60 && s.proxy_send_timeout == 60 && s.proxy_read_timeout == 60
            && s.header_x_frame_options@ == "SAMEORIGIN"@
            && s.header_x_content_type@ == "nosniff"@
            && s.header_xss_protection@ == "1; mode=block"@
            && s.header_hsts@ == "max-age=31536000; includeSubDomains"@
            && s.header_referrer_policy@ == "strict-origin-when-cross-origin"@
            && s.header_permissions_policy@ == "camera=(), microphone=(), geolocation=()"@
            && s.header_csp@ == "default-src 'self'; script-src 'self' 'unsafe-inline' 'unsafe-eval'; style-src 'self' 'unsafe-inline'; img-src 'self' data: https:; font-src 'self' data:; frame-src 'self' https://maps.google.com https://www.google.com;"@
        ,
{
    let s = default_template_settings(server_name, backend_port);
    let r = generate_full_proxy_config_from_settings(&s);
    assert(r@ == spec_proxy_config(s));
    r
}

/// Full proxy mode's backend port and server name: as requested, else 8080
/// and `_`.
pub fn full_proxy_target(req: &UpdateNginxConfigRequest) -> (r: (u16, String))
    ensures
        r.0 == match req.backend_port { Some(p) => p, None => 8080u16 },
        r.1@ == match req.server_name { Some(n) => n@, None => "_"@ },
{
    let port: u16 = match req.backend_port {
        Some(p) => p,
        None => 8080,
    };
    let name = match &req.server_name {
        Some(n) => n.clone(),
        None => owned("_"),
    };
    (port, name)
}


// ----------------------------------------------------------------------------
// Request body size limit
// ----------------------------------------------------------------------------

pub open spec fn size_unit(c: char) -> bool {
    c == 'M' || c == 'G' || c == 'K'
}

/// A body size as accepted: trimmed and upper-cased, a 32-bit unsigned
/// number followed by `K`, `M` or `G`; else the reason it is refused.
pub open spec fn spec_body_size(size: Seq<char>) -> Result<Seq<char>, Seq<char>> {
    let u = uppercased(trimmed(size));
    if !(u.len() > 0 && size_unit(u.last())) {
        Err("Size must end with K, M, or G (e.g., 50M, 1G)"@)
    } else if parsed_in_range(u.drop_last(), false, 0, 4294967295) is None {
        Err("Invalid size format"@)
    } else {
        Ok(u)
    }
}

/// Check and normalize a requested body size (such as ` 50m` into `50M`).
pub fn normalize_body_size(size: &str) -> (r: Result<String, AppError>)
    ensures
        match spec_body_size(size@) {
            Ok(u) => r matches Ok(v) && v@ == u,
            Err(m) => r matches Err(AppError::BadRequest(x)) && x@ == m,
        },
{
    let t = trim_str(size);
    let u = uppercase(t.as_str());
    let cs = chars_of(u.as_str());
    let n = cs.len();
    if !(n > 0 && (cs[n - 1] == 'M' || cs[n - 1] == 'G' || cs[n - 1] == 'K')) {
        return Err(AppError::BadRequest(owned("Size must end with K, M, or G (e.g., 50M, 1G)")));
    }
    let mut num: Vec<char> = Vec::new();
    let mut k: usize = 0;
    while k + 1 < n
        invariant
            k + 1 <= n,
            n == cs@.len(),
            num@ == cs@.take(k as int),
        decreases n - k,
    {
        num.push(cs[k]);
        assert(cs@.take(k + 1) =~= cs@.take(k as int).push(cs@[k as int]));
        k = k + 1;
    }
    assert(num@ =~= u@.drop_last());
    let digits = string_of(&num);
    match parse_u32(digits.as_str()) {
        Some(_) => Ok(u),
        None => Err(AppError::BadRequest(owned("Invalid size format"))),
    }
}

/// The line that sets the body size limit.
pub open spec fn body_size_line(size: Seq<char>) -> Seq<char> {
    "        client_max_body_size "@ + size + ";\n"@
}

/// The scan state: inside a `location` block, its brace depth, and whether
/// a body size line is still owed to the block just opened.
pub type BodySizeScan = (bool, int, bool);

/// One line of the configuration: what the scan state becomes and what is
/// written for it. A `client_max_body_size` line is replaced by the new
/// limit; a `location` block gets the limit right after the line that opens
/// its brace, unless it sets one itself; every other line is kept.
pub open spec fn body_size_step(st: BodySizeScan, line: Seq<char>, size: Seq<char>) -> (BodySizeScan, Seq<char>) {
    let t = trimmed(line);
    let opened: BodySizeScan = if is_prefix("location "@, t) { (true, st.1, true) } else { st };
    let counted: BodySizeScan = if opened.0 {
        let b = opened.1 + count_char(line, '{') - count_char(line, '}');
        (b != 0, b, opened.2)
    } else {
        opened
    };
    if is_prefix("client_max_body_size"@, t) {
        ((counted.0, counted.1, false), body_size_line(size))
    } else if counted.2 && t.contains('{') {
        ((counted.0, counted.1, false), line + "\n"@ + body_size_line(size))
    } else {
        (counted, line + "\n"@)
    }
}

/// The scan over some lines: the final state and the text written.
pub open spec fn body_size_scan(ls: Seq<Seq<char>>, size: Seq<char>) -> (BodySizeScan, Seq<char>)
    decreases ls.len(),
{
    if ls.len() == 0 {
        ((false, 0, false), Seq::empty())
    } else {
        let before = body_size_scan(ls.drop_last(), size);
        let step = body_size_step(before.0, ls.last(), size);
        (step.0, before.1 + step.1)
    }
}

/// The configuration with its body size limit set to `size` (see
/// `body_size_step`); every line ends with a newline.
pub open spec fn spec_set_body_size(content: Seq<char>, size: Seq<char>) -> Seq<char> {
    body_size_scan(text_lines(content), size).1
}

fn body_size_text(size: &str) -> (r: String)
    ensures
        r@ == body_size_line(size@),
{
    let mut l = owned("        client_max_body_size ");
    append_str(&mut l, size);
    append_str(&mut l, ";\n");
    l
}

/// The state after a line's `location` and braces are counted.
pub open spec fn body_size_counted(st: BodySizeScan, line: Seq<char>) -> BodySizeScan {
    let t = trimmed(line);
    let opened: BodySizeScan = if is_prefix("location "@, t) { (true, st.1, true) } else { st };
    if opened.0 {
        let b = opened.1 + count_char(line, '{') - count_char(line, '}');
        (b != 0, b, opened.2)
    } else {
        opened
    }
}

/// The step writes the limit: the line sets one itself, or it opens the
/// brace of a `location` block that still owes one.
pub open spec fn step_writes(st: BodySizeScan, line: Seq<char>) -> bool {
    is_prefix("client_max_body_size"@, trimmed(line)) || (body_size_counted(st, line).2 && trimmed(line).contains('{'))
}

/// Some line of the scan writes the limit.
pub open spec fn scan_writes(ls: Seq<Seq<char>>, size: Seq<char>) -> bool
    decreases ls.len(),
{
    if ls.len() == 0 {
        false
    } else {
        scan_writes(ls.drop_last(), size) || step_writes(body_size_scan(ls.drop_last(), size).0, ls.last())
    }
}

/// A limit that reads back as written: no whitespace in it, and no `;` at
/// its end.
pub open spec fn size_ok(size: Seq<char>) -> bool {
    solid(size) && (size.len() == 0 || size.last() != ';')
}

/// The line that sets the limit, as the lines of a configuration show it.
pub open spec fn size_line_text(size: Seq<char>) -> Seq<char> {
    "        client_max_body_size "@ + size + ";"@
}

proof fn lemma_size_line(size: Seq<char>)
    requires
        size_ok(size),
    ensures
        body_size_line(size) == size_line_text(size) + seq!['\n'],
        !size_line_text(size).contains('\n'),
        strip_cr(size_line_text(size)) == size_line_text(size),
        is_body_size_setting(size_line_text(size)),
        strip_trailing(words(trimmed(size_line_text(size)))[1], ';') == size,
{
    reveal_strlit("        client_max_body_size ");
    reveal_strlit(";");
    reveal_strlit(";\n");
    reveal_strlit("client_max_body_size");
    let line = size_line_text(size);
    let key = "client_max_body_size"@;
    let b = size + seq![';'];
    let blank = seq![' ', ' ', ' ', ' ', ' ', ' ', ' ', ' '];
    let r = key + seq![' '] + b;
    assert(body_size_line(size) =~= line + seq!['\n']);
    assert(line =~= blank + r);
    assert(line.last() == ';');
    assert(!line.contains('\n')) by {
        if line.contains('\n') {
            let k = choose|k: int| 0 <= k < line.len() && line[k] == '\n';
            if 29 <= k < 29 + size.len() {
                assert(line[k] == size[k - 29]);
                assert(is_white_space('\n'));
            }
        }
    }
    crate::text::lemma_trim_start_blank(blank, r);
    assert(!is_white_space(r[0]));
    assert(trim_start(r) == r);
    assert(r.last() == ';');
    assert(trimmed(line) == r);
    assert(solid(key));
    crate::text::lemma_words_solid(key);
    let ks = key + seq![' '];
    assert(ks.drop_last() =~= key);
    assert(words(ks) == words(key));
    assert(solid(b)) by {
        assert forall|i: int| 0 <= i < b.len() implies !is_white_space(#[trigger] b[i]) by {
            if i < size.len() {
                assert(b[i] == size[i]);
            }
        }
    }
    crate::text::lemma_words_after(ks, b);
    assert(r =~= ks + b);
    assert(words(r) =~= seq![key, b]);
    assert(r.take(20) =~= key);
    assert(b.drop_last() =~= size);
    assert(b.last() == ';');
    assert(words(trimmed(line))[1] == b);
    assert(strip_trailing(b, ';') == strip_trailing(size, ';'));
    if size.len() > 0 {
        assert(size.last() != ';');
    }
    assert(strip_trailing(size, ';') == size);
}

/// The limit a configuration sets, once other lines follow: the first
/// part's, if it sets one, else the rest's.
proof fn lemma_body_size_of_concat(x: Seq<Seq<char>>, y: Seq<Seq<char>>)
    ensures
        spec_body_size_of(x + y) == match spec_body_size_of(x) {
            Some(v) => Some(v),
            None => spec_body_size_of(y),
        },
    decreases x.len(),
{
    if x.len() == 0 {
        assert(x + y =~= y);
    } else {
        assert((x + y)[0] == x[0]);
        assert((x + y).skip(1) =~= x.skip(1) + y);
        lemma_body_size_of_concat(x.skip(1), y);
    }
}

proof fn lemma_single_not_setting(l: Seq<char>)
    requires
        !is_prefix("client_max_body_size"@, trimmed(l)),
    ensures
        spec_body_size_of(seq![strip_cr(l)]) is None,
{
    crate::text::lemma_trimmed_strip_cr(l);
    assert(!is_body_size_setting(strip_cr(l)));
    assert(seq![strip_cr(l)][0] == strip_cr(l));
    assert(seq![strip_cr(l)].skip(1) =~= Seq::<Seq<char>>::empty());
    assert(spec_body_size_of(Seq::<Seq<char>>::empty()) is None);
    assert(spec_body_size_of(seq![strip_cr(l)]) == spec_body_size_of(seq![strip_cr(l)].skip(1)));
}

/// How the scan's text reads back: it ends with a newline (or is empty);
/// once some line wrote the limit, the limit it sets is the new one; until
/// then its lines are the scanned ones, and it sets none.
proof fn lemma_scan_read_back(ls: Seq<Seq<char>>, size: Seq<char>)
    requires
        size_ok(size),
        forall|k: int| 0 <= k < ls.len() ==> !(#[trigger] ls[k]).contains('\n'),
    ensures
        body_size_scan(ls, size).1.len() == 0 || body_size_scan(ls, size).1.last() == '\n',
        scan_writes(ls, size) ==> spec_body_size_of(text_lines(body_size_scan(ls, size).1)) == Some(size),
        !scan_writes(ls, size) ==> text_lines(body_size_scan(ls, size).1) == ls.map_values(|l: Seq<char>| strip_cr(l))
            && spec_body_size_of(text_lines(body_size_scan(ls, size).1)) is None,
    decreases ls.len(),
{
    lemma_size_line(size);
    reveal_strlit("\n");
    if ls.len() == 0 {
        assert(text_lines(Seq::<char>::empty()) =~= Seq::<Seq<char>>::empty());
        assert(ls.map_values(|l: Seq<char>| strip_cr(l)) =~= Seq::<Seq<char>>::empty());
    } else {
        let p = ls.drop_last();
        let l = ls.last();
        assert(forall|k: int| 0 <= k < p.len() ==> p[k] == ls[k]);
        lemma_scan_read_back(p, size);
        let before = body_size_scan(p, size);
        let step = body_size_step(before.0, l, size);
        let out = before.1 + step.1;
        assert(body_size_scan(ls, size).1 == out);
        assert(!l.contains('\n'));
        crate::text::lemma_lines_concat(before.1, step.1);
        let bsl = size_line_text(size);
        let t = trimmed(l);
        if is_prefix("client_max_body_size"@, t) {
            assert(step.1 == bsl + seq!['\n']);
            crate::text::lemma_lines_single(bsl);
            assert(spec_body_size_of(seq![bsl]) == Some(size)) by {
                assert(seq![bsl][0] == bsl);
            }
        } else if body_size_counted(before.0, l).2 && t.contains('{') {
            assert(step.1 =~= (l + seq!['\n']) + (bsl + seq!['\n']));
            crate::text::lemma_lines_concat(l + seq!['\n'], bsl + seq!['\n']);
            crate::text::lemma_lines_single(l);
            crate::text::lemma_lines_single(bsl);
            lemma_single_not_setting(l);
            lemma_body_size_of_concat(seq![strip_cr(l)], seq![bsl]);
            assert(seq![strip_cr(l)] + seq![bsl] =~= seq![strip_cr(l), bsl]);
            assert(spec_body_size_of(seq![bsl]) == Some(size)) by {
                assert(seq![bsl][0] == bsl);
            }
        } else {
            assert(step.1 =~= l + seq!['\n']);
            crate::text::lemma_lines_single(l);
            lemma_single_not_setting(l);
        }
        assert(out.len() > 0 && out.last() == '\n') by {
            assert(step.1.len() > 0 && step.1.last() == '\n');
            assert(out.last() == step.1.last());
        }
        lemma_body_size_of_concat(text_lines(before.1), text_lines(step.1));
        if !scan_writes(ls, size) {
            assert(ls.map_values(|x: Seq<char>| strip_cr(x)) =~= p.map_values(|x: Seq<char>| strip_cr(x)).push(strip_cr(l)));
            assert(p.map_values(|x: Seq<char>| strip_cr(x)).push(strip_cr(l)) =~= p.map_values(|x: Seq<char>| strip_cr(x)) + seq![strip_cr(l)]);
        }
    }
}

/// Some line of the configuration sets a limit, or opens a `location`
/// block's brace.
pub open spec fn has_limit_place(ls: Seq<Seq<char>>) -> bool {
    exists|k: int| 0 <= k < ls.len() && (is_prefix("client_max_body_size"@, trimmed(#[trigger] ls[k]))
        || (is_prefix("location "@, trimmed(ls[k])) && trimmed(ls[k]).contains('{')))
}

proof fn lemma_place_writes(ls: Seq<Seq<char>>, size: Seq<char>)
    requires
        has_limit_place(ls),
    ensures
        scan_writes(ls, size),
    decreases ls.len(),
{
    let k = choose|k: int| 0 <= k < ls.len() && (is_prefix("client_max_body_size"@, trimmed(#[trigger] ls[k]))
        || (is_prefix("location "@, trimmed(ls[k])) && trimmed(ls[k]).contains('{')));
    if k < ls.len() - 1 {
        assert(ls.drop_last()[k] == ls[k]);
        lemma_place_writes(ls.drop_last(), size);
    } else {
        assert(ls.last() == ls[k]);
    }
}

/// What is set is what is read back: after the limit is set in a
/// configuration that has a place for it (a line that sets one, or a
/// `location` line that opens its brace), the limit the configuration sets
/// is the new one, for any limit without whitespace and without a final
/// `;`, in particular any that `normalize_body_size` accepts.
pub proof fn lemma_body_size_read_back(content: Seq<char>, size: Seq<char>)
    requires
        size_ok(size),
        has_limit_place(text_lines(content)),
    ensures
        spec_body_size_of(text_lines(spec_set_body_size(content, size))) == Some(size),
{
    crate::text::lemma_lines_no_newline(content);
    lemma_place_writes(text_lines(content), size);
    lemma_scan_read_back(text_lines(content), size);
}

/// Every limit `normalize_body_size` accepts reads back as written.
pub proof fn lemma_normalized_size_ok(size: Seq<char>)
    requires
        spec_body_size(size) is Ok,
    ensures
        size_ok(spec_body_size(size)->Ok_0),
{
    let u = uppercased(trimmed(size));
    let d = u.drop_last();
    assert(parsed_int(d, false) is Some);
    assert forall|i: int| 0 <= i < u.len() implies !is_white_space(#[trigger] u[i]) by {
        if i < u.len() - 1 {
            assert(u[i] == d[i]);
            if d.len() > 0 && d[0] == '+' && crate::text::all_digits(d.skip(1)) {
                if i > 0 {
                    assert(d.skip(1)[i - 1] == d[i]);
                }
            } else {
                assert(crate::text::all_digits(d));
            }
        } else {
            assert(u[i] == u.last());
        }
    }
}

/// Set the body size limit in an nginx configuration.
pub fn set_body_size(content: &str, size: &str) -> (r: String)
    requires
        content@.len() <= 2147483647,
    ensures
        r@ == spec_set_body_size(content@, size@),
{
    let lines = lines_of(content);
    let ghost lv = lines@.map_values(|l: String| l@);
    proof {
        lemma_lines_total(content@);
    }
    let mut out = String::new();
    let mut in_location = false;
    let mut braces: i64 = 0;
    let mut pending = false;
    let mut i: usize = 0;
    while i < lines.len()
        invariant
            i <= lines.len(),
            lv == lines@.map_values(|l: String| l@),
            lv == text_lines(content@),
            total_len(lv) <= 2147483647,
            body_size_scan(lv.take(i as int), size@) == ((in_location, braces as int, pending), out@),
            -(total_len(lv.take(i as int)) as int) <= braces <= total_len(lv.take(i as int)),
        decreases lines.len() - i,
    {
        let line = lines[i].as_str();
        assert(lv[i as int] == line@);
        assert(lv.take(i + 1).drop_last() =~= lv.take(i as int));
        assert(lv.take(i + 1).last() == line@);
        proof {
            lemma_total_prefix(lv, i as int);
            lemma_total_prefix(lv, i + 1);
            lemma_count_le_len(line@, '{');
            lemma_count_le_len(line@, '}');
        }
        let t = trim_str(line);
        let tc = chars_of(t.as_str());
        if starts_with(&tc, &chars_of("location ")) {
            in_location = true;
            pending = true;
        }
        if in_location {
            let opens = count_char_in(line, '{');
            let closes = count_char_in(line, '}');
            braces = braces + opens as i64 - closes as i64;
            if braces == 0 {
                in_location = false;
            }
        }
        if starts_with(&tc, &chars_of("client_max_body_size")) {
            append_str(&mut out, body_size_text(size).as_str());
            pending = false;
        } else if pending && contains_char(&tc, '{') {
            append_str(&mut out, line);
            append_str(&mut out, "\n");
            append_str(&mut out, body_size_text(size).as_str());
            pending = false;
        } else {
            append_str(&mut out, line);
            append_str(&mut out, "\n");
        }
        i = i + 1;
    }
    assert(lv.take(lines.len() as int) =~= lv);
    out
}

/// The body size limit that a configuration sets: on the first line that
/// (trimmed) starts with `client_max_body_size` and has a second word, that
/// word without trailing `;`.
pub open spec fn is_body_size_setting(line: Seq<char>) -> bool {
    is_prefix("client_max_body_size"@, trimmed(line)) && words(trimmed(line)).len() >= 2
}

pub open spec fn spec_body_size_of(ls: Seq<Seq<char>>) -> Option<Seq<char>>
    decreases ls.len(),
{
    if ls.len() == 0 {
        None
    } else if is_body_size_setting(ls[0]) {
        Some(strip_trailing(words(trimmed(ls[0]))[1], ';'))
    } else {
        spec_body_size_of(ls.skip(1))
    }
}

/// The body size limit a configuration sets, if any.
pub fn client_max_body_size_in(content: &str) -> (r: Option<String>)
    ensures
        opt_view(r) == spec_body_size_of(text_lines(content@)),
{
    let lines = lines_of(content);
    let ghost lv = lines@.map_values(|l: String| l@);
    assert(lv.skip(0) =~= lv);
    let mut i: usize = 0;
    while i < lines.len()
        invariant
            i <= lines.len(),
            lv == lines@.map_values(|l: String| l@),
            lv == text_lines(content@),
            spec_body_size_of(lv) == spec_body_size_of(lv.skip(i as int)),
        decreases lines.len() - i,
    {
        assert(lv.skip(i as int)[0] == lines@[i as int]@);
        assert(lv.skip(i as int).skip(1) =~= lv.skip(i + 1));
        let t = trim_str(lines[i].as_str());
        let tc = chars_of(t.as_str());
        if starts_with(&tc, &chars_of("client_max_body_size")) {
            let ws = words_of(t.as_str());
            if ws.len() >= 2 {
                assert(ws@[1]@ == words(t@)[1]);
                return Some(strip_trailing_char(ws[1].as_str(), ';'));
            }
        }
        i = i + 1;
    }
    None
}

/// The proxy mode a configuration is in: `full_proxy` when it has a
/// `location / {` block and a `proxy_pass`; else (or without a
/// configuration) `selective`.
pub open spec fn spec_proxy_mode(content: Option<Seq<char>>) -> Seq<char> {
    match content {
        Some(c) => if has_substring(c, "location / {"@) && has_substring(c, "proxy_pass"@) {
            "full_proxy"@
        } else {
            "selective"@
        },
        None => "selective"@,
    }
}

pub fn proxy_mode_of(content: &Option<String>) -> (r: String)
    ensures
        r@ == spec_proxy_mode(opt_view(*content)),
{
    match content {
        Some(c) => {
            if contains_str(c.as_str(), "location / {") && contains_str(c.as_str(), "proxy_pass") {
                owned("full_proxy")
            } else {
                owned("selective")
            }
        },
        None => owned("selective"),
    }
}

/// Where the nginx configuration may be, in the order they are tried.
pub fn config_path_candidates() -> (r: Vec<String>)
    ensures
        r@.map_values(|p: String| p@) == seq![
            "/etc/nginx/sites-available/eatyui"@,
            "/etc/nginx/sites-available/lacis-proxy"@,
            "/etc/nginx/sites-available/lacis-proxy-gateway"@,
            "/etc/nginx/sites-available/default"@,
            "/etc/nginx/conf.d/lacis-proxy.conf"@,
        ],
{
    let mut r: Vec<String> = Vec::new();
    r.push(owned("/etc/nginx/sites-available/eatyui"));
    r.push(owned("/etc/nginx/sites-available/lacis-proxy"));
    r.push(owned("/etc/nginx/sites-available/lacis-proxy-gateway"));
    r.push(owned("/etc/nginx/sites-available/default"));
    r.push(owned("/etc/nginx/conf.d/lacis-proxy.conf"));
    assert(r@.map_values(|p: String| p@) =~= seq![
        "/etc/nginx/sites-available/eatyui"@,
        "/etc/nginx/sites-available/lacis-proxy"@,
        "/etc/nginx/sites-available/lacis-proxy-gateway"@,
        "/etc/nginx/sites-available/default"@,
        "/etc/nginx/conf.d/lacis-proxy.conf"@,
    ]);
    r
}

} // verus!
