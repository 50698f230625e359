//! Proxy route management: what a route must look like, what an update
//! changes, what is announced, and which gateway subnet a route's target
//! lies in.

use vstd::prelude::*;
use crate::auth::{AppError, IpAddress};
use crate::diagnostics::{join_with, joined};
use crate::docs::{OmadaControllerDoc, OmadaDeviceDoc};
use crate::models::{CreateRouteRequest, ProxyRoute, UpdateRouteRequest};
use crate::node_order::{find_controller, find_site, opt_view, site_of};
use crate::text::{
    append_str, decimal_i64, decimal_int, is_prefix, lemma_split_nonempty, owned, remove_all, remove_all_of, split_on,
    split_str, str_eq,
};
use crate::topology_api::{confirm_required, ConfirmRequired};

verus! {

/// A route path starts with `/`.
pub open spec fn spec_path_ok(path: Seq<char>) -> bool {
    path.len() > 0 && path[0] == '/'
}

/// A route target is an HTTP or HTTPS URL.
pub open spec fn spec_target_ok(target: Seq<char>) -> bool {
    is_prefix("http://"@, target) || is_prefix("https://"@, target)
}

fn starts_with_str(s: &str, p: &str) -> (r: bool)
    ensures
        r == is_prefix(p@, s@),
{
    let cs = crate::text::chars_of(s);
    let ps = crate::text::chars_of(p);
    crate::text::starts_with(cs.as_slice(), ps.as_slice())
}

/// Checks a route path.
pub fn validate_route_path(path: &str) -> (r: Result<(), AppError>)
    ensures
        r is Ok <==> spec_path_ok(path@),
        r matches Err(e) ==> (e matches AppError::BadRequest(m) && m@ == "Path must start with /"@),
{
    proof {
        reveal_strlit("/");
        if spec_path_ok(path@) {
            assert(path@.take(1) =~= "/"@);
        }
        if is_prefix("/"@, path@) {
            assert(path@.take(1)[0] == '/');
        }
    }
    if !starts_with_str(path, "/") {
        return Err(AppError::BadRequest(owned("Path must start with /")));
    }
    Ok(())
}

/// Checks a route target.
pub fn validate_route_target(target: &str) -> (r: Result<(), AppError>)
    ensures
        r is Ok <==> spec_target_ok(target@),
        r matches Err(e) ==> (e matches AppError::BadRequest(m) && m@ == "Target must be a valid HTTP(S) URL"@),
{
    if !starts_with_str(target, "http://") && !starts_with_str(target, "https://") {
        return Err(AppError::BadRequest(owned("Target must be a valid HTTP(S) URL")));
    }
    Ok(())
}

/// A new route needs a valid path, then a valid target.
pub fn validate_create_route(req: &CreateRouteRequest) -> (r: Result<(), AppError>)
    ensures
        r is Ok <==> spec_path_ok(req.path@) && spec_target_ok(req.target@),
        !spec_path_ok(req.path@) ==> (r matches Err(AppError::BadRequest(m)) && m@ == "Path must start with /"@),
        spec_path_ok(req.path@) && !spec_target_ok(req.target@) ==>
            (r matches Err(AppError::BadRequest(m)) && m@ == "Target must be a valid HTTP(S) URL"@),
{
    validate_route_path(req.path.as_str())?;
    validate_route_target(req.target.as_str())
}

/// An update is checked on the fields it sets: the path first, then the
/// target.
pub fn validate_update_route(req: &UpdateRouteRequest) -> (r: Result<(), AppError>)
    ensures
        r is Ok <==> (req.path matches Some(p) ==> spec_path_ok(p@)) && (req.target matches Some(t) ==> spec_target_ok(t@)),
        (req.path matches Some(p) && !spec_path_ok(p@)) ==>
            (r matches Err(AppError::BadRequest(m)) && m@ == "Path must start with /"@),
        !(req.path matches Some(p) && !spec_path_ok(p@)) && (req.target matches Some(t) && !spec_target_ok(t@)) ==>
            (r matches Err(AppError::BadRequest(m)) && m@ == "Target must be a valid HTTP(S) URL"@),
{
    if let Some(p) = &req.path {
        validate_route_path(p.as_str())?;
    }
    if let Some(t) = &req.target {
        validate_route_target(t.as_str())?;
    }
    Ok(())
}

/// `true` or `false`.
pub open spec fn bool_text(b: bool) -> Seq<char> {
    if b { "true"@ } else { "false"@ }
}

fn bool_string(b: bool) -> (r: String)
    ensures
        r@ == bool_text(b),
{
    if b { owned("true") } else { owned("false") }
}

/// A field an update changed, with its old and new value as text.
pub struct RouteChange {
    pub field: String,
    pub old_value: String,
    pub new_value: String,
}

pub open spec fn change_view(c: RouteChange) -> (Seq<char>, Seq<char>, Seq<char>) {
    (c.field@, c.old_value@, c.new_value@)
}

/// The changes an update makes to a route that are audited and announced,
/// in this order: path, target, active, WebSocket support; each only when
/// the update sets it to something else.
pub open spec fn spec_route_changes(old: ProxyRoute, req: UpdateRouteRequest) -> Seq<(Seq<char>, Seq<char>, Seq<char>)> {
    let s0 = Seq::<(Seq<char>, Seq<char>, Seq<char>)>::empty();
    let s1 = match req.path {
        Some(p) => if p@ != old.path@ { s0.push(("path"@, old.path@, p@)) } else { s0 },
        None => s0,
    };
    let s2 = match req.target {
        Some(t) => if t@ != old.target@ { s1.push(("target"@, old.target@, t@)) } else { s1 },
        None => s1,
    };
    let s3 = match req.active {
        Some(a) => if a != old.active { s2.push(("active"@, bool_text(old.active), bool_text(a))) } else { s2 },
        None => s2,
    };
    match req.websocket_support {
        Some(w) => if w != old.websocket_support {
            s3.push(("websocket_support"@, bool_text(old.websocket_support), bool_text(w)))
        } else {
            s3
        },
        None => s3,
    }
}

fn push_change(v: &mut Vec<RouteChange>, field: &str, old_value: String, new_value: String)
    ensures
        final(v)@.map_values(|c: RouteChange| change_view(c))
            == old(v)@.map_values(|c: RouteChange| change_view(c)).push((field@, old_value@, new_value@)),
{
    let ghost before = v@.map_values(|c: RouteChange| change_view(c));
    v.push(RouteChange { field: owned(field), old_value, new_value });
    assert(v@.map_values(|c: RouteChange| change_view(c)) =~= before.push((field@, old_value@, new_value@)));
}

pub fn route_changes(old: &ProxyRoute, req: &UpdateRouteRequest) -> (r: Vec<RouteChange>)
    ensures
        r@.map_values(|c: RouteChange| change_view(c)) == spec_route_changes(*old, *req),
{
    let mut v: Vec<RouteChange> = Vec::new();
    assert(v@.map_values(|c: RouteChange| change_view(c)) =~= Seq::<(Seq<char>, Seq<char>, Seq<char>)>::empty());
    if let Some(p) = &req.path {
        if !str_eq(p.as_str(), old.path.as_str()) {
            push_change(&mut v, "path", old.path.clone(), p.clone());
        }
    }
    if let Some(t) = &req.target {
        if !str_eq(t.as_str(), old.target.as_str()) {
            push_change(&mut v, "target", old.target.clone(), t.clone());
        }
    }
    if let Some(a) = req.active {
        if a != old.active {
            push_change(&mut v, "active", bool_string(old.active), bool_string(a));
        }
    }
    if let Some(w) = req.websocket_support {
        if w != old.websocket_support {
            push_change(&mut v, "websocket_support", bool_string(old.websocket_support), bool_string(w));
        }
    }
    v
}

/// How a change is announced: ``{field}: `{old}` → `{new}` ``.
pub open spec fn change_line(c: (Seq<char>, Seq<char>, Seq<char>)) -> Seq<char> {
    c.0 + ": `"@ + c.1 + "` → `"@ + c.2 + "`"@
}

/// The announcement of an update: the route, its id and one line per
/// change; nothing when nothing changed.
pub open spec fn spec_update_message(path: Seq<char>, id: i32, changes: Seq<(Seq<char>, Seq<char>, Seq<char>)>) -> Option<Seq<char>> {
    if changes.len() == 0 {
        None
    } else {
        Some("Route `"@ + path + "` (ID: "@ + decimal_int(id as int) + ") modified:\n"@
            + joined(changes.map_values(|c: (Seq<char>, Seq<char>, Seq<char>)| change_line(c)), "\n"@))
    }
}

pub fn route_update_message(path: &str, id: i32, changes: &Vec<RouteChange>) -> (r: Option<String>)
    ensures
        opt_view(r) == spec_update_message(path@, id, changes@.map_values(|c: RouteChange| change_view(c))),
{
    if changes.len() == 0 {
        return None;
    }
    let ghost cv = changes@.map_values(|c: RouteChange| change_view(c));
    let mut lines: Vec<String> = Vec::new();
    let mut i: usize = 0;
    while i < changes.len()
        invariant
            i <= changes.len(),
            cv == changes@.map_values(|c: RouteChange| change_view(c)),
            lines@.map_values(|s: String| s@) == cv.take(i as int).map_values(|c: (Seq<char>, Seq<char>, Seq<char>)| change_line(c)),
        decreases changes.len() - i,
    {
        let c = &changes[i];
        let mut l = c.field.clone();
        append_str(&mut l, ": `");
        append_str(&mut l, c.old_value.as_str());
        append_str(&mut l, "` → `");
        append_str(&mut l, c.new_value.as_str());
        append_str(&mut l, "`");
        let ghost before = lines@.map_values(|s: String| s@);
        lines.push(l);
        assert(cv[i as int] == change_view(changes@[i as int]));
        assert(cv.take(i + 1) =~= cv.take(i as int).push(cv[i as int]));
        assert(lines@.map_values(|s: String| s@) =~= before.push(change_line(cv[i as int])));
        assert(cv.take(i + 1).map_values(|c: (Seq<char>, Seq<char>, Seq<char>)| change_line(c))
            =~= cv.take(i as int).map_values(|c: (Seq<char>, Seq<char>, Seq<char>)| change_line(c)).push(change_line(cv[i as int])));
        i = i + 1;
    }
    assert(cv.take(changes.len() as int) =~= cv);
    let mut m = owned("Route `");
    append_str(&mut m, path);
    append_str(&mut m, "` (ID: ");
    let d = decimal_i64(id as i64);
    append_str(&mut m, d.as_str());
    append_str(&mut m, ") modified:\n");
    let body = join_with(&lines, "\n");
    append_str(&mut m, body.as_str());
    Some(m)
}

/// `{path} -> {target}`: how a route is written in the audit log.
pub fn route_audit_value(path: &str, target: &str) -> (r: String)
    ensures
        r@ == path@ + " -> "@ + target@,
{
    let mut s = owned(path);
    append_str(&mut s, " -> ");
    append_str(&mut s, target);
    s
}

/// The announcement of a new route.
pub fn route_created_message(path: &str, target: &str) -> (r: String)
    ensures
        r@ == "New route added: `"@ + path@ + "` → `"@ + target@ + "`"@,
{
    let mut s = owned("New route added: `");
    append_str(&mut s, path);
    append_str(&mut s, "` → `");
    append_str(&mut s, target);
    append_str(&mut s, "`");
    s
}

/// The announcement of a removed route.
pub fn route_deleted_message(path: &str, target: &str) -> (r: String)
    ensures
        r@ == "Route removed: `"@ + path@ + "` → `"@ + target@ + "`"@,
{
    let mut s = owned("Route removed: `");
    append_str(&mut s, path);
    append_str(&mut s, "` → `");
    append_str(&mut s, target);
    append_str(&mut s, "`");
    s
}

/// What a deletion of route `id` would remove.
pub open spec fn spec_route_target(id: i32, route: Option<(Seq<char>, Seq<char>)>) -> Seq<char> {
    match route {
        Some((p, t)) => "route #"@ + decimal_int(id as int) + " ("@ + p + " → "@ + t + ")"@,
        None => "route #"@ + decimal_int(id as int),
    }
}

pub open spec fn route_ends(r: Option<ProxyRoute>) -> Option<(Seq<char>, Seq<char>)> {
    match r {
        Some(x) => Some((x.path@, x.target@)),
        None => None,
    }
}

/// The confirmation a route deletion asks for before it is done.
pub fn route_delete_confirmation(id: i32, route: &Option<ProxyRoute>) -> (c: ConfirmRequired)
    ensures
        c.action@ == "delete_route"@,
        c.target@ == spec_route_target(id, route_ends(*route)),
        c.warning@ == "This will remove the proxy route. Active connections will be dropped."@,
        c.confirm_required,
{
    let mut t = owned("route #");
    let d = decimal_i64(id as i64);
    append_str(&mut t, d.as_str());
    if let Some(r) = route {
        append_str(&mut t, " (");
        append_str(&mut t, r.path.as_str());
        append_str(&mut t, " → ");
        append_str(&mut t, r.target.as_str());
        append_str(&mut t, ")");
    }
    confirm_required("delete_route", t.as_str(), owned("This will remove the proxy route. Active connections will be dropped."))
}

/// `Route {id} not found`.
pub fn route_not_found(id: i32) -> (r: AppError)
    ensures
        r matches AppError::NotFound(m) && m@ == "Route "@ + decimal_int(id as int) + " not found"@,
{
    let mut m = owned("Route ");
    let d = decimal_i64(id as i64);
    append_str(&mut m, d.as_str());
    append_str(&mut m, " not found");
    AppError::NotFound(m)
}

/// The host part of a URL, as the `url` crate parses it; nothing when the
/// text is no URL or has no host.
pub uninterp spec fn url_host(s: Seq<char>) -> Option<Seq<char>>;

/// `url::Url::parse` and then `Url::host_str`: the host of a URL. Nothing
/// is claimed of which host that is beyond its being a function of the
/// text.
#[verifier::external_body]
fn parse_url_host(s: &str) -> (r: Option<String>)
    ensures
        opt_view(r) == url_host(s@),
{
    match url::Url::parse(s) {
        Ok(u) => match u.host_str() {
            Some(h) => Some(h.to_string()),
            None => None,
        },
        Err(_) => None,
    }
}

/// The host a route forwards to.
pub fn route_target_host(target: &str) -> (r: Option<String>)
    ensures
        opt_view(r) == url_host(target@),
{
    parse_url_host(target)
}

/// `ip` lies in the /24 network of `net` (IPv4: the first three numbers;
/// IPv6: the first 24 bits); addresses of different families never match.
pub open spec fn spec_in_subnet24(net: IpAddress, ip: IpAddress) -> bool {
    match (net, ip) {
        (IpAddress::V4(a, b, c, _), IpAddress::V4(x, y, z, _)) => a == x && b == y && c == z,
        (IpAddress::V6(n), IpAddress::V6(s)) => n[0] == s[0] && n[1] / 256 == s[1] / 256,
        _ => false,
    }
}

pub fn in_subnet24(net: &IpAddress, ip: &IpAddress) -> (r: bool)
    ensures
        r == spec_in_subnet24(*net, *ip),
{
    match (net, ip) {
        (IpAddress::V4(a, b, c, _), IpAddress::V4(x, y, z, _)) => *a == *x && *b == *y && *c == *z,
        (IpAddress::V6(n), IpAddress::V6(s)) => n[0] == s[0] && n[1] / 256 == s[1] / 256,
        _ => false,
    }
}

/// A gateway device whose /24 network holds the target.
pub open spec fn gateway_holds(dev: OmadaDeviceDoc, dev_ip: Option<IpAddress>, target: IpAddress) -> bool {
    &&& dev.device_type@ == "gateway"@
    &&& dev.ip is Some
    &&& dev_ip matches Some(a) && spec_in_subnet24(a, target)
}

/// The first gateway, in the order given, whose /24 network holds the
/// route's target; `device_ips[i]` is device `i`'s address when it reads
/// as one.
pub fn route_gateway(target: &Option<IpAddress>, devices: &Vec<OmadaDeviceDoc>, device_ips: &Vec<Option<IpAddress>>) -> (r: Option<usize>)
    requires
        device_ips.len() == devices.len(),
    ensures
        match r {
            Some(i) => i < devices.len() && (*target matches Some(t) && gateway_holds(devices@[i as int], device_ips@[i as int], t)
                && forall|k: int| 0 <= k < i ==> !gateway_holds(#[trigger] devices@[k], device_ips@[k], t)),
            None => *target matches Some(t) ==> forall|k: int| 0 <= k < devices.len() ==> !gateway_holds(#[trigger] devices@[k], device_ips@[k], t),
        },
{
    let t = match target {
        Some(t) => t,
        None => return None,
    };
    let mut i: usize = 0;
    while i < devices.len()
        invariant
            i <= devices.len(),
            device_ips.len() == devices.len(),
            *target == Some(*t),
            forall|k: int| 0 <= k < i ==> !gateway_holds(#[trigger] devices@[k], device_ips@[k], *t),
        decreases devices.len() - i,
    {
        let d = &devices[i];
        if str_eq(d.device_type.as_str(), "gateway") && d.ip.is_some() {
            if let Some(a) = &device_ips[i] {
                if in_subnet24(a, t) {
                    return Some(i);
                }
            }
        }
        i = i + 1;
    }
    None
}

/// The facility and tenant of a site: those of the site with that id in
/// the first controller with that id.
pub fn site_tenant(controllers: &Vec<OmadaControllerDoc>, controller_id: &str, site_id: &str) -> (r: (Option<String>, Option<String>))
    ensures
        match site_of(controllers@, controller_id@, site_id@) {
            Some(s) => r.0 == s.fid && r.1 == s.tid,
            None => r.0 is None && r.1 is None,
        },
{
    match find_controller(controllers, controller_id) {
        Some(ci) => match find_site(&controllers[ci].sites, site_id) {
            Some(si) => {
                let s = &controllers[ci].sites[si];
                (crate::node_order::clone_opt(&s.fid), crate::node_order::clone_opt(&s.tid))
            },
            None => (None, None),
        },
        None => (None, None),
    }
}

/// The route an update stores: each field the update names replaces the
/// stored one, except WebSocket support, which the update does not store;
/// the id and times stay.
pub open spec fn spec_route_updated(r: ProxyRoute, u: UpdateRouteRequest) -> ProxyRoute {
    ProxyRoute {
        path: match u.path { Some(p) => p, None => r.path },
        target: match u.target { Some(t) => t, None => r.target },
        ddns_config_id: match u.ddns_config_id { Some(d) => d, None => r.ddns_config_id },
        priority: match u.priority { Some(p) => p, None => r.priority },
        active: match u.active { Some(a) => a, None => r.active },
        strip_prefix: match u.strip_prefix { Some(s) => s, None => r.strip_prefix },
        preserve_host: match u.preserve_host { Some(p) => p, None => r.preserve_host },
        timeout_ms: match u.timeout_ms { Some(t) => t, None => r.timeout_ms },
        ..r
    }
}

pub fn apply_route_update(r: &ProxyRoute, u: &UpdateRouteRequest) -> (n: ProxyRoute)
    ensures
        n == spec_route_updated(*r, *u),
        u.path matches Some(p) ==> n.path == p,
        u.path is None ==> n.path == r.path,
        u.target matches Some(t) ==> n.target == t,
        u.target is None ==> n.target == r.target,
        u.ddns_config_id matches Some(d) ==> n.ddns_config_id == d,
        u.ddns_config_id is None ==> n.ddns_config_id == r.ddns_config_id,
        u.priority matches Some(p) ==> n.priority == p,
        u.priority is None ==> n.priority == r.priority,
        u.active matches Some(a) ==> n.active == a,
        u.active is None ==> n.active == r.active,
        u.strip_prefix matches Some(b) ==> n.strip_prefix == b,
        u.strip_prefix is None ==> n.strip_prefix == r.strip_prefix,
        u.preserve_host matches Some(b) ==> n.preserve_host == b,
        u.preserve_host is None ==> n.preserve_host == r.preserve_host,
        u.timeout_ms matches Some(t) ==> n.timeout_ms == t,
        u.timeout_ms is None ==> n.timeout_ms == r.timeout_ms,
        n.id == r.id && n.websocket_support == r.websocket_support,
        n.created_at == r.created_at && n.updated_at == r.updated_at,
{
    ProxyRoute {
        id: r.id,
        path: match &u.path { Some(p) => p.clone(), None => r.path.clone() },
        target: match &u.target { Some(t) => t.clone(), None => r.target.clone() },
        ddns_config_id: match u.ddns_config_id { Some(d) => d, None => r.ddns_config_id },
        priority: match u.priority { Some(p) => p, None => r.priority },
        active: match u.active { Some(a) => a, None => r.active },
        strip_prefix: match u.strip_prefix { Some(s) => s, None => r.strip_prefix },
        preserve_host: match u.preserve_host { Some(p) => p, None => r.preserve_host },
        timeout_ms: match u.timeout_ms { Some(t) => t, None => r.timeout_ms },
        websocket_support: r.websocket_support,
        created_at: r.created_at,
        updated_at: r.updated_at,
    }
}

/// An update stores every field it names and keeps every field it leaves
/// out; the id, the WebSocket flag and the timestamps are never changed.
pub proof fn lemma_route_update_sets_named_fields(r: ProxyRoute, u: UpdateRouteRequest)
    ensures
        u.path matches Some(p) ==> spec_route_updated(r, u).path == p,
        u.path is None ==> spec_route_updated(r, u).path == r.path,
        u.target matches Some(t) ==> spec_route_updated(r, u).target == t,
        u.target is None ==> spec_route_updated(r, u).target == r.target,
        u.ddns_config_id matches Some(d) ==> spec_route_updated(r, u).ddns_config_id == d,
        u.ddns_config_id is None ==> spec_route_updated(r, u).ddns_config_id == r.ddns_config_id,
        u.priority matches Some(p) ==> spec_route_updated(r, u).priority == p,
        u.priority is None ==> spec_route_updated(r, u).priority == r.priority,
        u.active matches Some(a) ==> spec_route_updated(r, u).active == a,
        u.active is None ==> spec_route_updated(r, u).active == r.active,
        u.strip_prefix matches Some(b) ==> spec_route_updated(r, u).strip_prefix == b,
        u.strip_prefix is None ==> spec_route_updated(r, u).strip_prefix == r.strip_prefix,
        u.preserve_host matches Some(b) ==> spec_route_updated(r, u).preserve_host == b,
        u.preserve_host is None ==> spec_route_updated(r, u).preserve_host == r.preserve_host,
        u.timeout_ms matches Some(t) ==> spec_route_updated(r, u).timeout_ms == t,
        u.timeout_ms is None ==> spec_route_updated(r, u).timeout_ms == r.timeout_ms,
        spec_route_updated(r, u).id == r.id && spec_route_updated(r, u).websocket_support == r.websocket_support,
        spec_route_updated(r, u).created_at == r.created_at && spec_route_updated(r, u).updated_at == r.updated_at,
{
}

/// Storing the same update twice stores what storing it once did.
pub proof fn lemma_route_update_idempotent(r: ProxyRoute, u: UpdateRouteRequest)
    ensures
        spec_route_updated(spec_route_updated(r, u), u) == spec_route_updated(r, u),
{
}

/// An update that names no field leaves the route as it is.
pub proof fn lemma_empty_route_update(r: ProxyRoute, u: UpdateRouteRequest)
    requires
        u.path is None && u.target is None && u.ddns_config_id is None && u.priority is None && u.active is None
            && u.strip_prefix is None && u.preserve_host is None && u.timeout_ms is None && u.websocket_support is None,
    ensures
        spec_route_updated(r, u) == r,
        spec_route_changes(r, u).len() == 0,
{
}

/// The host of a route target: the URL's host when it reads as a URL;
/// else the text without its `http://` and `https://`, up to the first `/`,
/// then up to the first `:`.
pub open spec fn spec_target_ip(url: Seq<char>) -> Seq<char> {
    match url_host(url) {
        Some(h) => h,
        None => split_on(split_on(remove_all(remove_all(url, "http://"@), "https://"@), '/')[0], ':')[0],
    }
}

pub fn extract_ip_from_url(url: &str) -> (r: String)
    ensures
        r@ == spec_target_ip(url@),
{
    if let Some(h) = parse_url_host(url) {
        return h;
    }
    proof {
        reveal_strlit("http://");
        reveal_strlit("https://");
    }
    let a = remove_all_of(url, "http://");
    let b = remove_all_of(a.as_str(), "https://");
    let by_slash = split_str(b.as_str(), '/');
    proof {
        lemma_split_nonempty(b@, '/');
    }
    let ghost sv = by_slash@.map_values(|p: String| p@);
    assert(sv[0] == by_slash@[0]@);
    let by_colon = split_str(by_slash[0].as_str(), ':');
    proof {
        lemma_split_nonempty(by_slash@[0]@, ':');
    }
    let ghost cv = by_colon@.map_values(|p: String| p@);
    assert(cv[0] == by_colon@[0]@);
    by_colon[0].clone()
}

} // verus!
