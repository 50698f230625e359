//! Dynamic DNS: finding the public address, the requests each provider
//! takes and how its answers are read, and which names need an update.

use vstd::prelude::*;
use crate::diagnostics::{join_with, joined};
use crate::models::{DdnsConfig, DdnsProvider, DdnsStatus, UpdateDdnsRequest};
use crate::node_order::clone_opt;
use crate::topology::or_keep;
use crate::node_order::opt_view;
use crate::seqs::keep_where;
use crate::text::{
    append_str, chars_of, contains_char, owned, parse_u8, parsed_in_range, decimal_i64,
    decimal_int, split_on, split_str, str_eq, trim_str, trimmed, words, words_of,
};

verus! {

/// The services asked for the public address, in order.
pub open spec fn ip_services() -> Seq<Seq<char>> {
    seq!["https://api.ipify.org"@, "https://ifconfig.me/ip"@, "https://icanhazip.com"@]
}

pub fn public_ip_services() -> (r: Vec<String>)
    ensures
        r@.map_values(|s: String| s@) == ip_services(),
{
    let mut r: Vec<String> = Vec::new();
    r.push(owned("https://api.ipify.org"));
    r.push(owned("https://ifconfig.me/ip"));
    r.push(owned("https://icanhazip.com"));
    assert(r@.map_values(|s: String| s@) =~= ip_services());
    r
}

/// A plausible address: four dot-separated numbers of at most 255, or any
/// text with a colon.
pub open spec fn spec_valid_ip(s: Seq<char>) -> bool {
    let parts = split_on(s, '.');
    if parts.len() == 4 {
        forall|i: int| 0 <= i < 4 ==> #[trigger] parsed_in_range(parts[i], false, 0, 255) is Some
    } else {
        s.contains(':')
    }
}

pub fn is_valid_ip(ip: &str) -> (r: bool)
    ensures
        r == spec_valid_ip(ip@),
{
    let parts = split_str(ip, '.');
    let ghost pv = parts@.map_values(|p: String| p@);
    assert(pv.len() == parts.len());
    if parts.len() == 4 {
        let mut i: usize = 0;
        while i < 4
            invariant
                i <= 4,
                parts.len() == 4,
                pv == parts@.map_values(|p: String| p@),
                pv == split_on(ip@, '.'),
                forall|k: int| 0 <= k < i ==> #[trigger] parsed_in_range(pv[k], false, 0, 255) is Some,
            decreases 4 - i,
        {
            assert(pv[i as int] == parts@[i as int]@);
            if parse_u8(parts[i].as_str()).is_none() {
                return false;
            }
            i = i + 1;
        }
        return true;
    }
    let cs = chars_of(ip);
    contains_char(cs.as_slice(), ':')
}

/// What to do next while looking for the public address.
pub enum PublicIpStep {
    /// Fetch this service's answer and report it (or nothing, when the
    /// request failed or was not answered with success).
    Ask(String),
    /// The public address.
    Found(String),
    /// No service gave a plausible address.
    GaveUp(String),
}

/// The address in the reply of the service last asked, if any: the reply
/// trimmed, when that is plausible.
pub open spec fn reply_ip(asked: nat, reply: Option<Seq<char>>) -> Option<Seq<char>> {
    match reply {
        Some(b) => if asked > 0 && spec_valid_ip(trimmed(b)) { Some(trimmed(b)) } else { None },
        None => None,
    }
}

/// After `asked` services were asked, the last of them answering `reply`:
/// a plausible answer is the address; else the next service is asked;
/// after the last, the search fails.
pub fn public_ip_step(asked: usize, reply: &Option<String>) -> (r: PublicIpStep)
    ensures
        match reply_ip(asked as nat, opt_view(*reply)) {
            Some(ip) => (r matches PublicIpStep::Found(f) && f@ == ip),
            None => if asked < 3 {
                (r matches PublicIpStep::Ask(url) && url@ == ip_services()[asked as int])
            } else {
                (r matches PublicIpStep::GaveUp(e) && e@ == "Failed to get public IP from all services"@)
            },
        },
{
    if asked > 0 {
        if let Some(body) = reply {
            let ip = trim_str(body.as_str());
            if is_valid_ip(ip.as_str()) {
                return PublicIpStep::Found(ip);
            }
        }
    }
    if asked < 3 {
        let services = public_ip_services();
        let ghost sv = services@.map_values(|s: String| s@);
        assert(sv.len() == services@.len());
        assert(ip_services().len() == 3);
        assert(sv[asked as int] == services@[asked as int]@);
        let url = services[asked].clone();
        PublicIpStep::Ask(url)
    } else {
        PublicIpStep::GaveUp(owned("Failed to get public IP from all services"))
    }
}

/// How a provider introduces itself.
pub open spec fn provider_label(p: DdnsProvider) -> Seq<char> {
    match p {
        DdnsProvider::DynDns => "DynDNS"@,
        DdnsProvider::NoIp => "No-IP"@,
        DdnsProvider::Cloudflare => "Cloudflare"@,
    }
}

pub fn provider_display_name(p: DdnsProvider) -> (r: &'static str)
    ensures
        r@ == provider_label(p),
{
    match p {
        DdnsProvider::DynDns => "DynDNS",
        DdnsProvider::NoIp => "No-IP",
        DdnsProvider::Cloudflare => "Cloudflare",
    }
}

/// The user agent a provider's update request is sent with.
pub open spec fn spec_user_agent(p: DdnsProvider) -> Seq<char> {
    match p {
        DdnsProvider::NoIp => "LacisProxyGateway2/1.0 hideaki@example.com"@,
        _ => "LacisProxyGateway2/1.0"@,
    }
}

pub fn user_agent(p: DdnsProvider) -> (r: &'static str)
    ensures
        r@ == spec_user_agent(p),
{
    match p {
        DdnsProvider::NoIp => "LacisProxyGateway2/1.0 hideaki@example.com",
        _ => "LacisProxyGateway2/1.0",
    }
}

/// The user name and password that DynDNS and No-IP updates are
/// authenticated with; both must be set.
pub fn basic_credentials(config: &DdnsConfig) -> (r: Result<(String, String), String>)
    ensures
        match r {
            Ok((u, p)) => config.username == Some(u) && config.password == Some(p),
            Err(e) => match config.username {
                None => e@ == "Username required for "@ + provider_label(config.provider),
                Some(_) => config.password is None && e@ == "Password required for "@
                    + provider_label(config.provider),
            },
        },
{
    let label = provider_display_name(config.provider);
    match &config.username {
        None => {
            let mut e = owned("Username required for ");
            append_str(&mut e, label);
            Err(e)
        },
        Some(u) => match &config.password {
            None => {
                let mut e = owned("Password required for ");
                append_str(&mut e, label);
                Err(e)
            },
            Some(p) => Ok((u.clone(), p.clone())),
        },
    }
}

/// The update request of the `nic/update` protocol on `host`.
pub open spec fn nic_update_url(host: Seq<char>, hostname: Seq<char>, ip: Seq<char>) -> Seq<char> {
    "https://"@ + host + "/nic/update?hostname="@ + hostname + "&myip="@ + ip
}

fn nic_update(host: &str, hostname: &str, ip: &str) -> (r: String)
    ensures
        r@ == nic_update_url(host@, hostname@, ip@),
{
    let mut u = owned("https://");
    append_str(&mut u, host);
    append_str(&mut u, "/nic/update?hostname=");
    append_str(&mut u, hostname);
    append_str(&mut u, "&myip=");
    append_str(&mut u, ip);
    u
}

/// The DynDNS update request for `hostname` and `ip`.
pub fn dyndns_update_url(hostname: &str, ip: &str) -> (r: String)
    ensures
        r@ == nic_update_url("members.dyndns.org"@, hostname@, ip@),
{
    nic_update("members.dyndns.org", hostname, ip)
}

/// The No-IP update request for `hostname` and `ip`.
pub fn noip_update_url(hostname: &str, ip: &str) -> (r: String)
    ensures
        r@ == nic_update_url("dynupdate.no-ip.com"@, hostname@, ip@),
{
    nic_update("dynupdate.no-ip.com", hostname, ip)
}

/// The first word of an answer, or nothing.
pub open spec fn answer_code(body: Seq<char>) -> Seq<char> {
    if words(body).len() > 0 { words(body)[0] } else { Seq::empty() }
}

fn first_word(body: &str) -> (r: String)
    ensures
        r@ == answer_code(body@),
{
    let ws = words_of(body);
    let ghost wv = ws@.map_values(|w: String| w@);
    assert(wv.len() == ws@.len());
    if ws.len() > 0 {
        assert(wv[0] == ws@[0]@);
        ws[0].clone()
    } else {
        String::new()
    }
}

/// How DynDNS answers are read: `good` and `nochg` are success, the known
/// error codes have their explanation, anything else is unknown.
pub open spec fn dyndns_verdict_of(body: Seq<char>) -> Result<(), Seq<char>> {
    let code = answer_code(body);
    if code == "good"@ || code == "nochg"@ {
        Ok(())
    } else if code == "badauth"@ {
        Err("Bad authentication credentials"@)
    } else if code == "notfqdn"@ {
        Err("Hostname is not a fully qualified domain name"@)
    } else if code == "nohost"@ {
        Err("Hostname does not exist in your account"@)
    } else if code == "numhost"@ {
        Err("Too many hosts or aliases"@)
    } else if code == "abuse"@ {
        Err("Hostname has been blocked due to abuse"@)
    } else if code == "dnserr"@ {
        Err("DNS error on server side"@)
    } else if code == "911"@ {
        Err("DynDNS server error"@)
    } else {
        Err("Unknown response: "@ + body)
    }
}

/// How No-IP answers are read.
pub open spec fn noip_verdict_of(body: Seq<char>) -> Result<(), Seq<char>> {
    let code = answer_code(body);
    if code == "good"@ || code == "nochg"@ {
        Ok(())
    } else if code == "badauth"@ {
        Err("Bad authentication credentials"@)
    } else if code == "nohost"@ {
        Err("Hostname does not exist"@)
    } else if code == "badagent"@ {
        Err("Bad user agent - update client"@)
    } else if code == "abuse"@ {
        Err("Hostname has been blocked due to abuse"@)
    } else if code == "!donator"@ {
        Err("Feature not available for free accounts"@)
    } else if code == "911"@ {
        Err("No-IP server error"@)
    } else {
        Err("Unknown response: "@ + body)
    }
}

pub open spec fn verdict_view(r: Result<(), String>) -> Result<(), Seq<char>> {
    match r {
        Ok(()) => Ok(()),
        Err(e) => Err(e@),
    }
}

fn unknown_response(body: &str) -> (r: Result<(), String>)
    ensures
        verdict_view(r) == Err::<(), Seq<char>>("Unknown response: "@ + body@),
{
    let mut e = owned("Unknown response: ");
    append_str(&mut e, body);
    Err(e)
}

/// Reads the answer of a DynDNS update.
pub fn dyndns_verdict(body: &str) -> (r: Result<(), String>)
    ensures
        verdict_view(r) == dyndns_verdict_of(body@),
{
    let w = first_word(body);
    let code = w.as_str();
    if str_eq(code, "good") || str_eq(code, "nochg") {
        Ok(())
    } else if str_eq(code, "badauth") {
        Err(owned("Bad authentication credentials"))
    } else if str_eq(code, "notfqdn") {
        Err(owned("Hostname is not a fully qualified domain name"))
    } else if str_eq(code, "nohost") {
        Err(owned("Hostname does not exist in your account"))
    } else if str_eq(code, "numhost") {
        Err(owned("Too many hosts or aliases"))
    } else if str_eq(code, "abuse") {
        Err(owned("Hostname has been blocked due to abuse"))
    } else if str_eq(code, "dnserr") {
        Err(owned("DNS error on server side"))
    } else if str_eq(code, "911") {
        Err(owned("DynDNS server error"))
    } else {
        unknown_response(body)
    }
}

/// Reads the answer of a No-IP update.
pub fn noip_verdict(body: &str) -> (r: Result<(), String>)
    ensures
        verdict_view(r) == noip_verdict_of(body@),
{
    let w = first_word(body);
    let code = w.as_str();
    if str_eq(code, "good") || str_eq(code, "nochg") {
        Ok(())
    } else if str_eq(code, "badauth") {
        Err(owned("Bad authentication credentials"))
    } else if str_eq(code, "nohost") {
        Err(owned("Hostname does not exist"))
    } else if str_eq(code, "badagent") {
        Err(owned("Bad user agent - update client"))
    } else if str_eq(code, "abuse") {
        Err(owned("Hostname has been blocked due to abuse"))
    } else if str_eq(code, "!donator") {
        Err(owned("Feature not available for free accounts"))
    } else if str_eq(code, "911") {
        Err(owned("No-IP server error"))
    } else {
        unknown_response(body)
    }
}

/// The API token and zone that Cloudflare updates need; both must be set.
pub fn cloudflare_credentials(config: &DdnsConfig) -> (r: Result<(String, String), String>)
    ensures
        match r {
            Ok((t, z)) => config.api_token == Some(t) && config.zone_id == Some(z),
            Err(e) => match config.api_token {
                None => e@ == "API token required for Cloudflare"@,
                Some(_) => config.zone_id is None && e@ == "Zone ID required for Cloudflare"@,
            },
        },
{
    match &config.api_token {
        None => Err(owned("API token required for Cloudflare")),
        Some(t) => match &config.zone_id {
            None => Err(owned("Zone ID required for Cloudflare")),
            Some(z) => Ok((t.clone(), z.clone())),
        },
    }
}

/// The DNS record type of an address: `AAAA` when it has a colon, else `A`.
pub open spec fn spec_record_type(ip: Seq<char>) -> Seq<char> {
    if ip.contains(':') { "AAAA"@ } else { "A"@ }
}

/// The DNS record a Cloudflare update writes.
pub struct CloudflareDnsRecord {
    pub record_type: String,
    pub name: String,
    pub content: String,
    pub ttl: u32,
    pub proxied: bool,
}

/// The record that points `hostname` at `ip`: its type from the address,
/// automatic TTL (1), not proxied.
pub fn cloudflare_record(hostname: &str, ip: &str) -> (r: CloudflareDnsRecord)
    ensures
        r.record_type@ == spec_record_type(ip@),
        r.name@ == hostname@,
        r.content@ == ip@,
        r.ttl == 1,
        !r.proxied,
{
    let cs = chars_of(ip);
    let record_type = if contains_char(cs.as_slice(), ':') { owned("AAAA") } else { owned("A") };
    CloudflareDnsRecord { record_type, name: owned(hostname), content: owned(ip), ttl: 1, proxied: false }
}

/// The records of `zone` named `hostname`.
pub fn cloudflare_records_url(zone_id: &str, hostname: &str) -> (r: String)
    ensures
        r@ == "https://api.cloudflare.com/client/v4/zones/"@ + zone_id@ + "/dns_records?name="@ + hostname@,
{
    let mut u = owned("https://api.cloudflare.com/client/v4/zones/");
    append_str(&mut u, zone_id);
    append_str(&mut u, "/dns_records?name=");
    append_str(&mut u, hostname);
    u
}

/// The record `record_id` of `zone`.
pub fn cloudflare_record_url(zone_id: &str, record_id: &str) -> (r: String)
    ensures
        r@ == "https://api.cloudflare.com/client/v4/zones/"@ + zone_id@ + "/dns_records/"@ + record_id@,
{
    let mut u = owned("https://api.cloudflare.com/client/v4/zones/");
    append_str(&mut u, zone_id);
    append_str(&mut u, "/dns_records/");
    append_str(&mut u, record_id);
    u
}

/// `Bearer {token}`.
pub fn bearer_header(token: &str) -> (r: String)
    ensures
        r@ == "Bearer "@ + token@,
{
    let mut h = owned("Bearer ");
    append_str(&mut h, token);
    h
}

pub open spec fn cloudflare_error_of(messages: Seq<Seq<char>>) -> Seq<char> {
    "Cloudflare error: "@ + joined(messages, ", "@)
}

/// `Cloudflare error: ` and the error messages, comma-separated.
pub fn cloudflare_error(messages: &Vec<String>) -> (r: String)
    ensures
        r@ == cloudflare_error_of(messages@.map_values(|m: String| m@)),
{
    let mut e = owned("Cloudflare error: ");
    let j = join_with(messages, ", ");
    append_str(&mut e, j.as_str());
    e
}

/// The record to update, from the answer to the record listing: a failed
/// answer is its errors; else the first record listed, if there is one.
pub fn record_id_from_listing(
    success: bool,
    errors: &Vec<String>,
    ids: &Option<Vec<String>>,
    hostname: &str,
) -> (r: Result<String, String>)
    ensures
        !success ==> (r matches Err(e) && e@ == cloudflare_error_of(errors@.map_values(|m: String| m@))),
        success && ids.is_some() && ids.unwrap().len() > 0 ==> r == Ok::<String, String>(ids.unwrap()[0]),
        success && !(ids.is_some() && ids.unwrap().len() > 0) ==>
            (r matches Err(e) && e@ == "DNS record not found for "@ + hostname@),
{
    if !success {
        return Err(cloudflare_error(errors));
    }
    if let Some(v) = ids {
        if v.len() > 0 {
            return Ok(v[0].clone());
        }
    }
    let mut e = owned("DNS record not found for ");
    append_str(&mut e, hostname);
    Err(e)
}

/// The outcome of a record update: its errors when it failed.
pub fn cloudflare_update_outcome(success: bool, errors: &Vec<String>) -> (r: Result<(), String>)
    ensures
        success ==> r is Ok,
        !success ==> (r matches Err(e) && e@ == cloudflare_error_of(errors@.map_values(|m: String| m@))),
{
    if success { Ok(()) } else { Err(cloudflare_error(errors)) }
}

/// A name needs an update unless the address it last got is the current
/// one.
pub open spec fn spec_needs_update(last_ip: Option<Seq<char>>, current: Seq<char>) -> bool {
    last_ip != Some(current)
}

pub fn needs_update(last_ip: &Option<String>, current_ip: &str) -> (r: bool)
    ensures
        r == spec_needs_update(opt_view(*last_ip), current_ip@),
{
    match last_ip {
        Some(l) => !str_eq(l.as_str(), current_ip),
        None => true,
    }
}

/// The positions, in order, of the configurations whose name needs an
/// update to `current_ip`.
pub fn configs_to_update(configs: &Vec<DdnsConfig>, current_ip: &str) -> (r: Vec<usize>)
    ensures
        forall|k: int| 0 <= k < r.len() ==> #[trigger] r@[k] < configs.len(),
        forall|a: int, b: int| 0 <= a < b < r.len() ==> r@[a] < r@[b],
        forall|i: int| 0 <= i < configs.len() ==>
            (r@.contains(i as usize) <==> spec_needs_update(opt_view(#[trigger] configs@[i].last_ip), current_ip@)),
{
    let mut r: Vec<usize> = Vec::new();
    let mut i: usize = 0;
    while i < configs.len()
        invariant
            i <= configs.len(),
            forall|k: int| 0 <= k < r.len() ==> #[trigger] r@[k] < i,
            forall|a: int, b: int| 0 <= a < b < r.len() ==> r@[a] < r@[b],
            forall|j: int| 0 <= j < i ==>
                (r@.contains(j as usize) <==> spec_needs_update(opt_view(#[trigger] configs@[j].last_ip), current_ip@)),
        decreases configs.len() - i,
    {
        let ghost before = r@;
        if needs_update(&configs[i].last_ip, current_ip) {
            r.push(i);
            proof {
                assert forall|j: int| 0 <= j < i implies
                    (r@.contains(j as usize) <==> #[trigger] before.contains(j as usize)) by {
                    if r@.contains(j as usize) {
                        let k = choose|k: int| 0 <= k < r@.len() && r@[k] == j as usize;
                        if k < before.len() {
                            assert(before[k] == j as usize);
                        }
                    }
                    if before.contains(j as usize) {
                        let k = choose|k: int| 0 <= k < before.len() && before[k] == j as usize;
                        assert(r@[k] == j as usize);
                    }
                }
                assert(r@[r@.len() - 1] == i);
            }
        } else {
            proof {
                assert(!r@.contains(i)) by {
                    if r@.contains(i) {
                        let k = choose|k: int| 0 <= k < r@.len() && r@[k] == i;
                        assert(r@[k] < i);
                    }
                }
            }
        }
        i = i + 1;
    }
    r
}

/// `DDNS config {id} not found`.
pub fn ddns_config_not_found(id: i32) -> (r: String)
    ensures
        r@ == "DDNS config "@ + decimal_int(id as int) + " not found"@,
{
    let mut m = owned("DDNS config ");
    let d = decimal_i64(id as i64);
    append_str(&mut m, d.as_str());
    append_str(&mut m, " not found");
    m
}

/// A configuration after a stored update: the fields the update names
/// replace the stored ones; provider, addresses and times stay.
pub open spec fn spec_ddns_updated(c: DdnsConfig, u: UpdateDdnsRequest) -> DdnsConfig {
    DdnsConfig {
        hostname: match u.hostname { Some(h) => h, None => c.hostname },
        username: or_keep(u.username, c.username),
        password: or_keep(u.password, c.password),
        api_token: or_keep(u.api_token, c.api_token),
        zone_id: or_keep(u.zone_id, c.zone_id),
        update_interval_sec: match u.update_interval_sec { Some(v) => v, None => c.update_interval_sec },
        status: match u.status { Some(s) => s, None => c.status },
        ..c
    }
}

fn keep_or(new: &Option<String>, kept: &Option<String>) -> (r: Option<String>)
    ensures
        r == or_keep(*new, *kept),
{
    if new.is_some() { clone_opt(new) } else { clone_opt(kept) }
}

pub fn apply_ddns_update(c: &DdnsConfig, u: &UpdateDdnsRequest) -> (r: DdnsConfig)
    ensures
        r == spec_ddns_updated(*c, *u),
{
    let mut r = c.copy();
    if let Some(h) = &u.hostname {
        r.hostname = h.clone();
    }
    r.username = keep_or(&u.username, &c.username);
    r.password = keep_or(&u.password, &c.password);
    r.api_token = keep_or(&u.api_token, &c.api_token);
    r.zone_id = keep_or(&u.zone_id, &c.zone_id);
    if let Some(v) = u.update_interval_sec {
        r.update_interval_sec = v;
    }
    if let Some(s) = u.status {
        r.status = s;
    }
    r
}

/// A configuration after an update reached the provider: the address it
/// now has, when, the status and the error (if any).
pub open spec fn spec_ip_recorded(c: DdnsConfig, ip: String, status: DdnsStatus, error: Option<String>, now: i64) -> DdnsConfig {
    DdnsConfig { last_ip: Some(ip), last_update: Some(now), status, last_error: error, ..c }
}

pub fn record_ddns_ip(c: &DdnsConfig, ip: &str, status: DdnsStatus, error: &Option<String>, now: i64) -> (r: DdnsConfig)
    ensures
        r == spec_ip_recorded(*c, r.last_ip.unwrap(), status, *error, now),
        r.last_ip matches Some(l) && l@ == ip@,
{
    let mut r = c.copy();
    r.last_ip = Some(owned(ip));
    r.last_update = Some(now);
    r.status = status;
    r.last_error = clone_opt(error);
    r
}

/// A configuration after a failed update: status `error` and the message.
pub fn record_ddns_error(c: &DdnsConfig, error: &str) -> (r: DdnsConfig)
    ensures
        r == (DdnsConfig { status: DdnsStatus::Error, last_error: r.last_error, ..*c }),
        r.last_error matches Some(e) && e@ == error@,
{
    let mut r = c.copy();
    r.status = DdnsStatus::Error;
    r.last_error = Some(owned(error));
    r
}

/// Once a name was updated to an address, it needs no update until the
/// address changes.
pub proof fn lemma_updated_name_settles(c: DdnsConfig, ip: String, status: DdnsStatus, error: Option<String>, now: i64, current: Seq<char>)
    ensures
        spec_needs_update(opt_view(spec_ip_recorded(c, ip, status, error, now).last_ip), current) <==> current != ip@,
{
}

} // verus!
