//! The araneaSDK cloud functions: the tenant that requests are made for,
//! the requests themselves, and the cache of registered araneaDevices by
//! MAC address.

use vstd::prelude::*;
use crate::lacis_candidates::byte_len;
use crate::node_order::opt_view;
use crate::text::{chars_of, keep_upper_alnum, owned, str_eq, string_of, upper_alnum};

verus! {

/// The tenant that araneaSDK requests are made for, and where they go.
pub struct AraneaConfig {
    pub tid: String,
    pub tenant_lacis_id: String,
    pub tenant_user_id: String,
    pub tenant_cic: String,
    pub device_gate_url: String,
    pub device_state_url: String,
}

/// A registered araneaDevice: its LacisID (prefix 3, 20 digits) and its MAC
/// (12 upper-case hexadecimal digits).
pub struct AraneaDeviceCacheEntry {
    pub lacis_id: String,
    pub mac: String,
}

/// A device to register.
pub struct AraneaDeviceRegistration {
    pub mac: String,
    pub product_type: String,
    pub product_code: String,
    pub device_type: String,
}

/// The state of a device as the cloud reports it.
pub struct AraneaDeviceState {
    pub lacis_id: Option<String>,
    pub state: Option<serde_json::Value>,
    pub mqtt_connected: Option<bool>,
    pub last_seen: Option<String>,
}

/// The request of the device gate.
pub struct DeviceGateRequest {
    pub tid: String,
    pub lacis_id: String,
    pub user_id: String,
    pub cic: String,
    pub mac: String,
    pub product_type: String,
    pub product_code: String,
    pub device_type: String,
}

/// The request of the device state report: `query` for one device, `list`
/// for all.
pub struct DeviceStateRequest {
    pub tid: String,
    pub lacis_id: String,
    pub user_id: String,
    pub cic: String,
    pub target_lacis_id: Option<String>,
    pub mode: String,
}

/// Requests can be made: the tenant id, LacisID and CIC are set.
pub open spec fn spec_is_configured(c: AraneaConfig) -> bool {
    c.tid@.len() > 0 && c.tenant_lacis_id@.len() > 0 && c.tenant_cic@.len() > 0
}

pub fn is_configured(config: &AraneaConfig) -> (r: bool)
    ensures
        r == spec_is_configured(*config),
{
    config.tid.unicode_len() > 0 && config.tenant_lacis_id.unicode_len() > 0 && config.tenant_cic.unicode_len() > 0
}

/// The tenant part of a request is the configured tenant's.
pub open spec fn from_tenant(tid: String, lacis_id: String, user_id: String, cic: String, c: AraneaConfig) -> bool {
    tid == c.tid && lacis_id == c.tenant_lacis_id && user_id == c.tenant_user_id && cic == c.tenant_cic
}

/// The device gate request that registers `reg` for the tenant; refused
/// when the tenant is not configured.
pub fn device_gate_request(config: &AraneaConfig, reg: &AraneaDeviceRegistration) -> (r: Result<DeviceGateRequest, String>)
    ensures
        r is Ok <==> spec_is_configured(*config),
        r matches Ok(q) ==> from_tenant(q.tid, q.lacis_id, q.user_id, q.cic, *config)
            && q.mac == reg.mac && q.product_type == reg.product_type && q.product_code == reg.product_code
            && q.device_type == reg.device_type,
        r matches Err(e) ==> e@ == "Aranea not configured: missing tid/tenant_lacis_id/tenant_cic"@,
{
    if !is_configured(config) {
        return Err(owned("Aranea not configured: missing tid/tenant_lacis_id/tenant_cic"));
    }
    Ok(DeviceGateRequest {
        tid: config.tid.clone(),
        lacis_id: config.tenant_lacis_id.clone(),
        user_id: config.tenant_user_id.clone(),
        cic: config.tenant_cic.clone(),
        mac: reg.mac.clone(),
        product_type: reg.product_type.clone(),
        product_code: reg.product_code.clone(),
        device_type: reg.device_type.clone(),
    })
}

/// The state report request for one device (`query`) or for all (`list`);
/// refused when the tenant is not configured.
pub fn device_state_request(config: &AraneaConfig, target_lacis_id: &Option<String>) -> (r: Result<DeviceStateRequest, String>)
    ensures
        r is Ok <==> spec_is_configured(*config),
        r matches Ok(q) ==> from_tenant(q.tid, q.lacis_id, q.user_id, q.cic, *config)
            && q.target_lacis_id == *target_lacis_id
            && q.mode@ == if target_lacis_id.is_some() { "query"@ } else { "list"@ },
        r matches Err(e) ==> e@ == "Aranea not configured"@,
{
    if !is_configured(config) {
        return Err(owned("Aranea not configured"));
    }
    let mode = if target_lacis_id.is_some() { owned("query") } else { owned("list") };
    Ok(DeviceStateRequest {
        tid: config.tid.clone(),
        lacis_id: config.tenant_lacis_id.clone(),
        user_id: config.tenant_user_id.clone(),
        cic: config.tenant_cic.clone(),
        target_lacis_id: crate::node_order::clone_opt(target_lacis_id),
        mode,
    })
}

/// What the configuration summary shows: whether requests can be made, the
/// tenant id and user when set, and the endpoints.
pub struct AraneaConfigSummary {
    pub configured: bool,
    pub tid: Option<String>,
    pub tenant_user_id: Option<String>,
    pub device_gate_url: String,
    pub device_state_url: String,
}

fn unless_empty(s: &String) -> (r: Option<String>)
    ensures
        r == if s@.len() == 0 { None } else { Some(*s) },
{
    if s.unicode_len() == 0 { None } else { Some(s.clone()) }
}

pub fn get_config_summary(config: &AraneaConfig) -> (r: AraneaConfigSummary)
    ensures
        r.configured == spec_is_configured(*config),
        r.tid == if config.tid@.len() == 0 { None } else { Some(config.tid) },
        r.tenant_user_id == if config.tenant_user_id@.len() == 0 { None } else { Some(config.tenant_user_id) },
        r.device_gate_url == config.device_gate_url,
        r.device_state_url == config.device_state_url,
{
    AraneaConfigSummary {
        configured: is_configured(config),
        tid: unless_empty(&config.tid),
        tenant_user_id: unless_empty(&config.tenant_user_id),
        device_gate_url: config.device_gate_url.clone(),
        device_state_url: config.device_state_url.clone(),
    }
}

/// The cache entry a reported device gives, if any: only araneaDevices
/// (LacisID of 20 bytes starting with `3`) whose MAC has 12 letters and
/// digits are kept, under that MAC upper-cased.
pub open spec fn spec_cache_entry(lacis_id: Option<Seq<char>>, mac: Option<Seq<char>>) -> Option<(Seq<char>, Seq<char>)> {
    match (lacis_id, mac) {
        (Some(l), Some(m)) => if l.len() > 0 && l[0] == '3' && byte_len(l) == 20 && upper_alnum(m).len() == 12 {
            Some((upper_alnum(m), l))
        } else {
            None
        },
        _ => None,
    }
}

/// A reported device: its LacisID and MAC as the report gives them.
pub struct ReportedDevice {
    pub lacis_id: Option<String>,
    pub mac: Option<String>,
}

pub open spec fn reported_entry(d: ReportedDevice) -> Option<(Seq<char>, Seq<char>)> {
    spec_cache_entry(opt_view(d.lacis_id), opt_view(d.mac))
}

/// The cache a report gives: MAC to LacisID, a later device replacing an
/// earlier one with the same MAC.
pub open spec fn cache_of(devices: Seq<ReportedDevice>) -> Map<Seq<char>, Seq<char>>
    decreases devices.len(),
{
    if devices.len() == 0 {
        Map::empty()
    } else {
        let m = cache_of(devices.drop_last());
        match reported_entry(devices.last()) {
            Some((mac, lid)) => m.insert(mac, lid),
            None => m,
        }
    }
}

fn cache_entry(d: &ReportedDevice) -> (r: Option<AraneaDeviceCacheEntry>)
    ensures
        match reported_entry(*d) {
            Some((mac, lid)) => r matches Some(e) && e.mac@ == mac && e.lacis_id@ == lid,
            None => r is None,
        },
{
    match (&d.lacis_id, &d.mac) {
        (Some(l), Some(m)) => {
            let lc = chars_of(l.as_str());
            if lc.len() > 0 && lc[0] == '3' && l.as_str().len() == 20 {
                let mc = chars_of(m.as_str());
                let up = keep_upper_alnum(mc.as_slice());
                if up.len() == 12 {
                    return Some(AraneaDeviceCacheEntry { lacis_id: l.clone(), mac: string_of(up.as_slice()) });
                }
            }
            None
        },
        _ => None,
    }
}

/// The cache holds `m` exactly as the map does: one entry per MAC.
pub open spec fn cache_matches(v: Seq<AraneaDeviceCacheEntry>, m: Map<Seq<char>, Seq<char>>) -> bool {
    &&& forall|a: int, b: int| 0 <= a < b < v.len() ==> v[a].mac@ != v[b].mac@
    &&& forall|k: int| 0 <= k < v.len() ==> m.contains_key(#[trigger] v[k].mac@) && m[v[k].mac@] == v[k].lacis_id@
    &&& forall|mac: Seq<char>| #[trigger] m.contains_key(mac) ==> exists|k: int| 0 <= k < v.len() && #[trigger] v[k].mac@ == mac
}

fn find_entry(v: &Vec<AraneaDeviceCacheEntry>, mac: &str) -> (r: Option<usize>)
    ensures
        match r {
            Some(k) => k < v.len() && v@[k as int].mac@ == mac@,
            None => forall|k: int| 0 <= k < v.len() ==> #[trigger] v@[k].mac@ != mac@,
        },
{
    let mut k: usize = 0;
    while k < v.len()
        invariant
            k <= v.len(),
            forall|j: int| 0 <= j < k ==> #[trigger] v@[j].mac@ != mac@,
        decreases v.len() - k,
    {
        if str_eq(v[k].mac.as_str(), mac) {
            return Some(k);
        }
        k = k + 1;
    }
    None
}

/// The cache a state report gives (see `cache_of`).
pub fn build_device_cache(devices: &Vec<ReportedDevice>) -> (r: Vec<AraneaDeviceCacheEntry>)
    ensures
        cache_matches(r@, cache_of(devices@)),
{
    let mut v: Vec<AraneaDeviceCacheEntry> = Vec::new();
    let mut i: usize = 0;
    while i < devices.len()
        invariant
            i <= devices.len(),
            cache_matches(v@, cache_of(devices@.take(i as int))),
        decreases devices.len() - i,
    {
        let ghost m = cache_of(devices@.take(i as int));
        assert(devices@.take(i + 1).drop_last() =~= devices@.take(i as int));
        assert(devices@.take(i + 1).last() == devices@[i as int]);
        let ghost m2 = cache_of(devices@.take(i + 1));
        match cache_entry(&devices[i]) {
            None => {
                assert(m2 == m);
            },
            Some(e) => {
                let ghost mac = e.mac@;
                let ghost lid = e.lacis_id@;
                assert(m2 == m.insert(mac, lid));
                let ghost before = v@;
                match find_entry(&v, e.mac.as_str()) {
                    Some(k) => {
                        v.set(k, e);
                        proof {
                            assert forall|a: int, b: int| 0 <= a < b < v@.len() implies v@[a].mac@ != v@[b].mac@ by {
                                assert(before[a].mac@ != before[b].mac@);
                            }
                            assert forall|j: int| 0 <= j < v@.len() implies
                                m2.contains_key(#[trigger] v@[j].mac@) && m2[v@[j].mac@] == v@[j].lacis_id@ by {
                                if j != k {
                                    assert(before[j].mac@ != before[k as int].mac@);
                                }
                            }
                            assert forall|x: Seq<char>| #[trigger] m2.contains_key(x) implies
                                exists|j: int| 0 <= j < v@.len() && #[trigger] v@[j].mac@ == x by {
                                if x == mac {
                                    assert(v@[k as int].mac@ == x);
                                } else {
                                    let j = choose|j: int| 0 <= j < before.len() && #[trigger] before[j].mac@ == x;
                                    assert(v@[j].mac@ == x);
                                }
                            }
                        }
                    },
                    None => {
                        v.push(e);
                        proof {
                            let n = before.len() as int;
                            assert(v@[n].mac@ == mac);
                            assert forall|j: int| 0 <= j < v@.len() implies
                                m2.contains_key(#[trigger] v@[j].mac@) && m2[v@[j].mac@] == v@[j].lacis_id@ by {
                                if j < n {
                                    assert(v@[j] == before[j]);
                                }
                            }
                            assert forall|x: Seq<char>| #[trigger] m2.contains_key(x) implies
                                exists|j: int| 0 <= j < v@.len() && #[trigger] v@[j].mac@ == x by {
                                if x == mac {
                                    assert(v@[n].mac@ == x);
                                } else {
                                    let j = choose|j: int| 0 <= j < before.len() && #[trigger] before[j].mac@ == x;
                                    assert(v@[j] == before[j]);
                                }
                            }
                        }
                    },
                }
            },
        }
        i = i + 1;
    }
    assert(devices@.take(devices.len() as int) =~= devices@);
    v
}

/// What a cache that matches a report holds for a MAC is what the report
/// says: there is an entry for it exactly when the report has an
/// araneaDevice with that MAC, and the entry's LacisID is the last such
/// device's.
pub proof fn lemma_cache_lookup(v: Seq<AraneaDeviceCacheEntry>, m: Map<Seq<char>, Seq<char>>, key: Seq<char>)
    requires
        cache_matches(v, m),
    ensures
        (exists|k: int| 0 <= k < v.len() && #[trigger] v[k].mac@ == key) <==> m.contains_key(key),
        forall|k: int| 0 <= k < v.len() && #[trigger] v[k].mac@ == key ==> v[k].lacis_id@ == m[key],
{
    if m.contains_key(key) {
        let k = choose|k: int| 0 <= k < v.len() && #[trigger] v[k].mac@ == key;
        assert(v[k].mac@ == key);
    }
}

/// The araneaDevice a MAC belongs to: the MAC's letters and digits,
/// upper-cased, looked up in the cache.
pub fn lookup_aranea_device(cache: &Vec<AraneaDeviceCacheEntry>, mac: &str) -> (r: Option<String>)
    ensures
        match r {
            Some(l) => exists|k: int| 0 <= k < cache.len() && #[trigger] cache@[k].mac@ == upper_alnum(mac@)
                && cache@[k].lacis_id == l,
            None => forall|k: int| 0 <= k < cache.len() ==> #[trigger] cache@[k].mac@ != upper_alnum(mac@),
        },
{
    let mc = chars_of(mac);
    let up = keep_upper_alnum(mc.as_slice());
    let key = string_of(up.as_slice());
    match find_entry(cache, key.as_str()) {
        Some(k) => Some(cache[k].lacis_id.clone()),
        None => None,
    }
}

} // verus!
