//! LacisID candidates of the registered devices, and the checks on
//! computing and assigning one.

use vstd::prelude::*;
use crate::auth::AppError;
use crate::docs::{ExternalDeviceDoc, OmadaDeviceDoc, OpenWrtRouterDoc};
use crate::lacis_id::{compute_network_device_lacis_id, default_product_code, normalize_mac_for_lacis_id, spec_lacis_id, spec_normalize_mac};
use crate::node_order::clone_opt;
use crate::seqs::{keep_where, lemma_keep_len, lemma_keep_step};
use crate::text::{append_str, owned};

verus! {

/// The length of a text in UTF-8 bytes (as `str::len` reports it).
pub open spec fn byte_len(s: Seq<char>) -> usize {
    vstd::utf8::encode_utf8(s).len() as usize
}

/// A device with the LacisID it would get and the one it has.
pub struct LacisIdCandidate {
    pub device_id: String,
    /// omada, openwrt or external.
    pub source: String,
    pub mac: String,
    pub display_name: String,
    pub product_type: String,
    pub network_device_type: String,
    pub candidate_lacis_id: String,
    pub assigned_lacis_id: Option<String>,
    /// assigned or unassigned.
    pub status: String,
}

/// A request to compute a LacisID.
pub struct ComputeLacisIdRequest {
    pub mac: String,
    pub product_type: String,
    pub product_code: Option<String>,
}

/// A request to assign a LacisID to a device.
pub struct AssignLacisIdRequest {
    pub source: String,
    pub lacis_id: String,
}

/// `assigned` when the device has a LacisID, else `unassigned`.
pub open spec fn spec_assignment(lacis_id: Option<String>) -> Seq<char> {
    if lacis_id is Some { "assigned"@ } else { "unassigned"@ }
}

/// The candidate entry of a device.
pub open spec fn is_candidate(c: LacisIdCandidate, device_id: String, source: Seq<char>, mac: String, name: String,
    product_type: String, network_device_type: String, lacis_id: Option<String>) -> bool {
    &&& c.device_id == device_id
    &&& c.source@ == source
    &&& c.mac == mac
    &&& c.display_name == name
    &&& c.product_type == product_type
    &&& c.network_device_type == network_device_type
    &&& c.candidate_lacis_id@ == spec_lacis_id('4', product_type@, mac@, "0000"@)
    &&& c.assigned_lacis_id == lacis_id
    &&& c.status@ == spec_assignment(lacis_id)
}

fn candidate(device_id: &String, source: &str, mac: &String, name: &String, product_type: &String,
    network_device_type: &String, lacis_id: &Option<String>) -> (c: LacisIdCandidate)
    ensures
        is_candidate(c, *device_id, source@, *mac, *name, *product_type, *network_device_type, *lacis_id),
{
    let id = compute_network_device_lacis_id(product_type.as_str(), mac.as_str(), default_product_code(network_device_type.as_str()));
    LacisIdCandidate {
        device_id: device_id.clone(),
        source: owned(source),
        mac: mac.clone(),
        display_name: name.clone(),
        product_type: product_type.clone(),
        network_device_type: network_device_type.clone(),
        candidate_lacis_id: id,
        assigned_lacis_id: clone_opt(lacis_id),
        status: if lacis_id.is_some() { owned("assigned") } else { owned("unassigned") },
    }
}

pub open spec fn has_mac() -> spec_fn(ExternalDeviceDoc) -> bool {
    |d: ExternalDeviceDoc| d.mac@.len() > 0
}

/// The LacisID candidates of all devices: the Omada devices (keyed by MAC),
/// then the OpenWrt routers, then the external devices that have a MAC, each
/// in stored order.
pub fn lacis_id_candidates(omada: &Vec<OmadaDeviceDoc>, routers: &Vec<OpenWrtRouterDoc>, externals: &Vec<ExternalDeviceDoc>) -> (r: Vec<LacisIdCandidate>)
    ensures
        ({
            let xs = keep_where(externals@, has_mac());
            &&& r@.len() == omada@.len() + routers@.len() + xs.len()
            &&& forall|i: int| 0 <= i < omada@.len() ==> #[trigger] is_candidate(r@[i], omada@[i].mac, "omada"@, omada@[i].mac,
                    omada@[i].name, omada@[i].product_type, omada@[i].network_device_type, omada@[i].lacis_id)
            &&& forall|i: int| 0 <= i < routers@.len() ==> #[trigger] is_candidate(r@[omada@.len() + i], routers@[i].router_id,
                    "openwrt"@, routers@[i].mac, routers@[i].display_name, routers@[i].product_type,
                    routers@[i].network_device_type, routers@[i].lacis_id)
            &&& forall|i: int| 0 <= i < xs.len() ==> #[trigger] is_candidate(r@[omada@.len() + routers@.len() + i], xs[i].device_id,
                    "external"@, xs[i].mac, xs[i].display_name, xs[i].product_type, xs[i].network_device_type, xs[i].lacis_id)
        }),
{
    let mut r: Vec<LacisIdCandidate> = Vec::new();
    let mut i: usize = 0;
    while i < omada.len()
        invariant
            i <= omada.len(),
            r@.len() == i,
            forall|k: int| 0 <= k < i ==> #[trigger] is_candidate(r@[k], omada@[k].mac, "omada"@, omada@[k].mac,
                omada@[k].name, omada@[k].product_type, omada@[k].network_device_type, omada@[k].lacis_id),
        decreases omada.len() - i,
    {
        let d = &omada[i];
        r.push(candidate(&d.mac, "omada", &d.mac, &d.name, &d.product_type, &d.network_device_type, &d.lacis_id));
        i = i + 1;
    }
    let n0 = r.len();
    i = 0;
    while i < routers.len()
        invariant
            i <= routers.len(),
            n0 == omada@.len(),
            r@.len() == n0 + i,
            forall|k: int| 0 <= k < n0 ==> #[trigger] is_candidate(r@[k], omada@[k].mac, "omada"@, omada@[k].mac,
                omada@[k].name, omada@[k].product_type, omada@[k].network_device_type, omada@[k].lacis_id),
            forall|k: int| 0 <= k < i ==> #[trigger] is_candidate(r@[n0 + k], routers@[k].router_id, "openwrt"@,
                routers@[k].mac, routers@[k].display_name, routers@[k].product_type, routers@[k].network_device_type,
                routers@[k].lacis_id),
        decreases routers.len() - i,
    {
        let d = &routers[i];
        r.push(candidate(&d.router_id, "openwrt", &d.mac, &d.display_name, &d.product_type, &d.network_device_type, &d.lacis_id));
        i = i + 1;
    }
    let n1 = r.len();
    let ghost p = has_mac();
    i = 0;
    while i < externals.len()
        invariant
            i <= externals.len(),
            n0 == omada@.len(),
            n1 == n0 + routers@.len(),
            p == has_mac(),
            r@.len() == n1 + keep_where(externals@.take(i as int), p).len(),
            forall|k: int| 0 <= k < n0 ==> #[trigger] is_candidate(r@[k], omada@[k].mac, "omada"@, omada@[k].mac,
                omada@[k].name, omada@[k].product_type, omada@[k].network_device_type, omada@[k].lacis_id),
            forall|k: int| 0 <= k < routers@.len() ==> #[trigger] is_candidate(r@[n0 + k], routers@[k].router_id, "openwrt"@,
                routers@[k].mac, routers@[k].display_name, routers@[k].product_type, routers@[k].network_device_type,
                routers@[k].lacis_id),
            forall|k: int| 0 <= k < keep_where(externals@.take(i as int), p).len() ==> #[trigger] is_candidate(r@[n1 + k],
                keep_where(externals@.take(i as int), p)[k].device_id, "external"@, keep_where(externals@.take(i as int), p)[k].mac,
                keep_where(externals@.take(i as int), p)[k].display_name, keep_where(externals@.take(i as int), p)[k].product_type,
                keep_where(externals@.take(i as int), p)[k].network_device_type, keep_where(externals@.take(i as int), p)[k].lacis_id),
        decreases externals.len() - i,
    {
        proof {
            lemma_keep_step(externals@, p, i as int);
        }
        let d = &externals[i];
        if !d.mac.as_str().is_empty() {
            r.push(candidate(&d.device_id, "external", &d.mac, &d.display_name, &d.product_type, &d.network_device_type, &d.lacis_id));
        }
        i = i + 1;
    }
    assert(externals@.take(externals@.len() as int) =~= externals@);
    r
}

/// What computing a LacisID answers: the LacisID, the normalized MAC and
/// the product code used (`0000` when none is given).
pub struct ComputedLacisId {
    pub lacis_id: String,
    pub mac: String,
    pub product_type: String,
    pub product_code: String,
}

/// Compute a LacisID on request: the MAC must normalize to 12 characters
/// and the product type must be 3 bytes long.
pub fn compute_lacis_id(req: &ComputeLacisIdRequest) -> (r: Result<ComputedLacisId, AppError>)
    ensures
        ({
            let code = match req.product_code { Some(c) => c@, None => "0000"@ };
            if spec_normalize_mac(req.mac@).len() != 12 {
                r matches Err(AppError::BadRequest(m))
                    && m@ == "Invalid MAC address: must be 12 hex characters after normalization"@
            } else if byte_len(req.product_type@) != 3 {
                r matches Err(AppError::BadRequest(m)) && m@ == "Product type must be exactly 3 digits"@
            } else {
                r matches Ok(c) && c.lacis_id@ == spec_lacis_id('4', req.product_type@, req.mac@, code)
                    && c.mac@ == spec_normalize_mac(req.mac@) && c.product_type == req.product_type
                    && c.product_code@ == code
            }
        }),
{
    let code = match &req.product_code {
        Some(c) => c.clone(),
        None => owned("0000"),
    };
    let normalized = normalize_mac_for_lacis_id(req.mac.as_str());
    let cs = crate::text::chars_of(normalized.as_str());
    if cs.len() != 12 {
        return Err(AppError::BadRequest(owned("Invalid MAC address: must be 12 hex characters after normalization")));
    }
    if req.product_type.as_str().len() != 3 {
        return Err(AppError::BadRequest(owned("Product type must be exactly 3 digits")));
    }
    let id = compute_network_device_lacis_id(req.product_type.as_str(), req.mac.as_str(), code.as_str());
    Ok(ComputedLacisId { lacis_id: id, mac: normalized, product_type: req.product_type.clone(), product_code: code })
}

/// An assignment needs a LacisID of exactly 20 bytes.
pub fn check_assignment(req: &AssignLacisIdRequest) -> (r: Result<(), AppError>)
    ensures
        byte_len(req.lacis_id@) == 20 <==> r is Ok,
        r matches Err(e) ==> (e matches AppError::BadRequest(m) && m@ == "LacisID must be exactly 20 characters"@),
{
    if req.lacis_id.as_str().len() != 20 {
        return Err(AppError::BadRequest(owned("LacisID must be exactly 20 characters")));
    }
    Ok(())
}

/// `Device not found: source={source}, id={id}`.
pub fn device_not_found(source: &str, device_id: &str) -> (r: AppError)
    ensures
        r matches AppError::BadRequest(m) && m@ == "Device not found: source="@ + source@ + ", id="@ + device_id@,
{
    let mut m = owned("Device not found: source=");
    append_str(&mut m, source);
    append_str(&mut m, ", id=");
    append_str(&mut m, device_id);
    AppError::BadRequest(m)
}

} // verus!
