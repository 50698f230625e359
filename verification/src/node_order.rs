//! The node order: one entry per network node (keyed by its MAC), holding
//! its place in the tree `INTERNET → gateway → children → ...`.
//!
//! Where a new node is placed is decided here from the source data; an
//! existing node keeps its place (parent, depth, order) and a label that the
//! user customized, and only its volatile fields are refreshed.

use vstd::prelude::*;
use crate::json::{clone_json, json_of, json_object};
use crate::seqs::{first_index, is_first, keep_where, lemma_first_is, lemma_first_none, lemma_keep_len, lemma_keep_step};
use crate::text::{append_str, owned, str_eq, strip_prefix_or_self, without_prefix};
use crate::lacis_id::{compute_network_device_lacis_id, default_product_code, normalize_mac_for_lacis_id, spec_lacis_id, spec_normalize_mac};
use crate::mac::{ascii_text, client_label, logic_device_pseudo_mac, spec_client_label, spec_pseudo_mac, wg_peer_pseudo_mac};
use crate::docs::{
    ExternalClientDoc, ExternalDeviceDoc, OmadaClientDoc, OmadaControllerDoc, OmadaDeviceDoc, OmadaSiteMapping,
    OmadaWgPeerDoc, OpenWrtClientDoc, OpenWrtRouterDoc, LogicDeviceDoc,
};

verus! {

/// One node of the node order.
pub struct NodeOrderEntry {
    /// 12 upper-case hex digits; the key of the entry.
    pub mac: String,
    /// The parent's MAC, or `INTERNET`.
    pub parent_mac: String,
    /// Depth in the tree (1 for a gateway).
    pub depth: u32,
    /// Order among siblings.
    pub order: u32,
    pub label: String,
    /// gateway, switch, ap, client, wg_peer, router, external, ...
    pub node_type: String,
    pub ip: Option<String>,
    pub hostname: Option<String>,
    /// omada, openwrt, external, manual.
    pub source: String,
    pub source_ref_id: Option<String>,
    /// online, offline, active, inactive.
    pub status: String,
    pub state_type: String,
    /// wired, wireless, vpn.
    pub connection_type: String,
    pub lacis_id: Option<String>,
    pub candidate_lacis_id: Option<String>,
    pub product_type: Option<String>,
    pub network_device_type: Option<String>,
    pub fid: Option<String>,
    pub facility_name: Option<String>,
    pub metadata: serde_json::Value,
    /// The user overrode the label.
    pub label_customized: bool,
    pub ssid: Option<String>,
    pub created_at: String,
    pub updated_at: String,
}

pub open spec fn opt_view(o: Option<String>) -> Option<Seq<char>> {
    match o {
        Some(s) => Some(s@),
        None => None,
    }
}

/// The given MAC, or `INTERNET` when there is none.
pub open spec fn or_internet(o: Option<Seq<char>>) -> Seq<char> {
    match o {
        Some(m) => m,
        None => "INTERNET"@,
    }
}

pub(crate) fn clone_opt(o: &Option<String>) -> (r: Option<String>)
    ensures
        r == *o,
{
    match o {
        Some(s) => Some(s.clone()),
        None => None,
    }
}

fn mac_or_internet(o: &Option<String>) -> (r: String)
    ensures
        r@ == or_internet(opt_view(*o)),
{
    match o {
        Some(m) => m.clone(),
        None => owned("INTERNET"),
    }
}

// ----------------------------------------------------------------------------
// Placement of new nodes
// ----------------------------------------------------------------------------

/// Parent and depth of an Omada device: a gateway hangs under `INTERNET`; a
/// switch under the gateway; an access point under the switch (PoE), else
/// under the gateway; any other device under the gateway. Without a gateway,
/// `INTERNET` takes its place.
pub open spec fn spec_device_placement(device_type: Seq<char>, gateway: Option<Seq<char>>, switch: Option<Seq<char>>) -> (Seq<char>, u32) {
    let under_gateway = (or_internet(gateway), if gateway is Some { 2u32 } else { 1u32 });
    if device_type == "gateway"@ {
        ("INTERNET"@, 1u32)
    } else if device_type == "ap"@ && switch is Some {
        (switch->0, if gateway is Some { 3u32 } else { 2u32 })
    } else {
        under_gateway
    }
}

/// Parent MAC and depth of a new Omada device (see `spec_device_placement`).
pub fn device_placement(device_type: &str, gateway: &Option<String>, switch: &Option<String>) -> (r: (String, u32))
    ensures
        (r.0@, r.1) == spec_device_placement(device_type@, opt_view(*gateway), opt_view(*switch)),
{
    if str_eq(device_type, "gateway") {
        return (owned("INTERNET"), 1);
    }
    if str_eq(device_type, "ap") {
        if let Some(sw) = switch {
            let d: u32 = if gateway.is_some() { 3 } else { 2 };
            return (sw.clone(), d);
        }
    }
    let d: u32 = if gateway.is_some() { 2 } else { 1 };
    (mac_or_internet(gateway), d)
}

/// Whether one of the MACs has the given view.
pub open spec fn has_mac(macs: Seq<String>, m: Seq<char>) -> bool {
    exists|i: int| 0 <= i < macs.len() && (#[trigger] macs[i])@ == m
}

/// Parent of an Omada client: the access point it is associated with
/// (wireless) or the switch it is plugged into (wired), when that MAC is one
/// of the controller's devices; otherwise the gateway, or `INTERNET`.
pub open spec fn spec_client_parent(wireless: bool, ap_mac: Option<Seq<char>>, switch_mac: Option<Seq<char>>, is_device: spec_fn(Seq<char>) -> bool, gateway: Option<Seq<char>>) -> Seq<char> {
    let up = if wireless { ap_mac } else { switch_mac };
    if up is Some && is_device(spec_normalize_mac(up->0)) {
        spec_normalize_mac(up->0)
    } else {
        or_internet(gateway)
    }
}

fn contains_mac(macs: &Vec<String>, m: &String) -> (r: bool)
    ensures
        r == has_mac(macs@, m@),
{
    let mut i: usize = 0;
    while i < macs.len()
        invariant
            i <= macs.len(),
            forall|k: int| 0 <= k < i ==> (#[trigger] macs@[k])@ != m@,
        decreases macs.len() - i,
    {
        if str_eq(macs[i].as_str(), m.as_str()) {
            return true;
        }
        i = i + 1;
    }
    false
}

/// Parent MAC of a new Omada client (see `spec_client_parent`).
pub fn client_parent(wireless: bool, ap_mac: &Option<String>, switch_mac: &Option<String>, device_macs: &Vec<String>, gateway: &Option<String>) -> (r: String)
    ensures
        r@ == spec_client_parent(wireless, opt_view(*ap_mac), opt_view(*switch_mac), |m: Seq<char>| has_mac(device_macs@, m), opt_view(*gateway)),
{
    let up = if wireless { ap_mac } else { switch_mac };
    if let Some(m) = up {
        let n = normalize_mac_for_lacis_id(m.as_str());
        if contains_mac(device_macs, &n) {
            return n;
        }
    }
    mac_or_internet(gateway)
}

/// Depth of an Omada client: one below its parent, whose depth is 0 for
/// `INTERNET`, 1 for the gateway, 2 for the switch, and for an access point
/// 3 under a switch, else 2.
pub open spec fn spec_client_depth(parent: Seq<char>, gateway: Option<Seq<char>>, switch: Option<Seq<char>>) -> u32 {
    if parent == "INTERNET"@ {
        1
    } else if gateway == Some(parent) {
        2
    } else if switch == Some(parent) {
        3
    } else if switch is Some {
        4
    } else {
        3
    }
}

fn same_mac(o: &Option<String>, m: &String) -> (r: bool)
    ensures
        r == (opt_view(*o) == Some(m@)),
{
    match o {
        Some(x) => str_eq(x.as_str(), m.as_str()),
        None => false,
    }
}

/// Depth of a new Omada client under the given parent (see `spec_client_depth`).
pub fn client_depth(parent: &String, gateway: &Option<String>, switch: &Option<String>) -> (r: u32)
    ensures
        r == spec_client_depth(parent@, opt_view(*gateway), opt_view(*switch)),
{
    if str_eq(parent.as_str(), "INTERNET") {
        1
    } else if same_mac(gateway, parent) {
        2
    } else if same_mac(switch, parent) {
        3
    } else if switch.is_some() {
        4
    } else {
        3
    }
}

/// Depth under a parent that is either `INTERNET` (depth 1) or a first-level
/// node (depth 2).
pub open spec fn spec_shallow_depth(parent: Seq<char>) -> u32 {
    if parent == "INTERNET"@ { 1 } else { 2 }
}

pub fn shallow_depth(parent: &String) -> (r: u32)
    ensures
        r == spec_shallow_depth(parent@),
{
    if str_eq(parent.as_str(), "INTERNET") { 1 } else { 2 }
}

/// Parent and depth of a WireGuard peer: under the gateway, else `INTERNET`.
pub open spec fn spec_wg_placement(gateway: Option<Seq<char>>) -> (Seq<char>, u32) {
    (or_internet(gateway), spec_shallow_depth(or_internet(gateway)))
}

pub fn wg_placement(gateway: &Option<String>) -> (r: (String, u32))
    ensures
        (r.0@, r.1) == spec_wg_placement(opt_view(*gateway)),
{
    let p = mac_or_internet(gateway);
    let d = shallow_depth(&p);
    (p, d)
}

/// Parent of a router or external device: the parent it already has in the
/// node order (it may have been moved by hand); else, when it also shows up
/// as an Omada client, the access point (wireless) or switch (wired) it is
/// attached to, or `INTERNET` when that is unknown; else `INTERNET`.
pub open spec fn spec_uplink_parent(existing_parent: Option<Seq<char>>, omada_match: Option<OmadaClientDoc>) -> Seq<char> {
    match existing_parent {
        Some(p) => p,
        None => match omada_match {
            Some(c) => {
                let up = if c.wireless { c.ap_mac } else { c.switch_mac };
                match up {
                    Some(m) => spec_normalize_mac(m@),
                    None => "INTERNET"@,
                }
            },
            None => "INTERNET"@,
        },
    }
}

pub fn uplink_parent(existing_parent: &Option<String>, omada_match: Option<&OmadaClientDoc>) -> (r: String)
    ensures
        r@ == spec_uplink_parent(opt_view(*existing_parent), match omada_match { Some(c) => Some(*c), None => None }),
        *existing_parent matches Some(p) ==> r@ == p@,
        *existing_parent is None && (omada_match matches Some(c) && !c.wireless && c.switch_mac is Some)
            ==> r@ == spec_normalize_mac(omada_match->0.switch_mac->0@),
        *existing_parent is None && (omada_match matches Some(c) && c.wireless && c.ap_mac is Some)
            ==> r@ == spec_normalize_mac(omada_match->0.ap_mac->0@),
        *existing_parent is None && (omada_match is None || (omada_match matches Some(c) && (if c.wireless { c.ap_mac is None } else { c.switch_mac is None })))
            ==> r@ == "INTERNET"@,
{
    if let Some(p) = existing_parent {
        return p.clone();
    }
    match omada_match {
        Some(c) => {
            let up = if c.wireless { &c.ap_mac } else { &c.switch_mac };
            match up {
                Some(m) => normalize_mac_for_lacis_id(m.as_str()),
                None => owned("INTERNET"),
            }
        },
        None => owned("INTERNET"),
    }
}

/// Where an uplinked node goes: a parent it already has stays; otherwise a
/// node seen as a wired Omada client hangs under the normalized MAC of its
/// switch, a wireless one under that of its access point, and a node with
/// no known uplink under `INTERNET`.
pub proof fn lemma_uplink_follows_the_link(existing_parent: Option<String>, omada_match: Option<OmadaClientDoc>)
    ensures
        existing_parent matches Some(p) ==> spec_uplink_parent(opt_view(existing_parent), omada_match) == p@,
        existing_parent is None && (omada_match matches Some(c) && !c.wireless && c.switch_mac is Some)
            ==> spec_uplink_parent(opt_view(existing_parent), omada_match) == spec_normalize_mac(omada_match->0.switch_mac->0@),
        existing_parent is None && (omada_match matches Some(c) && c.wireless && c.ap_mac is Some)
            ==> spec_uplink_parent(opt_view(existing_parent), omada_match) == spec_normalize_mac(omada_match->0.ap_mac->0@),
        existing_parent is None && (omada_match is None || (omada_match matches Some(c) && (if c.wireless { c.ap_mac is None } else { c.switch_mac is None })))
            ==> spec_uplink_parent(opt_view(existing_parent), omada_match) == "INTERNET"@,
{
}

/// Status of an Omada device: `online` for status 1, `offline` otherwise.
pub open spec fn spec_device_status(status: i32) -> Seq<char> {
    if status == 1 { "online"@ } else { "offline"@ }
}

pub fn device_status(status: i32) -> (r: String)
    ensures
        r@ == spec_device_status(status),
{
    if status == 1 { owned("online") } else { owned("offline") }
}

/// Status of a client or peer: `active` or `inactive`.
pub open spec fn spec_activity_status(active: bool) -> Seq<char> {
    if active { "active"@ } else { "inactive"@ }
}

pub fn activity_status(active: bool) -> (r: String)
    ensures
        r@ == spec_activity_status(active),
{
    if active { owned("active") } else { owned("inactive") }
}

// ----------------------------------------------------------------------------
// Upsert
// ----------------------------------------------------------------------------

/// The stored entry after an upsert of `e`. A new MAC is stored as given. An
/// existing one refreshes only its volatile fields (status, ip, hostname,
/// ssid, metadata, updated_at), takes the new label unless the stored one was
/// customized, takes a LacisID or candidate only when one is given, and keeps
/// everything else, its place in the tree above all.
pub open spec fn spec_upsert(existing: Option<NodeOrderEntry>, e: NodeOrderEntry) -> NodeOrderEntry {
    match existing {
        None => e,
        Some(x) => NodeOrderEntry {
            status: e.status,
            ip: e.ip,
            hostname: e.hostname,
            updated_at: e.updated_at,
            ssid: e.ssid,
            metadata: e.metadata,
            label: if x.label_customized { x.label } else { e.label },
            lacis_id: if e.lacis_id is Some { e.lacis_id } else { x.lacis_id },
            candidate_lacis_id: if e.candidate_lacis_id is Some { e.candidate_lacis_id } else { x.candidate_lacis_id },
            ..x
        },
    }
}

/// The entry that an upsert of `entry` stores, given the entry stored under
/// the same MAC, if any (see `spec_upsert`).
pub fn merge_node_order(existing: Option<&NodeOrderEntry>, entry: &NodeOrderEntry) -> (r: NodeOrderEntry)
    ensures
        r == spec_upsert(match existing { Some(x) => Some(*x), None => None }, *entry),
{
    match existing {
        None => NodeOrderEntry {
            mac: entry.mac.clone(),
            parent_mac: entry.parent_mac.clone(),
            depth: entry.depth,
            order: entry.order,
            label: entry.label.clone(),
            node_type: entry.node_type.clone(),
            ip: clone_opt(&entry.ip),
            hostname: clone_opt(&entry.hostname),
            source: entry.source.clone(),
            source_ref_id: clone_opt(&entry.source_ref_id),
            status: entry.status.clone(),
            state_type: entry.state_type.clone(),
            connection_type: entry.connection_type.clone(),
            lacis_id: clone_opt(&entry.lacis_id),
            candidate_lacis_id: clone_opt(&entry.candidate_lacis_id),
            product_type: clone_opt(&entry.product_type),
            network_device_type: clone_opt(&entry.network_device_type),
            fid: clone_opt(&entry.fid),
            facility_name: clone_opt(&entry.facility_name),
            metadata: clone_json(&entry.metadata),
            label_customized: entry.label_customized,
            ssid: clone_opt(&entry.ssid),
            created_at: entry.created_at.clone(),
            updated_at: entry.updated_at.clone(),
        },
        Some(x) => NodeOrderEntry {
            mac: x.mac.clone(),
            parent_mac: x.parent_mac.clone(),
            depth: x.depth,
            order: x.order,
            label: if x.label_customized { x.label.clone() } else { entry.label.clone() },
            node_type: x.node_type.clone(),
            ip: clone_opt(&entry.ip),
            hostname: clone_opt(&entry.hostname),
            source: x.source.clone(),
            source_ref_id: clone_opt(&x.source_ref_id),
            status: entry.status.clone(),
            state_type: x.state_type.clone(),
            connection_type: x.connection_type.clone(),
            lacis_id: if entry.lacis_id.is_some() { clone_opt(&entry.lacis_id) } else { clone_opt(&x.lacis_id) },
            candidate_lacis_id: if entry.candidate_lacis_id.is_some() {
                clone_opt(&entry.candidate_lacis_id)
            } else {
                clone_opt(&x.candidate_lacis_id)
            },
            product_type: clone_opt(&x.product_type),
            network_device_type: clone_opt(&x.network_device_type),
            fid: clone_opt(&x.fid),
            facility_name: clone_opt(&x.facility_name),
            metadata: clone_json(&entry.metadata),
            label_customized: x.label_customized,
            ssid: clone_opt(&entry.ssid),
            created_at: x.created_at.clone(),
            updated_at: entry.updated_at.clone(),
        },
    }
}

/// An upsert never moves an existing node: its MAC, parent, depth and order
/// stay, and so does a label the user customized.
pub proof fn lemma_upsert_keeps_place(x: NodeOrderEntry, e: NodeOrderEntry)
    ensures
        spec_upsert(Some(x), e).mac == x.mac,
        spec_upsert(Some(x), e).parent_mac == x.parent_mac,
        spec_upsert(Some(x), e).depth == x.depth,
        spec_upsert(Some(x), e).order == x.order,
        x.label_customized ==> spec_upsert(Some(x), e).label == x.label,
        x.lacis_id is Some ==> spec_upsert(Some(x), e).lacis_id is Some,
{
}

/// Upserting the same entry twice stores what upserting it once stores.
pub proof fn lemma_upsert_idempotent(existing: Option<NodeOrderEntry>, e: NodeOrderEntry)
    ensures
        spec_upsert(Some(spec_upsert(existing, e)), e) == spec_upsert(existing, e),
{
}

/// Whatever was stored before, an upsert stores the given volatile fields.
pub proof fn lemma_upsert_refreshes(existing: Option<NodeOrderEntry>, e: NodeOrderEntry)
    ensures
        spec_upsert(existing, e).status == e.status,
        spec_upsert(existing, e).ip == e.ip,
        spec_upsert(existing, e).hostname == e.hostname,
        spec_upsert(existing, e).ssid == e.ssid,
        spec_upsert(existing, e).metadata == e.metadata,
        spec_upsert(existing, e).updated_at == e.updated_at,
{
}


// ----------------------------------------------------------------------------
// Ingesting an Omada controller
// ----------------------------------------------------------------------------

pub open spec fn device_of(cid: Seq<char>) -> spec_fn(OmadaDeviceDoc) -> bool {
    |d: OmadaDeviceDoc| d.controller_id@ == cid
}

pub open spec fn device_of_type(cid: Seq<char>, t: Seq<char>) -> spec_fn(OmadaDeviceDoc) -> bool {
    |d: OmadaDeviceDoc| d.controller_id@ == cid && d.device_type@ == t
}

pub open spec fn client_of(cid: Seq<char>) -> spec_fn(OmadaClientDoc) -> bool {
    |c: OmadaClientDoc| c.controller_id@ == cid
}

pub open spec fn peer_of(cid: Seq<char>) -> spec_fn(OmadaWgPeerDoc) -> bool {
    |p: OmadaWgPeerDoc| p.controller_id@ == cid
}

/// The normalized MAC of the controller's first device of the given type.
pub open spec fn first_mac_of_type(ds: Seq<OmadaDeviceDoc>, cid: Seq<char>, t: Seq<char>) -> Option<Seq<char>> {
    match first_index(ds, device_of_type(cid, t)) {
        Some(i) => Some(spec_normalize_mac(ds[i].mac@)),
        None => None,
    }
}

/// The normalized MAC of the controller's first device of a type.
fn find_first_mac(devices: &Vec<OmadaDeviceDoc>, cid: &str, t: &str) -> (r: Option<String>)
    ensures
        opt_view(r) == first_mac_of_type(devices@, cid@, t@),
{
    let ghost p = device_of_type(cid@, t@);
    let mut i: usize = 0;
    while i < devices.len()
        invariant
            i <= devices.len(),
            p == device_of_type(cid@, t@),
            forall|k: int| 0 <= k < i ==> !p(#[trigger] devices@[k]),
        decreases devices.len() - i,
    {
        if str_eq(devices[i].controller_id.as_str(), cid) && str_eq(devices[i].device_type.as_str(), t) {
            proof {
                assert(is_first(devices@, p, i as int));
                lemma_first_is(devices@, p, i as int);
            }
            return Some(normalize_mac_for_lacis_id(devices[i].mac.as_str()));
        }
        i = i + 1;
    }
    proof {
        lemma_first_none(devices@, p);
    }
    None
}

/// `m` is the normalized MAC of one of the controller's devices.
pub open spec fn is_device_mac(ds: Seq<OmadaDeviceDoc>, cid: Seq<char>, m: Seq<char>) -> bool {
    exists|i: int| 0 <= i < ds.len() && (#[trigger] ds[i]).controller_id@ == cid && spec_normalize_mac(ds[i].mac@) == m
}

fn device_macs(devices: &Vec<OmadaDeviceDoc>, cid: &str) -> (r: Vec<String>)
    ensures
        forall|m: Seq<char>| has_mac(r@, m) <==> is_device_mac(devices@, cid@, m),
{
    let mut r: Vec<String> = Vec::new();
    let mut i: usize = 0;
    while i < devices.len()
        invariant
            i <= devices.len(),
            forall|m: Seq<char>| has_mac(r@, m) <==> is_device_mac(devices@.take(i as int), cid@, m),
        decreases devices.len() - i,
    {
        let ghost before = r@;
        let hit = str_eq(devices[i].controller_id.as_str(), cid);
        if hit {
            r.push(normalize_mac_for_lacis_id(devices[i].mac.as_str()));
        }
        proof {
            let t1 = devices@.take(i + 1);
            let t0 = devices@.take(i as int);
            let d = devices@[i as int];
            assert(t1[i as int] == d);
            assert forall|m: Seq<char>| has_mac(r@, m) <==> is_device_mac(t1, cid@, m) by {
                if has_mac(r@, m) {
                    let j = choose|j: int| 0 <= j < r@.len() && (#[trigger] r@[j])@ == m;
                    if j < before.len() {
                        assert(r@[j] == before[j]);
                        assert(has_mac(before, m));
                        let k = choose|k: int| 0 <= k < t0.len() && (#[trigger] t0[k]).controller_id@ == cid@
                            && spec_normalize_mac(t0[k].mac@) == m;
                        assert(t1[k] == t0[k]);
                    } else {
                        assert(hit);
                        assert(r@[j]@ == spec_normalize_mac(d.mac@));
                        assert(is_device_mac(t1, cid@, m));
                    }
                }
                if is_device_mac(t1, cid@, m) {
                    let k = choose|k: int| 0 <= k < t1.len() && (#[trigger] t1[k]).controller_id@ == cid@
                        && spec_normalize_mac(t1[k].mac@) == m;
                    if k < i {
                        assert(t0[k] == t1[k]);
                        assert(is_device_mac(t0, cid@, m));
                        assert(has_mac(before, m));
                        let j = choose|j: int| 0 <= j < before.len() && (#[trigger] before[j])@ == m;
                        assert(r@[j] == before[j]);
                        assert(has_mac(r@, m));
                    } else {
                        assert(hit);
                        assert(r@[r@.len() - 1]@ == m);
                        assert(has_mac(r@, m));
                    }
                }
            }
        }
        i = i + 1;
    }
    assert(devices@.take(devices@.len() as int) =~= devices@);
    r
}

pub open spec fn controller_with_id(cid: Seq<char>) -> spec_fn(OmadaControllerDoc) -> bool {
    |c: OmadaControllerDoc| c.controller_id@ == cid
}

pub open spec fn site_with_id(site_id: Seq<char>) -> spec_fn(OmadaSiteMapping) -> bool {
    |s: OmadaSiteMapping| s.site_id@ == site_id
}

/// The site of an Omada device: the site with its id in the first
/// controller with the given id.
pub open spec fn site_of(ctrls: Seq<OmadaControllerDoc>, cid: Seq<char>, site_id: Seq<char>) -> Option<OmadaSiteMapping> {
    match first_index(ctrls, controller_with_id(cid)) {
        Some(ci) => match first_index(ctrls[ci].sites@, site_with_id(site_id)) {
            Some(si) => Some(ctrls[ci].sites@[si]),
            None => None,
        },
        None => None,
    }
}


pub(crate) fn find_controller(ctrls: &Vec<OmadaControllerDoc>, cid: &str) -> (r: Option<usize>)
    ensures
        opt_index(r) == first_index(ctrls@, controller_with_id(cid@)),
        r matches Some(i) ==> i < ctrls.len(),
{
    let ghost p = controller_with_id(cid@);
    let mut i: usize = 0;
    while i < ctrls.len()
        invariant
            i <= ctrls.len(),
            p == controller_with_id(cid@),
            forall|k: int| 0 <= k < i ==> !p(#[trigger] ctrls@[k]),
        decreases ctrls.len() - i,
    {
        if str_eq(ctrls[i].controller_id.as_str(), cid) {
            proof {
                lemma_first_is(ctrls@, p, i as int);
            }
            return Some(i);
        }
        i = i + 1;
    }
    proof {
        lemma_first_none(ctrls@, p);
    }
    None
}

pub(crate) fn find_site(sites: &Vec<OmadaSiteMapping>, site_id: &str) -> (r: Option<usize>)
    ensures
        opt_index(r) == first_index(sites@, site_with_id(site_id@)),
        r matches Some(i) ==> i < sites.len(),
{
    let ghost p = site_with_id(site_id@);
    let mut i: usize = 0;
    while i < sites.len()
        invariant
            i <= sites.len(),
            p == site_with_id(site_id@),
            forall|k: int| 0 <= k < i ==> !p(#[trigger] sites@[k]),
        decreases sites.len() - i,
    {
        if str_eq(sites[i].site_id.as_str(), site_id) {
            proof {
                lemma_first_is(sites@, p, i as int);
            }
            return Some(i);
        }
        i = i + 1;
    }
    proof {
        lemma_first_none(sites@, p);
    }
    None
}

pub open spec fn opt_index(o: Option<usize>) -> Option<int> {
    match o {
        Some(i) => Some(i as int),
        None => None,
    }
}

/// `{source}:{owner}:{kind}:{id}`: the reference back to the source item.
pub open spec fn source_ref(source: Seq<char>, owner: Seq<char>, kind: Seq<char>, id: Seq<char>) -> Seq<char> {
    source + ":"@ + owner + ":"@ + kind + ":"@ + id
}

fn make_source_ref(source: &str, owner: &str, kind: &str, id: &str) -> (r: String)
    ensures
        r@ == source_ref(source@, owner@, kind@, id@),
{
    let mut r = owned(source);
    append_str(&mut r, ":");
    append_str(&mut r, owner);
    append_str(&mut r, ":");
    append_str(&mut r, kind);
    append_str(&mut r, ":");
    append_str(&mut r, id);
    r
}

pub open spec fn site_fid(site: Option<OmadaSiteMapping>) -> Option<String> {
    match site {
        Some(s) => s.fid,
        None => None,
    }
}

pub open spec fn site_name(site: Option<OmadaSiteMapping>) -> Option<String> {
    match site {
        Some(s) => s.fid_display_name,
        None => None,
    }
}

/// The node order entry of an Omada device.
pub open spec fn is_omada_device_entry(e: NodeOrderEntry, cid: Seq<char>, site: Option<OmadaSiteMapping>, d: OmadaDeviceDoc,
    gateway: Option<Seq<char>>, switch: Option<Seq<char>>, order: int, now: Seq<char>) -> bool {
    &&& e.mac@ == spec_normalize_mac(d.mac@)
    &&& (e.parent_mac@, e.depth) == spec_device_placement(d.device_type@, gateway, switch)
    &&& e.order == order
    &&& e.label == d.name
    &&& e.node_type == d.device_type
    &&& e.ip == d.ip
    &&& e.hostname is None
    &&& e.source@ == "omada"@
    &&& opt_view(e.source_ref_id) == Some(source_ref("omada"@, cid, "dev"@, d.mac@))
    &&& e.status@ == spec_device_status(d.status)
    &&& e.state_type@ == "trackingOnline"@
    &&& e.connection_type@ == "wired"@
    &&& e.lacis_id == d.lacis_id
    &&& opt_view(e.candidate_lacis_id) == Some(spec_lacis_id('4', d.product_type@, e.mac@, "0000"@))
    &&& e.product_type == Some(d.product_type)
    &&& e.network_device_type == Some(d.network_device_type)
    &&& e.fid == site_fid(site)
    &&& e.facility_name == site_name(site)
    &&& !e.label_customized
    &&& e.ssid is None
    &&& e.created_at@ == now
    &&& e.updated_at@ == now
}

fn omada_device_entry(cid: &str, site: Option<&OmadaSiteMapping>, d: &OmadaDeviceDoc, gateway: &Option<String>,
    switch: &Option<String>, order: u32, now: &str) -> (e: NodeOrderEntry)
    ensures
        is_omada_device_entry(e, cid@, match site { Some(s) => Some(*s), None => None }, *d,
            opt_view(*gateway), opt_view(*switch), order as int, now@),
{
    let mac = normalize_mac_for_lacis_id(d.mac.as_str());
    let (parent_mac, depth) = device_placement(d.device_type.as_str(), gateway, switch);
    let candidate = compute_network_device_lacis_id(d.product_type.as_str(), mac.as_str(),
        default_product_code(d.network_device_type.as_str()));
    let (fid, facility_name) = match site {
        Some(s) => (clone_opt(&s.fid), clone_opt(&s.fid_display_name)),
        None => (None, None),
    };
    let metadata = json_object(vec![
        (owned("model"), json_of(clone_opt(&d.model))),
        (owned("firmware_version"), json_of(clone_opt(&d.firmware_version))),
        (owned("site_id"), json_of(d.site_id.clone())),
        (owned("controller_id"), json_of(owned(cid))),
    ]);
    NodeOrderEntry {
        mac,
        parent_mac,
        depth,
        order,
        label: d.name.clone(),
        node_type: d.device_type.clone(),
        ip: clone_opt(&d.ip),
        hostname: None,
        source: owned("omada"),
        source_ref_id: Some(make_source_ref("omada", cid, "dev", d.mac.as_str())),
        status: device_status(d.status),
        state_type: owned("trackingOnline"),
        connection_type: owned("wired"),
        lacis_id: clone_opt(&d.lacis_id),
        candidate_lacis_id: Some(candidate),
        product_type: Some(d.product_type.clone()),
        network_device_type: Some(d.network_device_type.clone()),
        fid,
        facility_name,
        metadata,
        label_customized: false,
        ssid: None,
        created_at: owned(now),
        updated_at: owned(now),
    }
}


/// Connection type of a client: `wireless` or `wired`.
pub open spec fn spec_link_type(wireless: bool) -> Seq<char> {
    if wireless { "wireless"@ } else { "wired"@ }
}

/// The node order entry of an Omada client.
pub open spec fn is_omada_client_entry(e: NodeOrderEntry, cid: Seq<char>, c: OmadaClientDoc, is_device: spec_fn(Seq<char>) -> bool,
    gateway: Option<Seq<char>>, switch: Option<Seq<char>>, order: int, now: Seq<char>) -> bool {
    &&& e.mac@ == spec_normalize_mac(c.mac@)
    &&& e.parent_mac@ == spec_client_parent(c.wireless, opt_view(c.ap_mac), opt_view(c.switch_mac), is_device, gateway)
    &&& e.depth == spec_client_depth(e.parent_mac@, gateway, switch)
    &&& e.order == order
    &&& e.label@ == spec_client_label(c.name, c.host_name, c.vendor, c.mac@)
    &&& e.node_type@ == "client"@
    &&& e.ip == c.ip
    &&& e.hostname == c.host_name
    &&& e.source@ == "omada"@
    &&& opt_view(e.source_ref_id) == Some(source_ref("omada"@, cid, "cli"@, c.mac@))
    &&& e.status@ == spec_activity_status(c.active)
    &&& e.state_type@ == "trackingOnline"@
    &&& e.connection_type@ == spec_link_type(c.wireless)
    &&& e.lacis_id == c.lacis_id
    &&& e.candidate_lacis_id is None
    &&& e.product_type is None
    &&& e.network_device_type is None
    &&& e.fid is None
    &&& e.facility_name is None
    &&& !e.label_customized
    &&& e.ssid == c.ssid
    &&& e.created_at@ == now
    &&& e.updated_at@ == now
}

fn omada_client_entry(cid: &str, c: &OmadaClientDoc, device_macs: &Vec<String>, gateway: &Option<String>,
    switch: &Option<String>, order: u32, now: &str) -> (e: NodeOrderEntry)
    requires
        ascii_text(c.mac@),
    ensures
        is_omada_client_entry(e, cid@, *c, |m: Seq<char>| has_mac(device_macs@, m), opt_view(*gateway), opt_view(*switch), order as int, now@),
{
    let parent_mac = client_parent(c.wireless, &c.ap_mac, &c.switch_mac, device_macs, gateway);
    let depth = client_depth(&parent_mac, gateway, switch);
    let metadata = json_object(vec![
        (owned("vendor"), json_of(clone_opt(&c.vendor))),
        (owned("os_name"), json_of(clone_opt(&c.os_name))),
        (owned("ssid"), json_of(clone_opt(&c.ssid))),
        (owned("signal_level"), json_of(c.signal_level)),
        (owned("traffic_down"), json_of(c.traffic_down)),
        (owned("traffic_up"), json_of(c.traffic_up)),
        (owned("uptime"), json_of(c.uptime)),
    ]);
    NodeOrderEntry {
        mac: normalize_mac_for_lacis_id(c.mac.as_str()),
        parent_mac,
        depth,
        order,
        label: client_label(&c.name, &c.host_name, &c.vendor, c.mac.as_str()),
        node_type: owned("client"),
        ip: clone_opt(&c.ip),
        hostname: clone_opt(&c.host_name),
        source: owned("omada"),
        source_ref_id: Some(make_source_ref("omada", cid, "cli", c.mac.as_str())),
        status: activity_status(c.active),
        state_type: owned("trackingOnline"),
        connection_type: if c.wireless { owned("wireless") } else { owned("wired") },
        lacis_id: clone_opt(&c.lacis_id),
        candidate_lacis_id: None,
        product_type: None,
        network_device_type: None,
        fid: None,
        facility_name: None,
        metadata,
        label_customized: false,
        ssid: clone_opt(&c.ssid),
        created_at: owned(now),
        updated_at: owned(now),
    }
}

/// The first address of a list, if any.
pub open spec fn first_address(a: Seq<String>) -> Option<String> {
    if a.len() > 0 { Some(a[0]) } else { None }
}

/// The node order entry of an Omada WireGuard peer (keyed by its `F0`
/// pseudo-MAC).
pub open spec fn is_wg_entry(e: NodeOrderEntry, cid: Seq<char>, p: OmadaWgPeerDoc, gateway: Option<Seq<char>>, order: int, now: Seq<char>) -> bool {
    &&& e.mac@ == spec_pseudo_mac('0', p.peer_id@)
    &&& (e.parent_mac@, e.depth) == spec_wg_placement(gateway)
    &&& e.order == order
    &&& e.label == p.name
    &&& e.node_type@ == "wg_peer"@
    &&& e.ip == first_address(p.allow_address@)
    &&& e.hostname is None
    &&& e.source@ == "omada"@
    &&& opt_view(e.source_ref_id) == Some(source_ref("omada"@, cid, "wg"@, p.peer_id@))
    &&& e.status@ == spec_activity_status(p.status)
    &&& e.state_type@ == "trackingOnline"@
    &&& e.connection_type@ == "vpn"@
    &&& e.lacis_id is None
    &&& e.candidate_lacis_id is None
    &&& e.product_type is None
    &&& e.network_device_type is None
    &&& e.fid is None
    &&& e.facility_name is None
    &&& !e.label_customized
    &&& e.ssid is None
    &&& e.created_at@ == now
    &&& e.updated_at@ == now
}

pub(crate) fn clone_strings(v: &Vec<String>) -> (r: Vec<String>)
    ensures
        r@ == v@,
{
    let mut r: Vec<String> = Vec::new();
    let mut i: usize = 0;
    while i < v.len()
        invariant
            i <= v.len(),
            r@ == v@.take(i as int),
        decreases v.len() - i,
    {
        r.push(v[i].clone());
        assert(v@.take(i + 1) == v@.take(i as int).push(v@[i as int]));
        i = i + 1;
    }
    assert(v@.take(v@.len() as int) == v@);
    r
}

fn wg_entry(cid: &str, p: &OmadaWgPeerDoc, gateway: &Option<String>, order: u32, now: &str) -> (e: NodeOrderEntry)
    ensures
        is_wg_entry(e, cid@, *p, opt_view(*gateway), order as int, now@),
{
    let (parent_mac, depth) = wg_placement(gateway);
    let ip = if p.allow_address.len() > 0 { Some(p.allow_address[0].clone()) } else { None };
    let metadata = json_object(vec![
        (owned("interface_name"), json_of(p.interface_name.clone())),
        (owned("public_key"), json_of(p.public_key.clone())),
        (owned("allow_address"), json_of(clone_strings(&p.allow_address))),
        (owned("peer_id"), json_of(p.peer_id.clone())),
    ]);
    NodeOrderEntry {
        mac: wg_peer_pseudo_mac(p.peer_id.as_str()),
        parent_mac,
        depth,
        order,
        label: p.name.clone(),
        node_type: owned("wg_peer"),
        ip,
        hostname: None,
        source: owned("omada"),
        source_ref_id: Some(make_source_ref("omada", cid, "wg", p.peer_id.as_str())),
        status: activity_status(p.status),
        state_type: owned("trackingOnline"),
        connection_type: owned("vpn"),
        lacis_id: None,
        candidate_lacis_id: None,
        product_type: None,
        network_device_type: None,
        fid: None,
        facility_name: None,
        metadata,
        label_customized: false,
        ssid: None,
        created_at: owned(now),
        updated_at: owned(now),
    }
}



/// The entries that ingesting Omada controller `controller_id` upserts, in
/// order: its devices, then its clients, then its WireGuard peers, numbered
/// in that order. A gateway hangs under `INTERNET`, a switch under the
/// gateway, an access point under the first switch (else the gateway); a
/// client under the access point or switch it reports when that is one of
/// the controller's devices, else under the gateway; a peer under the
/// gateway. Without a gateway, `INTERNET` takes its place. The controller
/// itself is no node.
pub fn plan_omada_ingest(
    controller_id: &str,
    controllers: &Vec<OmadaControllerDoc>,
    devices: &Vec<OmadaDeviceDoc>,
    clients: &Vec<OmadaClientDoc>,
    peers: &Vec<OmadaWgPeerDoc>,
    now: &str,
) -> (r: Vec<NodeOrderEntry>)
    requires
        devices.len() + clients.len() + peers.len() <= u32::MAX,
        forall|k: int| 0 <= k < clients.len() ==> ascii_text((#[trigger] clients@[k]).mac@),
    ensures
        ({
            let cid = controller_id@;
            let ds = keep_where(devices@, device_of(cid));
            let cs = keep_where(clients@, client_of(cid));
            let ps = keep_where(peers@, peer_of(cid));
            let gateway = first_mac_of_type(devices@, cid, "gateway"@);
            let switch = first_mac_of_type(devices@, cid, "switch"@);
            &&& r@.len() == ds.len() + cs.len() + ps.len()
            &&& forall|i: int| 0 <= i < ds.len() ==> is_omada_device_entry(#[trigger] r@[i], cid,
                    site_of(controllers@, cid, ds[i].site_id@), ds[i], gateway, switch, i, now@)
            &&& forall|j: int| 0 <= j < cs.len() ==> is_omada_client_entry(#[trigger] r@[ds.len() + j], cid, cs[j],
                    |m: Seq<char>| is_device_mac(devices@, cid, m), gateway, switch, ds.len() + j, now@)
            &&& forall|k: int| 0 <= k < ps.len() ==> is_wg_entry(#[trigger] r@[ds.len() + cs.len() + k], cid, ps[k],
                    gateway, ds.len() + cs.len() + k, now@)
        }),
{
    let ghost cid = controller_id@;
    let gateway = find_first_mac(devices, controller_id, "gateway");
    let switch = find_first_mac(devices, controller_id, "switch");
    let macs = device_macs(devices, controller_id);
    let ctrl = find_controller(controllers, controller_id);
    let ghost gw = opt_view(gateway);
    let ghost sw = opt_view(switch);
    let ghost dp = device_of(cid);
    let ghost cp = client_of(cid);
    let ghost pp = peer_of(cid);
    let ghost known = |m: Seq<char>| is_device_mac(devices@, cid, m);
    assert(known =~= (|m: Seq<char>| has_mac(macs@, m)));

    let mut r: Vec<NodeOrderEntry> = Vec::new();
    let mut i: usize = 0;
    while i < devices.len()
        invariant
            i <= devices.len(),
            devices.len() + clients.len() + peers.len() <= u32::MAX,
            cid == controller_id@, dp == device_of(cid), gw == opt_view(gateway), sw == opt_view(switch),
            opt_index(ctrl) == first_index(controllers@, controller_with_id(cid)),
            ctrl matches Some(ci) ==> ci < controllers.len(),
            r@.len() == keep_where(devices@.take(i as int), dp).len(),
            forall|k: int| 0 <= k < r@.len() ==> is_omada_device_entry(#[trigger] r@[k], cid,
                site_of(controllers@, cid, keep_where(devices@.take(i as int), dp)[k].site_id@),
                keep_where(devices@.take(i as int), dp)[k], gw, sw, k, now@),
        decreases devices.len() - i,
    {
        proof {
            lemma_keep_step(devices@, dp, i as int);
        }
        let d = &devices[i];
        if str_eq(d.controller_id.as_str(), controller_id) {
            let site = match ctrl {
                Some(ci) => match find_site(&controllers[ci].sites, d.site_id.as_str()) {
                    Some(si) => Some(&controllers[ci].sites[si]),
                    None => None,
                },
                None => None,
            };
            let e = omada_device_entry(controller_id, site, d, &gateway, &switch, r.len() as u32, now);
            r.push(e);
        }
        i = i + 1;
    }
    assert(devices@.take(devices@.len() as int) =~= devices@);
    let ghost nd = r@.len();
    proof {
        lemma_keep_len(devices@, dp);
    }

    i = 0;
    while i < clients.len()
        invariant
            i <= clients.len(),
            devices.len() + clients.len() + peers.len() <= u32::MAX,
            nd == keep_where(devices@, dp).len(), nd <= devices.len(),
            forall|k: int| 0 <= k < clients.len() ==> ascii_text((#[trigger] clients@[k]).mac@),
            cid == controller_id@, dp == device_of(cid), cp == client_of(cid), gw == opt_view(gateway), sw == opt_view(switch),
            known == (|m: Seq<char>| has_mac(macs@, m)),
            known == (|m: Seq<char>| is_device_mac(devices@, cid, m)),
            r@.len() == nd + keep_where(clients@.take(i as int), cp).len(),
            forall|k: int| 0 <= k < nd ==> is_omada_device_entry(#[trigger] r@[k], cid,
                site_of(controllers@, cid, keep_where(devices@, dp)[k].site_id@),
                keep_where(devices@, dp)[k], gw, sw, k, now@),
            forall|j: int| 0 <= j < keep_where(clients@.take(i as int), cp).len() ==> is_omada_client_entry(#[trigger] r@[nd + j], cid,
                keep_where(clients@.take(i as int), cp)[j], known, gw, sw, nd + j, now@),
        decreases clients.len() - i,
    {
        proof {
            lemma_keep_step(clients@, cp, i as int);
        }
        let c = &clients[i];
        if str_eq(c.controller_id.as_str(), controller_id) {
            let e = omada_client_entry(controller_id, c, &macs, &gateway, &switch, r.len() as u32, now);
            r.push(e);
        }
        i = i + 1;
    }
    assert(clients@.take(clients@.len() as int) =~= clients@);
    let ghost nc = (r@.len() - nd) as nat;
    proof {
        lemma_keep_len(devices@, dp);
        lemma_keep_len(clients@, cp);
    }

    i = 0;
    while i < peers.len()
        invariant
            i <= peers.len(),
            devices.len() + clients.len() + peers.len() <= u32::MAX,
            nd == keep_where(devices@, dp).len(), nd <= devices.len(),
            nc == keep_where(clients@, cp).len(), nc <= clients.len(),
            cid == controller_id@, dp == device_of(cid), cp == client_of(cid), pp == peer_of(cid),
            gw == opt_view(gateway), sw == opt_view(switch),
            known == (|m: Seq<char>| is_device_mac(devices@, cid, m)),
            r@.len() == nd + nc + keep_where(peers@.take(i as int), pp).len(),
            forall|k: int| 0 <= k < nd ==> is_omada_device_entry(#[trigger] r@[k], cid,
                site_of(controllers@, cid, keep_where(devices@, dp)[k].site_id@),
                keep_where(devices@, dp)[k], gw, sw, k, now@),
            forall|j: int| 0 <= j < nc ==> is_omada_client_entry(#[trigger] r@[nd + j], cid,
                keep_where(clients@, cp)[j], known, gw, sw, nd + j, now@),
            forall|k: int| 0 <= k < keep_where(peers@.take(i as int), pp).len() ==> is_wg_entry(#[trigger] r@[nd + nc + k], cid,
                keep_where(peers@.take(i as int), pp)[k], gw, nd + nc + k, now@),
        decreases peers.len() - i,
    {
        proof {
            lemma_keep_step(peers@, pp, i as int);
        }
        let p = &peers[i];
        if str_eq(p.controller_id.as_str(), controller_id) {
            let e = wg_entry(controller_id, p, &gateway, r.len() as u32, now);
            r.push(e);
        }
        i = i + 1;
    }
    assert(peers@.take(peers@.len() as int) =~= peers@);
    r
}


/// With a gateway present, nothing but a gateway hangs directly under
/// `INTERNET`: devices, clients and peers of the controller fall back to the
/// gateway (the MACs involved being real MACs, not the word `INTERNET`).
pub proof fn lemma_gateway_anchors_orphans(
    e: NodeOrderEntry,
    cid: Seq<char>,
    now: Seq<char>,
    order: int,
    gateway: Seq<char>,
    switch: Option<Seq<char>>,
    site: Option<OmadaSiteMapping>,
    device: OmadaDeviceDoc,
    client: OmadaClientDoc,
    peer: OmadaWgPeerDoc,
    is_device: spec_fn(Seq<char>) -> bool,
)
    requires
        gateway != "INTERNET"@,
        switch != Some("INTERNET"@),
        !is_device("INTERNET"@),
    ensures
        is_omada_device_entry(e, cid, site, device, Some(gateway), switch, order, now) && device.device_type@ != "gateway"@
            ==> e.parent_mac@ != "INTERNET"@ && e.depth >= 2,
        is_omada_client_entry(e, cid, client, is_device, Some(gateway), switch, order, now)
            ==> e.parent_mac@ != "INTERNET"@ && e.depth >= 2,
        is_wg_entry(e, cid, peer, Some(gateway), order, now) ==> e.parent_mac@ != "INTERNET"@ && e.depth == 2,
{
}


// ----------------------------------------------------------------------------
// Ingesting an OpenWrt router or an external device
// ----------------------------------------------------------------------------

pub open spec fn omada_client_with_mac(mac: Seq<char>) -> spec_fn(OmadaClientDoc) -> bool {
    |c: OmadaClientDoc| spec_normalize_mac(c.mac@) == mac
}

/// The first Omada client whose normalized MAC is `mac`.
pub open spec fn omada_match(cs: Seq<OmadaClientDoc>, mac: Seq<char>) -> Option<OmadaClientDoc> {
    match first_index(cs, omada_client_with_mac(mac)) {
        Some(i) => Some(cs[i]),
        None => None,
    }
}

fn find_omada_client(cs: &Vec<OmadaClientDoc>, mac: &String) -> (r: Option<usize>)
    ensures
        opt_index(r) == first_index(cs@, omada_client_with_mac(mac@)),
        r matches Some(i) ==> i < cs.len(),
{
    let ghost p = omada_client_with_mac(mac@);
    let mut i: usize = 0;
    while i < cs.len()
        invariant
            i <= cs.len(),
            p == omada_client_with_mac(mac@),
            forall|k: int| 0 <= k < i ==> !p(#[trigger] cs@[k]),
        decreases cs.len() - i,
    {
        let m = normalize_mac_for_lacis_id(cs[i].mac.as_str());
        if str_eq(m.as_str(), mac.as_str()) {
            proof {
                lemma_first_is(cs@, p, i as int);
            }
            return Some(i);
        }
        i = i + 1;
    }
    proof {
        lemma_first_none(cs@, p);
    }
    None
}

/// The entry of an uplinked node (a router or an external device): keyed by
/// its normalized MAC, placed under `spec_uplink_parent`, first among its
/// siblings.
pub open spec fn is_uplinked_entry(e: NodeOrderEntry, mac: Seq<char>, existing_parent: Option<Seq<char>>,
    omada_clients: Seq<OmadaClientDoc>, label: String, node_type: Seq<char>, ip: String, source: Seq<char>,
    source_ref_id: Seq<char>, status: String, lacis_id: Option<String>, product_type: String,
    network_device_type: String, now: Seq<char>) -> bool {
    &&& e.mac@ == spec_normalize_mac(mac)
    &&& e.parent_mac@ == spec_uplink_parent(existing_parent, omada_match(omada_clients, e.mac@))
    &&& e.depth == spec_shallow_depth(e.parent_mac@)
    &&& e.order == 0
    &&& e.label == label
    &&& e.node_type@ == node_type
    &&& e.ip == Some(ip)
    &&& e.hostname is None
    &&& e.source@ == source
    &&& opt_view(e.source_ref_id) == Some(source_ref_id)
    &&& e.status == status
    &&& e.state_type@ == "trackingOnline"@
    &&& e.connection_type@ == "wired"@
    &&& e.lacis_id == lacis_id
    &&& opt_view(e.candidate_lacis_id) == Some(spec_lacis_id('4', product_type@, e.mac@, "0000"@))
    &&& e.product_type == Some(product_type)
    &&& e.network_device_type == Some(network_device_type)
    &&& e.fid is None
    &&& e.facility_name is None
    &&& !e.label_customized
    &&& e.ssid is None
    &&& e.created_at@ == now
    &&& e.updated_at@ == now
}

/// The entry of a client of an uplinked node, `order`-th among its clients.
pub open spec fn is_downstream_client_entry(e: NodeOrderEntry, c_mac: Seq<char>, parent: NodeOrderEntry,
    hostname: Option<String>, ip: Option<String>, source: Seq<char>, source_ref_id: Seq<char>, active: bool,
    lacis_id: Option<String>, order: int, now: Seq<char>) -> bool {
    &&& e.mac@ == spec_normalize_mac(c_mac)
    &&& e.parent_mac@ == parent.mac@
    &&& e.depth == parent.depth + 1
    &&& e.order == order
    &&& e.label@ == spec_client_label(hostname, None, None, c_mac)
    &&& e.node_type@ == "client"@
    &&& e.ip == ip
    &&& e.hostname == hostname
    &&& e.source@ == source
    &&& opt_view(e.source_ref_id) == Some(source_ref_id)
    &&& e.status@ == spec_activity_status(active)
    &&& e.state_type@ == "trackingOnline"@
    &&& e.connection_type@ == "wired"@
    &&& e.lacis_id == lacis_id
    &&& e.candidate_lacis_id is None
    &&& e.product_type is None
    &&& e.network_device_type is None
    &&& e.fid is None
    &&& e.facility_name is None
    &&& !e.label_customized
    &&& e.ssid is None
    &&& e.created_at@ == now
    &&& e.updated_at@ == now
}

pub open spec fn openwrt_client_of(router_id: Seq<char>) -> spec_fn(OpenWrtClientDoc) -> bool {
    |c: OpenWrtClientDoc| c.router_id@ == router_id
}

pub open spec fn external_client_of(device_id: Seq<char>) -> spec_fn(ExternalClientDoc) -> bool {
    |c: ExternalClientDoc| c.device_id@ == device_id
}

/// The entries that ingesting an OpenWrt router upserts: the router, then
/// its clients under it, numbered from 0. `existing_parent` is the router's
/// parent in the node order, if it is already there.
pub fn plan_openwrt_ingest(
    router: &OpenWrtRouterDoc,
    existing_parent: &Option<String>,
    omada_clients: &Vec<OmadaClientDoc>,
    clients: &Vec<OpenWrtClientDoc>,
    now: &str,
) -> (r: Vec<NodeOrderEntry>)
    requires
        clients.len() <= u32::MAX,
        forall|k: int| 0 <= k < clients.len() ==> ascii_text((#[trigger] clients@[k]).mac@),
    ensures
        ({
            let rid = router.router_id@;
            let cs = keep_where(clients@, openwrt_client_of(rid));
            &&& r@.len() == 1 + cs.len()
            &&& is_uplinked_entry(r@[0], router.mac@, opt_view(*existing_parent), omada_clients@, router.display_name,
                    "router"@, router.ip, "openwrt"@, source_ref("openwrt"@, rid, "dev"@, router.mac@), router.status,
                    router.lacis_id, router.product_type, router.network_device_type, now@)
            &&& forall|i: int| 0 <= i < cs.len() ==> is_downstream_client_entry(#[trigger] r@[1 + i], cs[i].mac@, r@[0],
                    cs[i].hostname, Some(cs[i].ip), "openwrt"@, source_ref("openwrt"@, rid, "cli"@, cs[i].mac@),
                    cs[i].active, cs[i].lacis_id, i, now@)
        }),
{
    let mac = normalize_mac_for_lacis_id(router.mac.as_str());
    let found = find_omada_client(omada_clients, &mac);
    let m = match found {
        Some(i) => Some(&omada_clients[i]),
        None => None,
    };
    let parent_mac = uplink_parent(existing_parent, m);
    let depth = shallow_depth(&parent_mac);
    let candidate = compute_network_device_lacis_id(router.product_type.as_str(), mac.as_str(),
        default_product_code(router.network_device_type.as_str()));
    let metadata = json_object(vec![
        (owned("wan_ip"), json_of(clone_opt(&router.wan_ip))),
        (owned("lan_ip"), json_of(clone_opt(&router.lan_ip))),
        (owned("ssid_24g"), json_of(clone_opt(&router.ssid_24g))),
        (owned("ssid_5g"), json_of(clone_opt(&router.ssid_5g))),
        (owned("firmware_version"), json_of(clone_opt(&router.firmware_version))),
        (owned("client_count"), json_of(router.client_count)),
        (owned("uptime_seconds"), json_of(router.uptime_seconds)),
        (owned("router_id"), json_of(router.router_id.clone())),
    ]);
    let head = NodeOrderEntry {
        mac: mac.clone(),
        parent_mac,
        depth,
        order: 0,
        label: router.display_name.clone(),
        node_type: owned("router"),
        ip: Some(router.ip.clone()),
        hostname: None,
        source: owned("openwrt"),
        source_ref_id: Some(make_source_ref("openwrt", router.router_id.as_str(), "dev", router.mac.as_str())),
        status: router.status.clone(),
        state_type: owned("trackingOnline"),
        connection_type: owned("wired"),
        lacis_id: clone_opt(&router.lacis_id),
        candidate_lacis_id: Some(candidate),
        product_type: Some(router.product_type.clone()),
        network_device_type: Some(router.network_device_type.clone()),
        fid: None,
        facility_name: None,
        metadata,
        label_customized: false,
        ssid: None,
        created_at: owned(now),
        updated_at: owned(now),
    };
    let ghost h = head;
    let mut r: Vec<NodeOrderEntry> = Vec::new();
    r.push(head);
    let ghost rid = router.router_id@;
    let ghost p = openwrt_client_of(rid);
    let mut i: usize = 0;
    while i < clients.len()
        invariant
            i <= clients.len(),
            clients.len() <= u32::MAX,
            forall|k: int| 0 <= k < clients.len() ==> ascii_text((#[trigger] clients@[k]).mac@),
            rid == router.router_id@, p == openwrt_client_of(rid),
            h.mac@ == mac@, h.depth == depth, depth <= 2,
            r@.len() == 1 + keep_where(clients@.take(i as int), p).len(),
            r@[0] == h,
            forall|k: int| 0 <= k < keep_where(clients@.take(i as int), p).len() ==> is_downstream_client_entry(
                #[trigger] r@[1 + k], keep_where(clients@.take(i as int), p)[k].mac@, h,
                keep_where(clients@.take(i as int), p)[k].hostname, Some(keep_where(clients@.take(i as int), p)[k].ip),
                "openwrt"@, source_ref("openwrt"@, rid, "cli"@, keep_where(clients@.take(i as int), p)[k].mac@),
                keep_where(clients@.take(i as int), p)[k].active, keep_where(clients@.take(i as int), p)[k].lacis_id, k, now@),
        decreases clients.len() - i,
    {
        proof {
            lemma_keep_step(clients@, p, i as int);
        }
        let c = &clients[i];
        if str_eq(c.router_id.as_str(), router.router_id.as_str()) {
            let order = (r.len() - 1) as u32;
            let e = NodeOrderEntry {
                mac: normalize_mac_for_lacis_id(c.mac.as_str()),
                parent_mac: mac.clone(),
                depth: depth + 1,
                order,
                label: client_label(&c.hostname, &None, &None, c.mac.as_str()),
                node_type: owned("client"),
                ip: Some(c.ip.clone()),
                hostname: clone_opt(&c.hostname),
                source: owned("openwrt"),
                source_ref_id: Some(make_source_ref("openwrt", router.router_id.as_str(), "cli", c.mac.as_str())),
                status: activity_status(c.active),
                state_type: owned("trackingOnline"),
                connection_type: owned("wired"),
                lacis_id: clone_opt(&c.lacis_id),
                candidate_lacis_id: None,
                product_type: None,
                network_device_type: None,
                fid: None,
                facility_name: None,
                metadata: json_object(vec![(owned("router_id"), json_of(router.router_id.clone()))]),
                label_customized: false,
                ssid: None,
                created_at: owned(now),
                updated_at: owned(now),
            };
            r.push(e);
        }
        i = i + 1;
    }
    assert(clients@.take(clients@.len() as int) =~= clients@);
    r
}


/// The entries that ingesting an external device upserts: nothing for a
/// device without a MAC; else the device, then its clients under it,
/// numbered from 0. `existing_parent` is the device's parent in the node
/// order, if it is already there.
pub fn plan_external_ingest(
    device: &ExternalDeviceDoc,
    existing_parent: &Option<String>,
    omada_clients: &Vec<OmadaClientDoc>,
    clients: &Vec<ExternalClientDoc>,
    now: &str,
) -> (r: Vec<NodeOrderEntry>)
    requires
        clients.len() <= u32::MAX,
        forall|k: int| 0 <= k < clients.len() ==> ascii_text((#[trigger] clients@[k]).mac@),
    ensures
        device.mac@.len() == 0 ==> r@.len() == 0,
        device.mac@.len() > 0 ==> ({
            let did = device.device_id@;
            let cs = keep_where(clients@, external_client_of(did));
            &&& r@.len() == 1 + cs.len()
            &&& is_uplinked_entry(r@[0], device.mac@, opt_view(*existing_parent), omada_clients@, device.display_name,
                    "external"@, device.ip, "external"@, source_ref("external"@, did, "dev"@, device.mac@), device.status,
                    device.lacis_id, device.product_type, device.network_device_type, now@)
            &&& forall|i: int| 0 <= i < cs.len() ==> is_downstream_client_entry(#[trigger] r@[1 + i], cs[i].mac@, r@[0],
                    cs[i].hostname, cs[i].ip, "external"@, source_ref("external"@, did, "cli"@, cs[i].mac@),
                    cs[i].active, cs[i].lacis_id, i, now@)
        }),
{
    let mut r: Vec<NodeOrderEntry> = Vec::new();
    if device.mac.as_str().is_empty() {
        return r;
    }
    let mac = normalize_mac_for_lacis_id(device.mac.as_str());
    let found = find_omada_client(omada_clients, &mac);
    let m = match found {
        Some(i) => Some(&omada_clients[i]),
        None => None,
    };
    let parent_mac = uplink_parent(existing_parent, m);
    let depth = shallow_depth(&parent_mac);
    let candidate = compute_network_device_lacis_id(device.product_type.as_str(), mac.as_str(),
        default_product_code(device.network_device_type.as_str()));
    let metadata = json_object(vec![
        (owned("protocol"), json_of(device.protocol.clone())),
        (owned("device_model"), json_of(clone_opt(&device.device_model))),
        (owned("client_count"), json_of(device.client_count)),
        (owned("device_id"), json_of(device.device_id.clone())),
    ]);
    let head = NodeOrderEntry {
        mac: mac.clone(),
        parent_mac,
        depth,
        order: 0,
        label: device.display_name.clone(),
        node_type: owned("external"),
        ip: Some(device.ip.clone()),
        hostname: None,
        source: owned("external"),
        source_ref_id: Some(make_source_ref("external", device.device_id.as_str(), "dev", device.mac.as_str())),
        status: device.status.clone(),
        state_type: owned("trackingOnline"),
        connection_type: owned("wired"),
        lacis_id: clone_opt(&device.lacis_id),
        candidate_lacis_id: Some(candidate),
        product_type: Some(device.product_type.clone()),
        network_device_type: Some(device.network_device_type.clone()),
        fid: None,
        facility_name: None,
        metadata,
        label_customized: false,
        ssid: None,
        created_at: owned(now),
        updated_at: owned(now),
    };
    let ghost h = head;
    r.push(head);
    let ghost did = device.device_id@;
    let ghost p = external_client_of(did);
    let mut i: usize = 0;
    while i < clients.len()
        invariant
            i <= clients.len(),
            clients.len() <= u32::MAX,
            forall|k: int| 0 <= k < clients.len() ==> ascii_text((#[trigger] clients@[k]).mac@),
            did == device.device_id@, p == external_client_of(did),
            h.mac@ == mac@, h.depth == depth, depth <= 2,
            r@.len() == 1 + keep_where(clients@.take(i as int), p).len(),
            r@[0] == h,
            forall|k: int| 0 <= k < keep_where(clients@.take(i as int), p).len() ==> is_downstream_client_entry(
                #[trigger] r@[1 + k], keep_where(clients@.take(i as int), p)[k].mac@, h,
                keep_where(clients@.take(i as int), p)[k].hostname, keep_where(clients@.take(i as int), p)[k].ip,
                "external"@, source_ref("external"@, did, "cli"@, keep_where(clients@.take(i as int), p)[k].mac@),
                keep_where(clients@.take(i as int), p)[k].active, keep_where(clients@.take(i as int), p)[k].lacis_id, k, now@),
        decreases clients.len() - i,
    {
        proof {
            lemma_keep_step(clients@, p, i as int);
        }
        let c = &clients[i];
        if str_eq(c.device_id.as_str(), device.device_id.as_str()) {
            let order = (r.len() - 1) as u32;
            let e = NodeOrderEntry {
                mac: normalize_mac_for_lacis_id(c.mac.as_str()),
                parent_mac: mac.clone(),
                depth: depth + 1,
                order,
                label: client_label(&c.hostname, &None, &None, c.mac.as_str()),
                node_type: owned("client"),
                ip: clone_opt(&c.ip),
                hostname: clone_opt(&c.hostname),
                source: owned("external"),
                source_ref_id: Some(make_source_ref("external", device.device_id.as_str(), "cli", c.mac.as_str())),
                status: activity_status(c.active),
                state_type: owned("trackingOnline"),
                connection_type: owned("wired"),
                lacis_id: clone_opt(&c.lacis_id),
                candidate_lacis_id: None,
                product_type: None,
                network_device_type: None,
                fid: None,
                facility_name: None,
                metadata: json_object(vec![(owned("device_id"), json_of(device.device_id.clone()))]),
                label_customized: false,
                ssid: None,
                created_at: owned(now),
                updated_at: owned(now),
            };
            r.push(e);
        }
        i = i + 1;
    }
    assert(clients@.take(clients@.len() as int) =~= clients@);
    r
}

/// Where the repair of Omada device parents moves an access point: from
/// under the gateway to under the controller's first switch (depth 3); an
/// access point placed anywhere else (moved by hand) stays.
pub open spec fn spec_repair_ap(current_parent: Seq<char>, gateway: Option<Seq<char>>, switch: Seq<char>) -> Option<(Seq<char>, u32)> {
    if gateway == Some(current_parent) { Some((switch, 3u32)) } else { None }
}

pub fn repair_ap(current_parent: &String, gateway: &Option<String>, switch: &String) -> (r: Option<(String, u32)>)
    ensures
        match r {
            Some((p, d)) => spec_repair_ap(current_parent@, opt_view(*gateway), switch@) == Some((p@, d)),
            None => spec_repair_ap(current_parent@, opt_view(*gateway), switch@) is None,
        },
{
    if same_mac(gateway, current_parent) {
        Some((switch.clone(), 3))
    } else {
        None
    }
}

/// A node under one of the controller's access points belongs at depth 4
/// (INTERNET 0, gateway 1, switch 2, access point 3); the repair resets a
/// different depth, when the controller has a gateway.
pub open spec fn spec_repair_client_depth(depth: u32, under_ap: bool, has_gateway: bool) -> Option<u32> {
    if under_ap && depth != 4 && has_gateway { Some(4u32) } else { None }
}

pub fn repair_client_depth(depth: u32, under_ap: bool, has_gateway: bool) -> (r: Option<u32>)
    ensures
        r == spec_repair_client_depth(depth, under_ap, has_gateway),
{
    if under_ap && depth != 4 && has_gateway { Some(4) } else { None }
}


// ----------------------------------------------------------------------------
// Migration of the earlier node ids to MACs
// ----------------------------------------------------------------------------

/// Depth of an Omada client when the node order is first built: one below
/// its parent, whose depth is 0 for `INTERNET`, 1 for any controller's
/// gateway, 2 for any controller's first switch, and for an access point 3
/// when the client's controller has a switch, else 2.
pub open spec fn spec_migration_client_depth(parent: Seq<char>, gateways: Seq<String>, switches: Seq<String>, has_switch: bool) -> u32 {
    if parent == "INTERNET"@ {
        1
    } else if has_mac(gateways, parent) {
        2
    } else if has_mac(switches, parent) {
        3
    } else if has_switch {
        4
    } else {
        3
    }
}

pub fn migration_client_depth(parent: &String, gateways: &Vec<String>, switches: &Vec<String>, has_switch: bool) -> (r: u32)
    ensures
        r == spec_migration_client_depth(parent@, gateways@, switches@, has_switch),
{
    if str_eq(parent.as_str(), "INTERNET") {
        1
    } else if contains_mac(gateways, parent) {
        2
    } else if contains_mac(switches, parent) {
        3
    } else if has_switch {
        4
    } else {
        3
    }
}

/// Parent of a router or external device when the node order is first
/// built: when it shows up as an Omada client, the access point (wireless) or
/// switch (wired) it is attached to, if that is a known device; else
/// `INTERNET`.
pub open spec fn spec_migration_uplink(omada_match: Option<OmadaClientDoc>, is_device: spec_fn(Seq<char>) -> bool) -> Seq<char> {
    match omada_match {
        Some(c) => spec_client_parent(c.wireless, opt_view(c.ap_mac), opt_view(c.switch_mac), is_device, None),
        None => "INTERNET"@,
    }
}

pub fn migration_uplink(omada_match: Option<&OmadaClientDoc>, device_macs: &Vec<String>) -> (r: String)
    ensures
        r@ == spec_migration_uplink(match omada_match { Some(c) => Some(*c), None => None },
            |m: Seq<char>| has_mac(device_macs@, m)),
{
    match omada_match {
        Some(c) => client_parent(c.wireless, &c.ap_mac, &c.switch_mac, device_macs, &None),
        None => owned("INTERNET"),
    }
}

/// Depth of a node placed under a router, an external device or another
/// node by the migration: 1 under `INTERNET`, else 3.
pub open spec fn spec_downstream_depth(parent: Seq<char>) -> u32 {
    if parent == "INTERNET"@ { 1 } else { 3 }
}

pub fn downstream_depth(parent: &String) -> (r: u32)
    ensures
        r == spec_downstream_depth(parent@),
{
    if str_eq(parent.as_str(), "INTERNET") { 1 } else { 3 }
}

/// The new id recorded for an earlier id (the first pair that names it).
pub open spec fn migrated_id(pairs: Seq<(String, String)>, old: Seq<char>) -> Option<Seq<char>> {
    match first_index(pairs, |p: (String, String)| p.0@ == old) {
        Some(i) => Some(pairs[i].1@),
        None => None,
    }
}

pub fn find_migrated_id(pairs: &Vec<(String, String)>, old: &str) -> (r: Option<String>)
    ensures
        opt_view(r) == migrated_id(pairs@, old@),
{
    let ghost p = |q: (String, String)| q.0@ == old@;
    let mut i: usize = 0;
    while i < pairs.len()
        invariant
            i <= pairs.len(),
            p == (|q: (String, String)| q.0@ == old@),
            forall|k: int| 0 <= k < i ==> !p(#[trigger] pairs@[k]),
        decreases pairs.len() - i,
    {
        if str_eq(pairs[i].0.as_str(), old) {
            proof {
                lemma_first_is(pairs@, p, i as int);
            }
            return Some(pairs[i].1.clone());
        }
        i = i + 1;
    }
    proof {
        lemma_first_none(pairs@, p);
    }
    None
}

/// Parent of a logic device when the node order is first built: the new id
/// of its earlier parent id, else `INTERNET`.
pub open spec fn spec_logic_parent(parent_id: Option<Seq<char>>, pairs: Seq<(String, String)>) -> Seq<char> {
    match parent_id {
        Some(pid) => or_internet(migrated_id(pairs, pid)),
        None => "INTERNET"@,
    }
}

/// The node order entry of a logic device, keyed by the `F2` pseudo-MAC of
/// its UUID (its id without the `logic:` prefix).
pub open spec fn is_logic_entry(e: NodeOrderEntry, d: LogicDeviceDoc, pairs: Seq<(String, String)>, order: int, now: Seq<char>) -> bool {
    &&& e.mac@ == spec_pseudo_mac('2', without_prefix("logic:"@, d.id@))
    &&& e.parent_mac@ == spec_logic_parent(opt_view(d.parent_id), pairs)
    &&& e.depth == spec_downstream_depth(e.parent_mac@)
    &&& e.order == order
    &&& e.label == d.label
    &&& e.node_type@ == "logic_device"@
    &&& e.ip == d.ip
    &&& e.hostname is None
    &&& e.source@ == "manual"@
    &&& e.source_ref_id == Some(d.id)
    &&& e.status@ == "manual"@
    &&& e.state_type@ == "manual"@
    &&& e.connection_type@ == "wired"@
    &&& e.lacis_id == d.lacis_id
    &&& e.candidate_lacis_id is None
    &&& e.product_type is None
    &&& e.network_device_type == Some(d.device_type)
    &&& e.fid is None
    &&& e.facility_name is None
    &&& !e.label_customized
    &&& e.ssid is None
    &&& e.created_at == d.created_at
    &&& e.updated_at@ == now
}

/// The node order entry of a logic device (see `is_logic_entry`).
pub fn logic_device_entry(d: &LogicDeviceDoc, pairs: &Vec<(String, String)>, order: u32, now: &str) -> (e: NodeOrderEntry)
    ensures
        is_logic_entry(e, *d, pairs@, order as int, now@),
{
    let uuid = strip_prefix_or_self(d.id.as_str(), "logic:");
    let parent_mac = match &d.parent_id {
        Some(pid) => match find_migrated_id(pairs, pid.as_str()) {
            Some(m) => m,
            None => owned("INTERNET"),
        },
        None => owned("INTERNET"),
    };
    let depth = downstream_depth(&parent_mac);
    let metadata = json_object(vec![
        (owned("location"), json_of(clone_opt(&d.location))),
        (owned("note"), json_of(clone_opt(&d.note))),
        (owned("logic_device_id"), json_of(d.id.clone())),
    ]);
    NodeOrderEntry {
        mac: logic_device_pseudo_mac(uuid.as_str()),
        parent_mac,
        depth,
        order,
        label: d.label.clone(),
        node_type: owned("logic_device"),
        ip: clone_opt(&d.ip),
        hostname: None,
        source: owned("manual"),
        source_ref_id: Some(d.id.clone()),
        status: owned("manual"),
        state_type: owned("manual"),
        connection_type: owned("wired"),
        lacis_id: clone_opt(&d.lacis_id),
        candidate_lacis_id: None,
        product_type: None,
        network_device_type: Some(d.device_type.clone()),
        fid: None,
        facility_name: None,
        metadata,
        label_customized: false,
        ssid: None,
        created_at: d.created_at.clone(),
        updated_at: owned(now),
    }
}

} // verus!
