//! The topology endpoints: the first (v1) view, metadata, node edits and
//! logic devices.

use vstd::prelude::*;
use crate::auth::AppError;
use crate::docs::LogicDeviceDoc;
use crate::json::{clone_json, json_object, json_of};
use crate::mac::{logic_device_pseudo_mac, spec_pseudo_mac};
use crate::node_order::{clone_opt, opt_view};
use crate::seqs::{count_where, keep_where, lemma_count_step, lemma_keep_step};
use crate::text::{append_str, owned, str_eq, trim_str, trimmed};
use crate::topology::{first_gateway, RawEdge, RawNode, RawTopology, ReparentError, TopologyEdge, UserObjectDetail};

verus! {

/// Counts shown with the v2 topology.
pub struct TopologyMetadata {
    pub total_devices: usize,
    pub total_clients: usize,
    pub controllers: usize,
    pub routers: usize,
    pub logic_devices: usize,
    pub generated_at: String,
}

/// The saved view settings.
pub struct ViewConfig {
    pub collapsed_node_ids: Vec<String>,
}

/// Counts shown with the v1 topology.
pub struct TopologyMetadataV1 {
    pub total_devices: usize,
    pub total_clients: usize,
    pub controllers: usize,
    pub routers: usize,
    pub generated_at: String,
}

/// A node of the v1 topology.
pub struct TopologyNodeV1 {
    pub id: String,
    pub label: String,
    pub node_type: String,
    pub mac: Option<String>,
    pub ip: Option<String>,
    pub source: String,
    pub parent_id: Option<String>,
    pub lacis_id: Option<String>,
    pub candidate_lacis_id: Option<String>,
    pub product_type: Option<String>,
    pub network_device_type: Option<String>,
    pub status: String,
    pub metadata: serde_json::Value,
}

/// The v1 topology.
pub struct TopologyResponse {
    pub nodes: Vec<TopologyNodeV1>,
    pub edges: Vec<TopologyEdge>,
    pub metadata: TopologyMetadataV1,
}

/// The v2 topology query: view `full` (default), `routes` or `site` (with
/// a facility id), and whether collapsed nodes hide their subtrees (default
/// yes).
pub struct TopologyV2Query {
    pub view: String,
    pub fid: Option<String>,
    pub collapsed: bool,
}

impl TopologyV2Query {
    /// The view when none is named: `full`.
    pub fn default_view() -> (r: String)
        ensures
            r@ == "full"@,
    {
        owned("full")
    }

    /// Collapsing applies unless the query turns it off.
    pub fn default_collapsed() -> (r: bool)
        ensures
            r,
    {
        true
    }
}

pub struct UpdateLabelRequest {
    pub label: String,
}

pub struct UpdateParentRequest {
    pub new_parent_id: String,
}

pub struct CollapseRequest {
    pub collapsed: bool,
}

pub struct UpdateOrderRequest {
    pub new_order: u32,
}

pub struct CreateLogicDeviceRequest {
    pub label: String,
    pub device_type: String,
    pub parent_id: Option<String>,
    pub ip: Option<String>,
    pub location: Option<String>,
    pub note: Option<String>,
}

pub struct UpdateLogicDeviceRequest {
    pub label: Option<String>,
    pub device_type: Option<String>,
    pub parent_id: Option<String>,
    pub ip: Option<String>,
    pub location: Option<String>,
    pub note: Option<String>,
}

/// A deletion that awaits confirmation.
pub struct ConfirmRequired {
    pub action: String,
    pub target: String,
    pub warning: String,
    pub confirm_required: bool,
}

pub open spec fn node_of_type(t: Seq<char>) -> spec_fn(RawNode) -> bool {
    |n: RawNode| n.node_type@ == t
}

pub open spec fn node_of_source(s: Seq<char>) -> spec_fn(RawNode) -> bool {
    |n: RawNode| n.source@ == s
}

fn count_nodes(nodes: &Vec<RawNode>, by_type: bool, value: &str) -> (r: usize)
    ensures
        r == count_where(nodes@, if by_type { node_of_type(value@) } else { node_of_source(value@) }),
{
    let ghost p = if by_type { node_of_type(value@) } else { node_of_source(value@) };
    let mut n: usize = 0;
    let mut i: usize = 0;
    while i < nodes.len()
        invariant
            i <= nodes.len(),
            p == (if by_type { node_of_type(value@) } else { node_of_source(value@) }),
            n == count_where(nodes@.take(i as int), p),
            n <= i,
        decreases nodes.len() - i,
    {
        proof {
            lemma_count_step(nodes@, p, i as int);
        }
        let hit = if by_type { str_eq(nodes[i].node_type.as_str(), value) } else { str_eq(nodes[i].source.as_str(), value) };
        if hit {
            n = n + 1;
        }
        i = i + 1;
    }
    assert(nodes@.take(nodes.len() as int) =~= nodes@);
    n
}

/// The v2 metadata: the built topology's counts, the controllers, and the
/// routers and logic (manual) nodes among the nodes.
pub fn topology_metadata(raw: &RawTopology, controllers: usize, generated_at: String) -> (m: TopologyMetadata)
    ensures
        m.total_devices == raw.device_count,
        m.total_clients == raw.client_count,
        m.controllers == controllers,
        m.routers == count_where(raw.nodes@, node_of_type("router"@)),
        m.logic_devices == count_where(raw.nodes@, node_of_source("manual"@)),
        m.generated_at == generated_at,
{
    TopologyMetadata {
        total_devices: raw.device_count,
        total_clients: raw.client_count,
        controllers,
        routers: count_nodes(&raw.nodes, true, "router"),
        logic_devices: count_nodes(&raw.nodes, false, "manual"),
        generated_at,
    }
}

/// Some node has this id.
pub open spec fn has_node(ns: Seq<RawNode>, id: Seq<char>) -> bool {
    exists|k: int| 0 <= k < ns.len() && (#[trigger] ns[k]).id@ == id
}

fn node_exists(nodes: &Vec<RawNode>, id: &String) -> (r: bool)
    ensures
        r == has_node(nodes@, id@),
{
    let mut i: usize = 0;
    while i < nodes.len()
        invariant
            i <= nodes.len(),
            forall|k: int| 0 <= k < i ==> (#[trigger] nodes@[k]).id@ != id@,
        decreases nodes.len() - i,
    {
        if str_eq(nodes[i].id.as_str(), id.as_str()) {
            return true;
        }
        i = i + 1;
    }
    false
}

pub open spec fn edge_within(ns: Seq<RawNode>) -> spec_fn(RawEdge) -> bool {
    |e: RawEdge| has_node(ns, e.from@) && has_node(ns, e.to@)
}

pub open spec fn v1_node(o: TopologyNodeV1, n: RawNode) -> bool {
    &&& o.id == n.id
    &&& o.label == n.label
    &&& o.node_type == n.node_type
    &&& o.mac == n.mac
    &&& o.ip == n.ip
    &&& o.source == n.source
    &&& o.parent_id == n.parent_id
    &&& o.lacis_id == n.lacis_id
    &&& o.candidate_lacis_id == n.candidate_lacis_id
    &&& o.product_type == n.product_type
    &&& o.network_device_type == n.network_device_type
    &&& o.status == n.status
    &&& o.metadata == n.metadata
}

pub open spec fn v1_edge(o: TopologyEdge, e: RawEdge) -> bool {
    o.from == e.from && o.to == e.to && o.edge_type == e.edge_type && o.label == e.label
}

/// The v1 topology: every node, the edges whose ends are both nodes, and
/// the counts (routers among the nodes).
pub fn topology_v1(raw: &RawTopology, controllers: usize, generated_at: String) -> (t: TopologyResponse)
    ensures
        t.nodes@.len() == raw.nodes@.len(),
        forall|i: int| 0 <= i < raw.nodes@.len() ==> #[trigger] v1_node(t.nodes@[i], raw.nodes@[i]),
        t.edges@.len() == keep_where(raw.edges@, edge_within(raw.nodes@)).len(),
        forall|i: int| 0 <= i < t.edges@.len() ==> #[trigger] v1_edge(t.edges@[i], keep_where(raw.edges@, edge_within(raw.nodes@))[i]),
        t.metadata.total_devices == raw.device_count,
        t.metadata.total_clients == raw.client_count,
        t.metadata.controllers == controllers,
        t.metadata.routers == count_where(raw.nodes@, node_of_type("router"@)),
        t.metadata.generated_at == generated_at,
{
    let mut nodes: Vec<TopologyNodeV1> = Vec::new();
    let mut i: usize = 0;
    while i < raw.nodes.len()
        invariant
            i <= raw.nodes.len(),
            nodes@.len() == i,
            forall|k: int| 0 <= k < i ==> #[trigger] v1_node(nodes@[k], raw.nodes@[k]),
        decreases raw.nodes.len() - i,
    {
        let n = &raw.nodes[i];
        nodes.push(TopologyNodeV1 {
            id: n.id.clone(),
            label: n.label.clone(),
            node_type: n.node_type.clone(),
            mac: clone_opt(&n.mac),
            ip: clone_opt(&n.ip),
            source: n.source.clone(),
            parent_id: clone_opt(&n.parent_id),
            lacis_id: clone_opt(&n.lacis_id),
            candidate_lacis_id: clone_opt(&n.candidate_lacis_id),
            product_type: clone_opt(&n.product_type),
            network_device_type: clone_opt(&n.network_device_type),
            status: n.status.clone(),
            metadata: clone_json(&n.metadata),
        });
        i = i + 1;
    }
    let ghost p = edge_within(raw.nodes@);
    let mut edges: Vec<TopologyEdge> = Vec::new();
    let mut j: usize = 0;
    while j < raw.edges.len()
        invariant
            j <= raw.edges.len(),
            p == edge_within(raw.nodes@),
            edges@.len() == keep_where(raw.edges@.take(j as int), p).len(),
            forall|k: int| 0 <= k < edges@.len() ==> #[trigger] v1_edge(edges@[k], keep_where(raw.edges@.take(j as int), p)[k]),
        decreases raw.edges.len() - j,
    {
        proof {
            lemma_keep_step(raw.edges@, p, j as int);
        }
        let e = &raw.edges[j];
        if node_exists(&raw.nodes, &e.from) && node_exists(&raw.nodes, &e.to) {
            edges.push(TopologyEdge { from: e.from.clone(), to: e.to.clone(), edge_type: e.edge_type.clone(), label: clone_opt(&e.label) });
        }
        j = j + 1;
    }
    assert(raw.edges@.take(raw.edges@.len() as int) =~= raw.edges@);
    TopologyResponse {
        nodes,
        edges,
        metadata: TopologyMetadataV1 {
            total_devices: raw.device_count,
            total_clients: raw.client_count,
            controllers,
            routers: count_nodes(&raw.nodes, true, "router"),
            generated_at,
        },
    }
}

/// A node label as stored: trimmed, and 1 to 50 bytes long.
pub fn validate_label(label: &str) -> (r: Result<String, AppError>)
    ensures
        ({
            let t = trimmed(label@);
            if t.len() == 0 || vstd::utf8::encode_utf8(t).len() as usize > 50 {
                r matches Err(AppError::BadRequest(m)) && m@ == "Label must be 1-50 characters"@
            } else {
                r matches Ok(v) && v@ == t
            }
        }),
{
    let t = trim_str(label);
    if t.as_str().is_empty() || t.as_str().len() > 50 {
        return Err(AppError::BadRequest(owned("Label must be 1-50 characters")));
    }
    Ok(t)
}

/// `Node '{id}' not found`.
pub fn node_not_found(id: &str) -> (r: AppError)
    ensures
        r matches AppError::NotFound(m) && m@ == "Node '"@ + id@ + "' not found"@,
{
    let mut m = owned("Node '");
    append_str(&mut m, id);
    append_str(&mut m, "' not found");
    AppError::NotFound(m)
}

/// How a refused reparent is answered: the node or the new parent not
/// found, a parent that cannot hold children, or a loop.
pub fn reparent_refusal(e: &ReparentError, node_id: &str, new_parent_id: &str) -> (r: AppError)
    ensures
        match e {
            ReparentError::NodeNotFound => r matches AppError::NotFound(m) && m@ == "Node '"@ + node_id@ + "' not found"@,
            ReparentError::ParentNotFound => r matches AppError::NotFound(m)
                && m@ == "New parent '"@ + new_parent_id@ + "' not found"@,
            ReparentError::ParentNotEligible => r matches AppError::BadRequest(m) && m@ == "Node '"@ + new_parent_id@
                + "' cannot be a parent (only LacisID or Logic Device nodes can be parents)"@,
            ReparentError::Circular => r matches AppError::BadRequest(m)
                && m@ == "Circular reference detected: new parent is a descendant of this node"@,
        },
{
    match e {
        ReparentError::NodeNotFound => node_not_found(node_id),
        ReparentError::ParentNotFound => {
            let mut m = owned("New parent '");
            append_str(&mut m, new_parent_id);
            append_str(&mut m, "' not found");
            AppError::NotFound(m)
        },
        ReparentError::ParentNotEligible => {
            let mut m = owned("Node '");
            append_str(&mut m, new_parent_id);
            append_str(&mut m, "' cannot be a parent (only LacisID or Logic Device nodes can be parents)");
            AppError::BadRequest(m)
        },
        ReparentError::Circular => AppError::BadRequest(owned("Circular reference detected: new parent is a descendant of this node")),
    }
}

/// `Logic device '{id}' not found`.
pub fn logic_device_not_found(id: &str) -> (r: AppError)
    ensures
        r matches AppError::NotFound(m) && m@ == "Logic device '"@ + id@ + "' not found"@,
{
    let mut m = owned("Logic device '");
    append_str(&mut m, id);
    append_str(&mut m, "' not found");
    AppError::NotFound(m)
}

/// The parent of a new logic device: the requested one, else the first
/// gateway, else `INTERNET`.
pub open spec fn spec_logic_device_parent(requested: Option<Seq<char>>, entries: Seq<UserObjectDetail>) -> Seq<char> {
    match requested {
        Some(p) => p,
        None => match first_gateway(entries) {
            Some(g) => entries[g].id@,
            None => "INTERNET"@,
        },
    }
}

pub fn logic_device_parent(requested: &Option<String>, entries: &Vec<UserObjectDetail>) -> (r: String)
    ensures
        r@ == spec_logic_device_parent(opt_view(*requested), entries@),
{
    match requested {
        Some(p) => p.clone(),
        None => match crate::topology::find_first_gateway(entries) {
            Some(g) => entries[g].id.clone(),
            None => owned("INTERNET"),
        },
    }
}

/// A new logic device with id `logic:{uuid}`: its stored document, and its
/// topology node keyed by the `F2` pseudo-MAC of the UUID.
pub fn new_logic_device(req: &CreateLogicDeviceRequest, uuid: &str, parent_id: &String, now: &str) -> (r: (LogicDeviceDoc, UserObjectDetail))
    ensures
        r.0.id@ == "logic:"@ + uuid@,
        r.0.label == req.label,
        r.0.device_type == req.device_type,
        r.0.parent_id == Some(*parent_id),
        r.0.ip == req.ip,
        r.0.location == req.location,
        r.0.note == req.note,
        r.0.lacis_id is None,
        r.0.created_at@ == now@,
        r.0.updated_at@ == now@,
        r.1.id@ == spec_pseudo_mac('2', uuid@),
        r.1.mac@ == spec_pseudo_mac('2', uuid@),
        r.1.lacis_id is None,
        r.1.device_type@ == "NetworkDevice"@,
        r.1.parent_id == *parent_id,
        r.1.sort_order == 0,
        r.1.node_type@ == "logic_device"@,
        r.1.state_type@ == "StaticOnline"@,
        r.1.label == req.label,
        !r.1.label_customized,
        r.1.ip == req.ip,
        r.1.hostname is None,
        r.1.source@ == "manual"@,
        opt_view(r.1.source_ref_id) == Some("logic:"@ + uuid@),
        r.1.connection_type@ == "wired"@,
        r.1.product_type is None,
        r.1.product_code is None,
        r.1.network_device_type == Some(req.device_type),
        r.1.candidate_lacis_id is None,
        r.1.fid is None,
        r.1.facility_name is None,
        r.1.ssid is None,
        r.1.aranea_lacis_id is None,
        r.1.created_at@ == now@,
        r.1.updated_at@ == now@,
{
    let mut id = owned("logic:");
    append_str(&mut id, uuid);
    let mac = logic_device_pseudo_mac(uuid);
    let doc = LogicDeviceDoc {
        id: id.clone(),
        label: req.label.clone(),
        device_type: req.device_type.clone(),
        parent_id: Some(parent_id.clone()),
        ip: clone_opt(&req.ip),
        location: clone_opt(&req.location),
        note: clone_opt(&req.note),
        lacis_id: None,
        created_at: owned(now),
        updated_at: owned(now),
    };
    let metadata = json_object(vec![
        (owned("location"), json_of(clone_opt(&req.location))),
        (owned("note"), json_of(clone_opt(&req.note))),
        (owned("logic_device_id"), json_of(id.clone())),
    ]);
    let detail = UserObjectDetail {
        id: mac.clone(),
        mac,
        lacis_id: None,
        device_type: owned("NetworkDevice"),
        parent_id: parent_id.clone(),
        sort_order: 0,
        node_type: owned("logic_device"),
        state_type: owned("StaticOnline"),
        label: req.label.clone(),
        label_customized: false,
        ip: clone_opt(&req.ip),
        hostname: None,
        source: owned("manual"),
        source_ref_id: Some(id),
        connection_type: owned("wired"),
        product_type: None,
        product_code: None,
        network_device_type: Some(req.device_type.clone()),
        candidate_lacis_id: None,
        fid: None,
        facility_name: None,
        ssid: None,
        metadata,
        aranea_lacis_id: None,
        created_at: owned(now),
        updated_at: owned(now),
    };
    (doc, detail)
}

pub open spec fn field_change(key: Seq<char>, v: Option<String>) -> Seq<(Seq<char>, Seq<char>)> {
    match v {
        Some(s) => seq![(key, s@)],
        None => seq![],
    }
}

fn push_change(w: &mut Vec<(String, String)>, key: &str, v: &Option<String>)
    ensures
        final(w)@.map_values(|p: (String, String)| (p.0@, p.1@)) == old(w)@.map_values(|p: (String, String)| (p.0@, p.1@))
            + field_change(key@, *v),
{
    let ghost before = w@.map_values(|p: (String, String)| (p.0@, p.1@));
    if let Some(s) = v {
        w.push((owned(key), s.clone()));
    }
    assert(w@.map_values(|p: (String, String)| (p.0@, p.1@)) =~= before + field_change(key@, *v));
}

/// The fields a logic device update sets, in order: each given field, then
/// `updated_at`.
pub fn logic_device_changes(req: &UpdateLogicDeviceRequest, now: &str) -> (r: Vec<(String, String)>)
    ensures
        r@.map_values(|p: (String, String)| (p.0@, p.1@)) == field_change("label"@, req.label)
            + field_change("device_type"@, req.device_type) + field_change("parent_id"@, req.parent_id)
            + field_change("ip"@, req.ip) + field_change("location"@, req.location) + field_change("note"@, req.note)
            + seq![("updated_at"@, now@)],
{
    let mut w: Vec<(String, String)> = Vec::new();
    assert(w@.map_values(|p: (String, String)| (p.0@, p.1@)) =~= Seq::<(Seq<char>, Seq<char>)>::empty());
    push_change(&mut w, "label", &req.label);
    push_change(&mut w, "device_type", &req.device_type);
    push_change(&mut w, "parent_id", &req.parent_id);
    push_change(&mut w, "ip", &req.ip);
    push_change(&mut w, "location", &req.location);
    push_change(&mut w, "note", &req.note);
    let ghost before = w@.map_values(|p: (String, String)| (p.0@, p.1@));
    w.push((owned("updated_at"), owned(now)));
    assert(w@.map_values(|p: (String, String)| (p.0@, p.1@)) =~= before.push(("updated_at"@, now@)));
    w
}

/// The answer to a deletion that was not confirmed.
pub fn confirm_required(action: &str, target: &str, warning: String) -> (c: ConfirmRequired)
    ensures
        c.action@ == action@,
        c.target@ == target@,
        c.warning == warning,
        c.confirm_required,
{
    ConfirmRequired { action: owned(action), target: owned(target), warning, confirm_required: true }
}

/// The confirmation a logic device removal asks for before it is done.
pub fn logic_device_delete_confirmation(id: &str) -> (c: ConfirmRequired)
    ensures
        c.action@ == "delete_logic_device"@,
        c.target@ == id@,
        c.warning@ == "This will permanently delete logic device '"@ + id@ + "'"@,
        c.confirm_required,
{
    let mut w = owned("This will permanently delete logic device '");
    append_str(&mut w, id);
    append_str(&mut w, "'");
    confirm_required("delete_logic_device", id, w)
}

/// Picks the topology nodes that stand for a given source record.
pub open spec fn sourced_by(id: Seq<char>) -> spec_fn(UserObjectDetail) -> bool {
    |e: UserObjectDetail| e.source_ref_id matches Some(r) && r@ == id
}

/// The topology node of a logic device: the first node whose source record
/// is that device.
pub fn logic_device_node(entries: &Vec<UserObjectDetail>, id: &str) -> (r: Option<usize>)
    ensures
        crate::topology::opt_index(r) == crate::seqs::first_index(entries@, sourced_by(id@)),
        r matches Some(i) ==> i < entries.len(),
{
    let mut i: usize = 0;
    while i < entries.len()
        invariant
            i <= entries.len(),
            forall|k: int| 0 <= k < i ==> !(sourced_by(id@))(#[trigger] entries@[k]),
        decreases entries.len() - i,
    {
        let hit = match &entries[i].source_ref_id {
            Some(r) => str_eq(r.as_str(), id),
            None => false,
        };
        if hit {
            proof {
                crate::seqs::lemma_first_is(entries@, sourced_by(id@), i as int);
            }
            return Some(i);
        }
        i = i + 1;
    }
    proof {
        crate::seqs::lemma_first_none(entries@, sourced_by(id@));
    }
    None
}

} // verus!
