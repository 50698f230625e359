//! CelestialGlobe topology: nodes and edges built from `user_object_detail`
//! entries (the single source of truth), and the filtered views served to the
//! frontend.
//!
//! Rules: every entry is drawn; the structure is INTERNET -> gateway ->
//! children; an entry whose parent does not exist falls back to the gateway
//! (or to the Internet node when there is no gateway).

use vstd::prelude::*;
use crate::json::{clone_json, empty_json_object};
use crate::mac::{format_mac, spec_format_mac};
use crate::text::{owned, str_eq};

verus! {

/// One node of the topology as stored in `user_object_detail`.
pub struct UserObjectDetail {
    pub id: String,
    pub mac: String,
    pub lacis_id: Option<String>,
    pub device_type: String,
    pub parent_id: String,
    pub sort_order: u32,
    pub node_type: String,
    pub state_type: String,
    pub label: String,
    pub label_customized: bool,
    pub ip: Option<String>,
    pub hostname: Option<String>,
    pub source: String,
    pub source_ref_id: Option<String>,
    pub connection_type: String,
    pub product_type: Option<String>,
    pub product_code: Option<String>,
    pub network_device_type: Option<String>,
    pub candidate_lacis_id: Option<String>,
    pub fid: Option<String>,
    pub facility_name: Option<String>,
    pub ssid: Option<String>,
    pub metadata: serde_json::Value,
    pub aranea_lacis_id: Option<String>,
    pub created_at: String,
    pub updated_at: String,
}

/// A node of the built topology.
pub struct RawNode {
    pub id: String,
    pub label: String,
    pub node_type: String,
    pub mac: Option<String>,
    pub ip: Option<String>,
    pub source: String,
    pub parent_id: Option<String>,
    pub order: u32,
    pub lacis_id: Option<String>,
    pub candidate_lacis_id: Option<String>,
    pub device_type: Option<String>,
    pub product_type: Option<String>,
    pub network_device_type: Option<String>,
    pub status: String,
    pub state_type: String,
    pub metadata: serde_json::Value,
    pub connection_type: String,
    pub fid: Option<String>,
    pub facility_name: Option<String>,
}

/// An edge from a parent to a child.
pub struct RawEdge {
    pub from: String,
    pub to: String,
    pub edge_type: String,
    pub label: Option<String>,
}

/// Nodes (entries in order, then the Internet node), one edge per entry,
/// and the device and client counts.
pub struct RawTopology {
    pub nodes: Vec<RawNode>,
    pub edges: Vec<RawEdge>,
    pub device_count: usize,
    pub client_count: usize,
}

/// Whether some entry has the given id.
pub open spec fn has_entry_id(es: Seq<UserObjectDetail>, id: Seq<char>) -> bool {
    exists|k: int| 0 <= k < es.len() && (#[trigger] es[k]).id@ == id
}

pub open spec fn is_gateway(e: UserObjectDetail) -> bool {
    e.node_type@ == "gateway"@
}

/// Index of the first gateway entry.
pub open spec fn first_gateway(es: Seq<UserObjectDetail>) -> Option<int>
    decreases es.len(),
{
    if es.len() == 0 {
        None
    } else {
        match first_gateway(es.drop_last()) {
            Some(k) => Some(k),
            None => if is_gateway(es.last()) { Some(es.len() - 1) } else { None },
        }
    }
}

/// Parent of an entry in the built topology: the Internet node for
/// `INTERNET`, the named entry when it exists, otherwise the first gateway
/// (or the Internet node when there is none).
pub open spec fn resolved_parent(es: Seq<UserObjectDetail>, e: UserObjectDetail) -> Seq<char> {
    if e.parent_id@ == "INTERNET"@ {
        "__internet__"@
    } else if has_entry_id(es, e.parent_id@) {
        e.parent_id@
    } else {
        match first_gateway(es) {
            Some(g) => es[g].id@,
            None => "__internet__"@,
        }
    }
}

pub open spec fn is_client_type(t: Seq<char>) -> bool {
    t == "client"@ || t == "wg_peer"@
}

pub open spec fn is_device_type(t: Seq<char>) -> bool {
    !is_client_type(t) && t != "internet"@
}

pub open spec fn count_clients(es: Seq<UserObjectDetail>) -> nat
    decreases es.len(),
{
    if es.len() == 0 {
        0
    } else {
        count_clients(es.drop_last()) + if is_client_type(es.last().node_type@) { 1nat } else { 0nat }
    }
}

pub open spec fn count_devices(es: Seq<UserObjectDetail>) -> nat
    decreases es.len(),
{
    if es.len() == 0 {
        0
    } else {
        count_devices(es.drop_last()) + if is_device_type(es.last().node_type@) { 1nat } else { 0nat }
    }
}

/// Edge type of a connection: `wireless` and `vpn` are kept, anything else is `wired`.
pub open spec fn edge_kind(connection_type: Seq<char>) -> Seq<char> {
    if connection_type == "wireless"@ {
        "wireless"@
    } else if connection_type == "vpn"@ {
        "vpn"@
    } else {
        "wired"@
    }
}

/// The node built from an entry whose resolved parent is `parent`.
pub open spec fn node_from_entry(n: RawNode, e: UserObjectDetail, parent: Seq<char>) -> bool {
    &&& n.id == e.id
    &&& n.label == e.label
    &&& n.node_type == e.node_type
    &&& n.mac matches Some(m) && m@ == spec_format_mac(e.mac@)
    &&& n.ip == e.ip
    &&& n.source == e.source
    &&& n.parent_id matches Some(p) && p@ == parent
    &&& n.order == e.sort_order
    &&& n.lacis_id == e.lacis_id
    &&& n.candidate_lacis_id == e.candidate_lacis_id
    &&& n.device_type == Some(e.device_type)
    &&& n.product_type == e.product_type
    &&& n.network_device_type == e.network_device_type
    &&& n.status == e.state_type
    &&& n.state_type == e.state_type
    &&& n.metadata == e.metadata
    &&& n.connection_type == e.connection_type
    &&& n.fid == e.fid
    &&& n.facility_name == e.facility_name
}

/// The edge built from an entry whose resolved parent is `parent`.
pub open spec fn edge_from_entry(d: RawEdge, e: UserObjectDetail, parent: Seq<char>) -> bool {
    &&& d.from@ == parent
    &&& d.to == e.id
    &&& d.edge_type@ == edge_kind(e.connection_type@)
    &&& d.label == e.ssid
}

/// The virtual Internet node at the root.
pub open spec fn is_internet_node(n: RawNode) -> bool {
    &&& n.id@ == "__internet__"@
    &&& n.label@ == "Internet"@
    &&& n.node_type@ == "internet"@
    &&& n.mac is None
    &&& n.ip is None
    &&& n.source@ == "lpg"@
    &&& n.parent_id is None
    &&& n.order == 0
    &&& n.lacis_id is None
    &&& n.candidate_lacis_id is None
    &&& n.device_type is None
    &&& n.product_type is None
    &&& n.network_device_type is None
    &&& n.status@ == "online"@
    &&& n.state_type@ == "online"@
    &&& n.connection_type@ == "wired"@
    &&& n.fid is None
    &&& n.facility_name is None
}

proof fn lemma_first_gateway_prefix(es: Seq<UserObjectDetail>, m: int)
    requires
        0 <= m <= es.len(),
        first_gateway(es.take(m)) is Some,
    ensures
        first_gateway(es) == first_gateway(es.take(m)),
    decreases es.len(),
{
    if es.len() == m {
        assert(es.take(m) =~= es);
    } else {
        assert(es.drop_last().take(m) =~= es.take(m));
        lemma_first_gateway_prefix(es.drop_last(), m);
    }
}

proof fn lemma_first_gateway_none(es: Seq<UserObjectDetail>)
    requires
        forall|k: int| 0 <= k < es.len() ==> !is_gateway(#[trigger] es[k]),
    ensures
        first_gateway(es) is None,
    decreases es.len(),
{
    if es.len() > 0 {
        assert forall|k: int| 0 <= k < es.drop_last().len() implies !is_gateway(#[trigger] es.drop_last()[k]) by {
            assert(es.drop_last()[k] == es[k]);
        }
        lemma_first_gateway_none(es.drop_last());
    }
}

/// Index of the first gateway entry.
pub fn find_first_gateway(entries: &Vec<UserObjectDetail>) -> (r: Option<usize>)
    ensures
        r matches Some(g) ==> first_gateway(entries@) == Some(g as int) && g < entries@.len(),
        r is None ==> first_gateway(entries@) is None,
{
    let mut i: usize = 0;
    while i < entries.len()
        invariant
            i <= entries.len(),
            forall|k: int| 0 <= k < i ==> !is_gateway(#[trigger] entries@[k]),
        decreases entries.len() - i,
    {
        if str_eq(entries[i].node_type.as_str(), "gateway") {
            proof {
                let t = entries@.take(i as int);
                assert forall|k: int| 0 <= k < t.len() implies !is_gateway(#[trigger] t[k]) by {
                    assert(t[k] == entries@[k]);
                }
                lemma_first_gateway_none(t);
                assert(entries@.take(i + 1).drop_last() =~= t);
                assert(entries@.take(i + 1).last() == entries@[i as int]);
                lemma_first_gateway_prefix(entries@, i + 1);
            }
            return Some(i);
        }
        i = i + 1;
    }
    proof {
        lemma_first_gateway_none(entries@);
    }
    None
}

/// Whether some entry has the given id.
fn entry_id_exists(entries: &Vec<UserObjectDetail>, id: &str) -> (r: bool)
    ensures
        r == has_entry_id(entries@, id@),
{
    let mut i: usize = 0;
    while i < entries.len()
        invariant
            i <= entries.len(),
            forall|k: int| 0 <= k < i ==> (#[trigger] entries@[k]).id@ != id@,
        decreases entries.len() - i,
    {
        if str_eq(entries[i].id.as_str(), id) {
            return true;
        }
        i = i + 1;
    }
    false
}

fn edge_kind_of(connection_type: &String) -> (r: String)
    ensures
        r@ == edge_kind(connection_type@),
{
    if str_eq(connection_type.as_str(), "wireless") {
        owned("wireless")
    } else if str_eq(connection_type.as_str(), "vpn") {
        owned("vpn")
    } else {
        owned("wired")
    }
}

fn internet_node() -> (n: RawNode)
    ensures
        is_internet_node(n),
{
    RawNode {
        id: owned("__internet__"),
        label: owned("Internet"),
        node_type: owned("internet"),
        mac: None,
        ip: None,
        source: owned("lpg"),
        parent_id: None,
        order: 0,
        lacis_id: None,
        candidate_lacis_id: None,
        device_type: None,
        product_type: None,
        network_device_type: None,
        status: owned("online"),
        state_type: owned("online"),
        metadata: empty_json_object(),
        connection_type: owned("wired"),
        fid: None,
        facility_name: None,
    }
}

/// Build the raw topology from the `user_object_detail` entries: one node and
/// one edge (parent to entry) per entry in order, then the Internet node.
pub fn build_raw_topology(entries: &Vec<UserObjectDetail>) -> (t: RawTopology)
    ensures
        t.nodes@.len() == entries@.len() + 1,
        t.edges@.len() == entries@.len(),
        forall|i: int| 0 <= i < entries@.len() ==> node_from_entry(#[trigger] t.nodes@[i], entries@[i], resolved_parent(entries@, entries@[i])),
        forall|i: int| 0 <= i < entries@.len() ==> edge_from_entry(#[trigger] t.edges@[i], entries@[i], resolved_parent(entries@, entries@[i])),
        is_internet_node(t.nodes@[entries@.len() as int]),
        t.device_count == count_devices(entries@),
        t.client_count == count_clients(entries@),
{
    let gateway = find_first_gateway(entries);
    let mut nodes: Vec<RawNode> = Vec::new();
    let mut edges: Vec<RawEdge> = Vec::new();
    let mut device_count: usize = 0;
    let mut client_count: usize = 0;
    let mut i: usize = 0;
    while i < entries.len()
        invariant
            i <= entries.len(),
            gateway matches Some(g) ==> first_gateway(entries@) == Some(g as int) && g < entries@.len(),
            gateway is None ==> first_gateway(entries@) is None,
            nodes@.len() == i,
            edges@.len() == i,
            forall|k: int| 0 <= k < i ==> node_from_entry(#[trigger] nodes@[k], entries@[k], resolved_parent(entries@, entries@[k])),
            forall|k: int| 0 <= k < i ==> edge_from_entry(#[trigger] edges@[k], entries@[k], resolved_parent(entries@, entries@[k])),
            device_count == count_devices(entries@.take(i as int)),
            client_count == count_clients(entries@.take(i as int)),
            device_count <= i,
            client_count <= i,
        decreases entries.len() - i,
    {
        let e = &entries[i];
        let parent: String = if str_eq(e.parent_id.as_str(), "INTERNET") {
            owned("__internet__")
        } else if entry_id_exists(entries, e.parent_id.as_str()) {
            e.parent_id.clone()
        } else {
            match gateway {
                Some(g) => entries[g].id.clone(),
                None => owned("__internet__"),
            }
        };
        assert(parent@ == resolved_parent(entries@, entries@[i as int]));
        proof {
            assert(entries@.take(i + 1).drop_last() =~= entries@.take(i as int));
            assert(entries@.take(i + 1).last() == entries@[i as int]);
        }
        let is_client = str_eq(e.node_type.as_str(), "client") || str_eq(e.node_type.as_str(), "wg_peer");
        if is_client {
            client_count = client_count + 1;
        } else if !str_eq(e.node_type.as_str(), "internet") {
            device_count = device_count + 1;
        }
        let node = RawNode {
            id: e.id.clone(),
            label: e.label.clone(),
            node_type: e.node_type.clone(),
            mac: Some(format_mac(e.mac.as_str())),
            ip: e.ip.clone(),
            source: e.source.clone(),
            parent_id: Some(parent.clone()),
            order: e.sort_order,
            lacis_id: e.lacis_id.clone(),
            candidate_lacis_id: e.candidate_lacis_id.clone(),
            device_type: Some(e.device_type.clone()),
            product_type: e.product_type.clone(),
            network_device_type: e.network_device_type.clone(),
            status: e.state_type.clone(),
            state_type: e.state_type.clone(),
            metadata: clone_json(&e.metadata),
            connection_type: e.connection_type.clone(),
            fid: e.fid.clone(),
            facility_name: e.facility_name.clone(),
        };
        let edge = RawEdge {
            from: parent,
            to: e.id.clone(),
            edge_type: edge_kind_of(&e.connection_type),
            label: e.ssid.clone(),
        };
        nodes.push(node);
        edges.push(edge);
        i = i + 1;
    }
    assert(entries@.take(entries.len() as int) =~= entries@);
    nodes.push(internet_node());
    RawTopology { nodes, edges, device_count, client_count }
}

} // verus!

verus! {

// ----------------------------------------------------------------------------
// The parent relation of built nodes
// ----------------------------------------------------------------------------

/// No two nodes share an id.
pub open spec fn unique_ids(ns: Seq<RawNode>) -> bool {
    forall|i: int, j: int| 0 <= i < ns.len() && 0 <= j < ns.len() && i != j ==> (#[trigger] ns[i]).id@ != (#[trigger] ns[j]).id@
}

pub open spec fn has_node_id(ns: Seq<RawNode>, id: Seq<char>) -> bool {
    exists|k: int| 0 <= k < ns.len() && (#[trigger] ns[k]).id@ == id
}

/// The index of the node with the given id (meaningful when it exists).
pub open spec fn node_index(ns: Seq<RawNode>, id: Seq<char>) -> int {
    choose|k: int| 0 <= k < ns.len() && (#[trigger] ns[k]).id@ == id
}

/// Every named parent is a node.
pub open spec fn parents_exist(ns: Seq<RawNode>) -> bool {
    forall|i: int| 0 <= i < ns.len() ==> ((#[trigger] ns[i]).parent_id matches Some(p) ==> has_node_id(ns, p@))
}

/// Index of the parent node of node `i`.
pub open spec fn parent_of(ns: Seq<RawNode>, i: int) -> Option<int> {
    match ns[i].parent_id {
        Some(p) => if has_node_id(ns, p@) { Some(node_index(ns, p@)) } else { None },
        None => None,
    }
}

/// The `k`-th ancestor of node `i` (`i` itself for `k == 0`).
pub open spec fn ancestor(ns: Seq<RawNode>, i: int, k: nat) -> Option<int>
    decreases k,
{
    if k == 0 {
        Some(i)
    } else {
        match ancestor(ns, i, (k - 1) as nat) {
            Some(a) => parent_of(ns, a),
            None => None,
        }
    }
}

/// Following parents from any node leaves the graph within `len` steps.
pub open spec fn acyclic(ns: Seq<RawNode>) -> bool {
    forall|i: int| 0 <= i < ns.len() ==> (#[trigger] ancestor(ns, i, ns.len())) is None
}

/// A topology on which the views are defined: unique ids, existing parents, no cycle.
pub open spec fn well_formed(ns: Seq<RawNode>) -> bool {
    unique_ids(ns) && parents_exist(ns) && acyclic(ns)
}

/// Node `j` lies strictly below node `a`.
pub open spec fn is_descendant(ns: Seq<RawNode>, a: int, j: int) -> bool {
    exists|k: nat| 1 <= k <= ns.len() && #[trigger] ancestor(ns, j, k) == Some(a)
}

pub open spec fn opt_index(o: Option<usize>) -> Option<int> {
    match o {
        Some(k) => Some(k as int),
        None => None,
    }
}

proof fn lemma_node_index_unique(ns: Seq<RawNode>, k: int)
    requires
        unique_ids(ns),
        0 <= k < ns.len(),
    ensures
        has_node_id(ns, ns[k].id@),
        node_index(ns, ns[k].id@) == k,
{
    let id = ns[k].id@;
    assert(0 <= k < ns.len() && ns[k].id@ == id);
    let c = node_index(ns, id);
    assert(0 <= c < ns.len() && ns[c].id@ == id);
}

proof fn lemma_parent_in_range(ns: Seq<RawNode>, i: int)
    requires
        0 <= i < ns.len(),
    ensures
        parent_of(ns, i) matches Some(q) ==> 0 <= q < ns.len(),
{
    if let Some(p) = ns[i].parent_id {
        if has_node_id(ns, p@) {
            let c = node_index(ns, p@);
            assert(0 <= c < ns.len() && ns[c].id@ == p@);
        }
    }
}

proof fn lemma_ancestor_in_range(ns: Seq<RawNode>, i: int, k: nat)
    requires
        0 <= i < ns.len(),
    ensures
        ancestor(ns, i, k) matches Some(a) ==> 0 <= a < ns.len(),
    decreases k,
{
    if k > 0 {
        lemma_ancestor_in_range(ns, i, (k - 1) as nat);
        if let Some(a) = ancestor(ns, i, (k - 1) as nat) {
            lemma_parent_in_range(ns, a);
        }
    }
}

/// Index of the node with the given id, scanning in order.
fn find_node(nodes: &Vec<RawNode>, id: &String) -> (r: Option<usize>)
    requires
        unique_ids(nodes@),
    ensures
        r is None ==> !has_node_id(nodes@, id@),
        r matches Some(k) ==> k < nodes@.len() && nodes@[k as int].id@ == id@ && has_node_id(nodes@, id@)
            && node_index(nodes@, id@) == k,
{
    let mut i: usize = 0;
    while i < nodes.len()
        invariant
            unique_ids(nodes@),
            i <= nodes.len(),
            forall|k: int| 0 <= k < i ==> (#[trigger] nodes@[k]).id@ != id@,
        decreases nodes.len() - i,
    {
        if nodes[i].id == *id {
            proof {
                lemma_node_index_unique(nodes@, i as int);
            }
            return Some(i);
        }
        i = i + 1;
    }
    None
}

/// Whether no two nodes share an id.
pub fn has_unique_ids(nodes: &Vec<RawNode>) -> (r: bool)
    ensures
        r == unique_ids(nodes@),
{
    let n = nodes.len();
    let mut i: usize = 0;
    while i < n
        invariant
            n == nodes@.len(),
            i <= n,
            forall|a: int, b: int| 0 <= a < i && 0 <= b < n && a != b ==> (#[trigger] nodes@[a]).id@ != (#[trigger] nodes@[b]).id@,
        decreases n - i,
    {
        let mut j: usize = 0;
        while j < n
            invariant
                n == nodes@.len(),
                i < n,
                j <= n,
                forall|a: int, b: int| 0 <= a < i && 0 <= b < n && a != b ==> (#[trigger] nodes@[a]).id@ != (#[trigger] nodes@[b]).id@,
                forall|b: int| 0 <= b < j && b != i ==> nodes@[i as int].id@ != (#[trigger] nodes@[b]).id@,
            decreases n - j,
        {
            if j != i && nodes[i].id == nodes[j].id {
                return false;
            }
            j = j + 1;
        }
        i = i + 1;
    }
    true
}

/// The parent index of every node.
fn parent_indices(nodes: &Vec<RawNode>) -> (r: Vec<Option<usize>>)
    requires
        unique_ids(nodes@),
    ensures
        r@.len() == nodes@.len(),
        forall|i: int| 0 <= i < nodes@.len() ==> opt_index(#[trigger] r@[i]) == parent_of(nodes@, i),
        forall|i: int| 0 <= i < nodes@.len() ==> (#[trigger] r@[i] matches Some(q) ==> q < nodes@.len()),
{
    let mut r: Vec<Option<usize>> = Vec::new();
    let mut i: usize = 0;
    while i < nodes.len()
        invariant
            unique_ids(nodes@),
            i <= nodes.len(),
            r@.len() == i,
            forall|k: int| 0 <= k < i ==> opt_index(#[trigger] r@[k]) == parent_of(nodes@, k),
            forall|k: int| 0 <= k < i ==> (#[trigger] r@[k] matches Some(q) ==> q < nodes@.len()),
        decreases nodes.len() - i,
    {
        let p = match &nodes[i].parent_id {
            Some(pid) => find_node(nodes, pid),
            None => None,
        };
        r.push(p);
        i = i + 1;
    }
    r
}

/// Whether every named parent is a node.
pub fn parents_all_exist(nodes: &Vec<RawNode>) -> (r: bool)
    requires
        unique_ids(nodes@),
    ensures
        r == parents_exist(nodes@),
{
    let mut i: usize = 0;
    while i < nodes.len()
        invariant
            unique_ids(nodes@),
            i <= nodes.len(),
            forall|k: int| 0 <= k < i ==> ((#[trigger] nodes@[k]).parent_id matches Some(p) ==> has_node_id(nodes@, p@)),
        decreases nodes.len() - i,
    {
        match &nodes[i].parent_id {
            Some(pid) => {
                if find_node(nodes, pid).is_none() {
                    return false;
                }
            }
            None => {}
        }
        i = i + 1;
    }
    true
}

/// The `k`-th ancestor, walking the parent indices.
fn walk_up(par: &Vec<Option<usize>>, Ghost(ns): Ghost<Seq<RawNode>>, i: usize, k: usize) -> (r: Option<usize>)
    requires
        par@.len() == ns.len(),
        i < ns.len(),
        forall|x: int| 0 <= x < ns.len() ==> opt_index(#[trigger] par@[x]) == parent_of(ns, x),
        forall|x: int| 0 <= x < ns.len() ==> (#[trigger] par@[x] matches Some(q) ==> q < ns.len()),
    ensures
        opt_index(r) == ancestor(ns, i as int, k as nat),
        r matches Some(a) ==> a < ns.len(),
{
    let mut cur: Option<usize> = Some(i);
    let mut s: usize = 0;
    while s < k
        invariant
            par@.len() == ns.len(),
            s <= k,
            forall|x: int| 0 <= x < ns.len() ==> opt_index(#[trigger] par@[x]) == parent_of(ns, x),
            forall|x: int| 0 <= x < ns.len() ==> (#[trigger] par@[x] matches Some(q) ==> q < ns.len()),
            opt_index(cur) == ancestor(ns, i as int, s as nat),
            cur matches Some(a) ==> a < ns.len(),
        decreases k - s,
    {
        cur = match cur {
            Some(a) => par[a],
            None => None,
        };
        s = s + 1;
    }
    cur
}

/// Whether following parents from every node leaves the graph within `len` steps.
fn no_cycle(par: &Vec<Option<usize>>, Ghost(ns): Ghost<Seq<RawNode>>) -> (r: bool)
    requires
        par@.len() == ns.len(),
        forall|x: int| 0 <= x < ns.len() ==> opt_index(#[trigger] par@[x]) == parent_of(ns, x),
        forall|x: int| 0 <= x < ns.len() ==> (#[trigger] par@[x] matches Some(q) ==> q < ns.len()),
    ensures
        r == acyclic(ns),
{
    let n = par.len();
    let mut i: usize = 0;
    while i < n
        invariant
            n == ns.len(),
            par@.len() == ns.len(),
            i <= n,
            forall|x: int| 0 <= x < ns.len() ==> opt_index(#[trigger] par@[x]) == parent_of(ns, x),
            forall|x: int| 0 <= x < ns.len() ==> (#[trigger] par@[x] matches Some(q) ==> q < ns.len()),
            forall|x: int| 0 <= x < i ==> (#[trigger] ancestor(ns, x, ns.len())) is None,
        decreases n - i,
    {
        if walk_up(par, Ghost(ns), i, n).is_some() {
            return false;
        }
        i = i + 1;
    }
    true
}

/// Whether the built topology is one on which the views are defined:
/// unique ids, every named parent present, and no parent cycle.
pub fn check_topology(nodes: &Vec<RawNode>) -> (r: bool)
    ensures
        r == well_formed(nodes@),
{
    if !has_unique_ids(nodes) {
        return false;
    }
    if !parents_all_exist(nodes) {
        return false;
    }
    let par = parent_indices(nodes);
    no_cycle(&par, Ghost(nodes@))
}

} // verus!

verus! {

proof fn lemma_ancestor_none_stays(ns: Seq<RawNode>, i: int, k: nat, m: nat)
    requires
        ancestor(ns, i, k) is None,
        k <= m,
    ensures
        ancestor(ns, i, m) is None,
    decreases m - k,
{
    if k < m {
        lemma_ancestor_none_stays(ns, i, k, (m - 1) as nat);
    }
}

/// Whether node `j` lies strictly below node `a`.
fn descends(par: &Vec<Option<usize>>, Ghost(ns): Ghost<Seq<RawNode>>, a: usize, j: usize) -> (r: bool)
    requires
        par@.len() == ns.len(),
        j < ns.len(),
        forall|x: int| 0 <= x < ns.len() ==> opt_index(#[trigger] par@[x]) == parent_of(ns, x),
        forall|x: int| 0 <= x < ns.len() ==> (#[trigger] par@[x] matches Some(q) ==> q < ns.len()),
    ensures
        r == is_descendant(ns, a as int, j as int),
{
    let n = par.len();
    let mut cur: Option<usize> = par[j];
    let mut s: usize = 1;
    assert(ancestor(ns, j as int, 0) == Some(j as int));
    assert(ancestor(ns, j as int, 1) == parent_of(ns, j as int));
    loop
        invariant
            n == ns.len(),
            par@.len() == ns.len(),
            1 <= s <= n,
            forall|x: int| 0 <= x < ns.len() ==> opt_index(#[trigger] par@[x]) == parent_of(ns, x),
            forall|x: int| 0 <= x < ns.len() ==> (#[trigger] par@[x] matches Some(q) ==> q < ns.len()),
            opt_index(cur) == ancestor(ns, j as int, s as nat),
            cur matches Some(c) ==> c < ns.len(),
            forall|k: nat| 1 <= k < s ==> #[trigger] ancestor(ns, j as int, k) != Some(a as int),
        decreases n - s,
    {
        match cur {
            None => {
                proof {
                    assert forall|k: nat| 1 <= k <= n implies #[trigger] ancestor(ns, j as int, k) != Some(a as int) by {
                        if k >= s {
                            lemma_ancestor_none_stays(ns, j as int, s as nat, k);
                        }
                    }
                }
                return false;
            }
            Some(c) => {
                if c == a {
                    assert(ancestor(ns, j as int, s as nat) == Some(a as int));
                    return true;
                }
                if s == n {
                    return false;
                }
                cur = par[c];
                s = s + 1;
            }
        }
    }
}

// ----------------------------------------------------------------------------
// Views
// ----------------------------------------------------------------------------

/// What a view request asks for: the view name (`full`, `routes` or `site`),
/// the facility for the site view, whether collapsed subtrees are hidden,
/// the collapsed node ids, and the target IPs of the active proxy routes.
pub struct ViewQuery {
    pub view: String,
    pub fid: Option<String>,
    pub apply_collapse: bool,
    pub collapsed_ids: Vec<String>,
    pub route_targets: Vec<String>,
}

/// A node as served by the v2 topology API.
pub struct TopologyNodeV2 {
    pub id: String,
    pub label: String,
    pub node_type: String,
    pub mac: Option<String>,
    pub ip: Option<String>,
    pub source: String,
    pub parent_id: Option<String>,
    pub order: u32,
    pub lacis_id: Option<String>,
    pub candidate_lacis_id: Option<String>,
    pub device_type: Option<String>,
    pub product_type: Option<String>,
    pub network_device_type: Option<String>,
    pub status: String,
    pub state_type: String,
    pub metadata: serde_json::Value,
    pub collapsed: bool,
    pub collapsed_child_count: usize,
    pub descendant_count: usize,
    pub connection_type: String,
    pub fid: Option<String>,
    pub facility_name: Option<String>,
}

/// An edge as served by the topology API.
pub struct TopologyEdge {
    pub from: String,
    pub to: String,
    pub edge_type: String,
    pub label: Option<String>,
}

/// The nodes and edges of one view.
pub struct TopologyView {
    pub nodes: Vec<TopologyNodeV2>,
    pub edges: Vec<TopologyEdge>,
}

/// A node IP served by a route target: the same IP, or the IP followed by `:port`.
pub open spec fn ip_matches(ip: Seq<char>, target: Seq<char>) -> bool {
    ip == target || crate::text::is_prefix(target.push(':'), ip)
}

pub open spec fn is_route_target(ns: Seq<RawNode>, q: ViewQuery, d: int) -> bool {
    ns[d].ip matches Some(ip) && exists|t: int| 0 <= t < q.route_targets@.len() && ip_matches(ip@, (#[trigger] q.route_targets@[t])@)
}

/// Route view: the nodes reached by a route, and every node above them.
pub open spec fn route_visible(ns: Seq<RawNode>, q: ViewQuery, j: int) -> bool {
    exists|d: int| 0 <= d < ns.len() && #[trigger] is_route_target(ns, q, d) && (d == j || is_descendant(ns, j, d))
}

pub open spec fn in_site(ns: Seq<RawNode>, fid: Seq<char>, j: int) -> bool {
    ns[j].fid matches Some(f) && f@ == fid
}

/// Site view after the first `m` nodes are scanned in order: the facility's
/// nodes, plus each scanned node whose parent was already in the view.
pub open spec fn site_expanded(ns: Seq<RawNode>, fid: Seq<char>, m: nat, j: int) -> bool
    decreases m,
{
    if m == 0 {
        in_site(ns, fid, j)
    } else {
        site_expanded(ns, fid, (m - 1) as nat, j) || (j == m - 1 && match parent_of(ns, m - 1) {
            Some(p) => site_expanded(ns, fid, (m - 1) as nat, p),
            None => false,
        })
    }
}

pub open spec fn is_routes_view(q: ViewQuery) -> bool {
    q.view@ == "routes"@
}

pub open spec fn is_site_view(q: ViewQuery) -> bool {
    q.view@ == "site"@ && q.fid is Some
}

/// Whether the view shows node `j` (before collapsing).
pub open spec fn visible(ns: Seq<RawNode>, q: ViewQuery, j: int) -> bool {
    if is_routes_view(q) {
        route_visible(ns, q, j)
    } else if is_site_view(q) {
        site_expanded(ns, q.fid->0@, ns.len(), j)
    } else {
        true
    }
}

/// Whether node `j` is hidden below a collapsed node.
pub open spec fn hidden(ns: Seq<RawNode>, q: ViewQuery, j: int) -> bool {
    q.apply_collapse && exists|c: int, a: int| 0 <= c < q.collapsed_ids@.len() && 0 <= a < ns.len()
        && (#[trigger] ns[a]).id@ == (#[trigger] q.collapsed_ids@[c])@ && is_descendant(ns, a, j)
}

pub open spec fn is_collapsed(ns: Seq<RawNode>, q: ViewQuery, j: int) -> bool {
    exists|c: int| 0 <= c < q.collapsed_ids@.len() && (#[trigger] q.collapsed_ids@[c])@ == ns[j].id@
}

pub open spec fn kept(ns: Seq<RawNode>, q: ViewQuery, j: int) -> bool {
    visible(ns, q, j) && !hidden(ns, q, j)
}

/// Number of nodes among the first `m` whose parent is node `a`.
pub open spec fn count_children(ns: Seq<RawNode>, a: int, m: nat) -> nat
    decreases m,
{
    if m == 0 {
        0
    } else {
        count_children(ns, a, (m - 1) as nat) + if parent_of(ns, m - 1) == Some(a) { 1nat } else { 0nat }
    }
}

/// Number of nodes among the first `m` lying strictly below node `a`.
pub open spec fn count_descendants(ns: Seq<RawNode>, a: int, m: nat) -> nat
    decreases m,
{
    if m == 0 {
        0
    } else {
        count_descendants(ns, a, (m - 1) as nat) + if is_descendant(ns, a, m - 1) { 1nat } else { 0nat }
    }
}

/// Indices of the kept nodes among the first `m`, in order.
pub open spec fn kept_nodes(ns: Seq<RawNode>, q: ViewQuery, m: nat) -> Seq<int>
    decreases m,
{
    if m == 0 {
        Seq::empty()
    } else if kept(ns, q, m - 1) {
        kept_nodes(ns, q, (m - 1) as nat).push(m - 1)
    } else {
        kept_nodes(ns, q, (m - 1) as nat)
    }
}

/// The served form of node `j`.
pub open spec fn node_served(o: TopologyNodeV2, ns: Seq<RawNode>, q: ViewQuery, j: int) -> bool {
    let n = ns[j];
    &&& o.id == n.id
    &&& o.label == n.label
    &&& o.node_type == n.node_type
    &&& o.mac == n.mac
    &&& o.ip == n.ip
    &&& o.source == n.source
    &&& o.parent_id == n.parent_id
    &&& o.order == n.order
    &&& o.lacis_id == n.lacis_id
    &&& o.candidate_lacis_id == n.candidate_lacis_id
    &&& o.device_type == n.device_type
    &&& o.product_type == n.product_type
    &&& o.network_device_type == n.network_device_type
    &&& o.status == n.status
    &&& o.state_type == n.state_type
    &&& o.metadata == n.metadata
    &&& o.collapsed == is_collapsed(ns, q, j)
    &&& o.collapsed_child_count == (if is_collapsed(ns, q, j) { count_children(ns, j, ns.len()) } else { 0 })
    &&& o.descendant_count == count_descendants(ns, j, ns.len())
    &&& o.connection_type == n.connection_type
    &&& o.fid == n.fid
    &&& o.facility_name == n.facility_name
}

/// Some kept node carries this id.
pub open spec fn id_kept(ns: Seq<RawNode>, q: ViewQuery, id: Seq<char>) -> bool {
    exists|j: int| 0 <= j < ns.len() && (#[trigger] ns[j]).id@ == id && kept(ns, q, j)
}

pub open spec fn edge_kept(ns: Seq<RawNode>, q: ViewQuery, e: RawEdge) -> bool {
    id_kept(ns, q, e.from@) && id_kept(ns, q, e.to@)
}

/// Indices of the kept edges among the first `m`, in order.
pub open spec fn kept_edges(ns: Seq<RawNode>, es: Seq<RawEdge>, q: ViewQuery, m: nat) -> Seq<int>
    decreases m,
{
    if m == 0 {
        Seq::empty()
    } else if edge_kept(ns, q, es[m - 1]) {
        kept_edges(ns, es, q, (m - 1) as nat).push(m - 1)
    } else {
        kept_edges(ns, es, q, (m - 1) as nat)
    }
}

/// The served form of an edge: the route view marks its edges `route`.
pub open spec fn edge_served(o: TopologyEdge, q: ViewQuery, e: RawEdge) -> bool {
    &&& o.from == e.from
    &&& o.to == e.to
    &&& o.label == e.label
    &&& o.edge_type@ == (if is_routes_view(q) { "route"@ } else { e.edge_type@ })
}

} // verus!

verus! {

/// The parent indices, in the form the walks below take them.
pub open spec fn parents_table(par: Seq<Option<usize>>, ns: Seq<RawNode>) -> bool {
    &&& par.len() == ns.len()
    &&& forall|x: int| 0 <= x < ns.len() ==> opt_index(#[trigger] par[x]) == parent_of(ns, x)
    &&& forall|x: int| 0 <= x < ns.len() ==> (#[trigger] par[x] matches Some(q) ==> q < ns.len())
}

fn ip_matches_exec(ip: &String, target: &String) -> (r: bool)
    ensures
        r == ip_matches(ip@, target@),
{
    if *ip == *target {
        return true;
    }
    let ic = crate::text::chars_of(ip.as_str());
    let mut tc = crate::text::chars_of(target.as_str());
    tc.push(':');
    crate::text::starts_with(&ic, &tc)
}

fn route_target(nodes: &Vec<RawNode>, q: &ViewQuery, d: usize) -> (r: bool)
    requires
        d < nodes@.len(),
    ensures
        r == is_route_target(nodes@, *q, d as int),
{
    match &nodes[d].ip {
        Some(ip) => {
            let mut t: usize = 0;
            while t < q.route_targets.len()
                invariant
                    t <= q.route_targets@.len(),
                    nodes@[d as int].ip == Some(*ip),
                    forall|u: int| 0 <= u < t ==> !ip_matches(ip@, (#[trigger] q.route_targets@[u])@),
                decreases q.route_targets@.len() - t,
            {
                if ip_matches_exec(ip, &q.route_targets[t]) {
                    return true;
                }
                t = t + 1;
            }
            false
        }
        None => false,
    }
}

fn route_visibility(nodes: &Vec<RawNode>, par: &Vec<Option<usize>>, q: &ViewQuery) -> (r: Vec<bool>)
    requires
        parents_table(par@, nodes@),
    ensures
        r@.len() == nodes@.len(),
        forall|j: int| 0 <= j < nodes@.len() ==> #[trigger] r@[j] == route_visible(nodes@, *q, j),
{
    let n = nodes.len();
    let mut targets: Vec<bool> = Vec::new();
    let mut d: usize = 0;
    while d < n
        invariant
            n == nodes@.len(),
            d <= n,
            targets@.len() == d,
            forall|x: int| 0 <= x < d ==> #[trigger] targets@[x] == is_route_target(nodes@, *q, x),
        decreases n - d,
    {
        targets.push(route_target(nodes, q, d));
        d = d + 1;
    }
    let mut r: Vec<bool> = Vec::new();
    let mut j: usize = 0;
    while j < n
        invariant
            n == nodes@.len(),
            parents_table(par@, nodes@),
            j <= n,
            targets@.len() == n,
            forall|x: int| 0 <= x < n ==> #[trigger] targets@[x] == is_route_target(nodes@, *q, x),
            r@.len() == j,
            forall|x: int| 0 <= x < j ==> #[trigger] r@[x] == route_visible(nodes@, *q, x),
        decreases n - j,
    {
        let mut found = false;
        let mut e: usize = 0;
        while e < n
            invariant
                n == nodes@.len(),
                parents_table(par@, nodes@),
                j < n,
                e <= n,
                targets@.len() == n,
                forall|x: int| 0 <= x < n ==> #[trigger] targets@[x] == is_route_target(nodes@, *q, x),
                found ==> route_visible(nodes@, *q, j as int),
                !found ==> forall|x: int| 0 <= x < e ==> !(#[trigger] is_route_target(nodes@, *q, x) && (x == j || is_descendant(nodes@, j as int, x))),
            decreases n - e,
        {
            if targets[e] && (e == j || descends(par, Ghost(nodes@), j, e)) {
                found = true;
            }
            e = e + 1;
        }
        r.push(found);
        j = j + 1;
    }
    r
}

fn site_visibility(nodes: &Vec<RawNode>, par: &Vec<Option<usize>>, fid: &String) -> (r: Vec<bool>)
    requires
        parents_table(par@, nodes@),
    ensures
        r@.len() == nodes@.len(),
        forall|j: int| 0 <= j < nodes@.len() ==> #[trigger] r@[j] == site_expanded(nodes@, fid@, nodes@.len(), j),
{
    let n = nodes.len();
    let mut r: Vec<bool> = Vec::new();
    let mut j: usize = 0;
    while j < n
        invariant
            n == nodes@.len(),
            j <= n,
            r@.len() == j,
            forall|x: int| 0 <= x < j ==> #[trigger] r@[x] == site_expanded(nodes@, fid@, 0, x),
        decreases n - j,
    {
        let f = match &nodes[j].fid {
            Some(x) => *x == *fid,
            None => false,
        };
        r.push(f);
        j = j + 1;
    }
    let mut m: usize = 0;
    while m < n
        invariant
            n == nodes@.len(),
            parents_table(par@, nodes@),
            m <= n,
            r@.len() == n,
            forall|x: int| 0 <= x < n ==> #[trigger] r@[x] == site_expanded(nodes@, fid@, m as nat, x),
        decreases n - m,
    {
        let grow = match par[m] {
            Some(p) => r[p],
            None => false,
        };
        let ghost before = r@;
        if grow {
            r.set(m, true);
        }
        assert forall|x: int| 0 <= x < n implies #[trigger] r@[x] == site_expanded(nodes@, fid@, (m + 1) as nat, x) by {
            assert(before[x] == site_expanded(nodes@, fid@, m as nat, x));
        }
        m = m + 1;
    }
    r
}

} // verus!

verus! {

fn hidden_flag(nodes: &Vec<RawNode>, par: &Vec<Option<usize>>, q: &ViewQuery, j: usize) -> (r: bool)
    requires
        unique_ids(nodes@),
        parents_table(par@, nodes@),
        j < nodes@.len(),
    ensures
        r == hidden(nodes@, *q, j as int),
{
    if !q.apply_collapse {
        return false;
    }
    let mut c: usize = 0;
    while c < q.collapsed_ids.len()
        invariant
            unique_ids(nodes@),
            parents_table(par@, nodes@),
            j < nodes@.len(),
            q.apply_collapse,
            c <= q.collapsed_ids@.len(),
            forall|cc: int, a: int| 0 <= cc < c && 0 <= a < nodes@.len() && (#[trigger] nodes@[a]).id@ == (#[trigger] q.collapsed_ids@[cc])@
                ==> !is_descendant(nodes@, a, j as int),
        decreases q.collapsed_ids@.len() - c,
    {
        match find_node(nodes, &q.collapsed_ids[c]) {
            Some(a) => {
                if descends(par, Ghost(nodes@), a, j) {
                    assert(nodes@[a as int].id@ == q.collapsed_ids@[c as int]@);
                    return true;
                }
                proof {
                    assert forall|a2: int| 0 <= a2 < nodes@.len() && (#[trigger] nodes@[a2]).id@ == q.collapsed_ids@[c as int]@
                        implies !is_descendant(nodes@, a2, j as int) by {
                        if a2 != a {
                            assert(nodes@[a2].id@ != nodes@[a as int].id@);
                        }
                    }
                }
            }
            None => {}
        }
        c = c + 1;
    }
    false
}

fn collapsed_flag(nodes: &Vec<RawNode>, q: &ViewQuery, j: usize) -> (r: bool)
    requires
        j < nodes@.len(),
    ensures
        r == is_collapsed(nodes@, *q, j as int),
{
    let mut c: usize = 0;
    while c < q.collapsed_ids.len()
        invariant
            j < nodes@.len(),
            c <= q.collapsed_ids@.len(),
            forall|cc: int| 0 <= cc < c ==> (#[trigger] q.collapsed_ids@[cc])@ != nodes@[j as int].id@,
        decreases q.collapsed_ids@.len() - c,
    {
        if q.collapsed_ids[c] == nodes[j].id {
            return true;
        }
        c = c + 1;
    }
    false
}

fn children_count(par: &Vec<Option<usize>>, Ghost(ns): Ghost<Seq<RawNode>>, a: usize) -> (r: usize)
    requires
        parents_table(par@, ns),
    ensures
        r == count_children(ns, a as int, ns.len()),
{
    let mut r: usize = 0;
    let mut m: usize = 0;
    while m < par.len()
        invariant
            parents_table(par@, ns),
            m <= par@.len(),
            r == count_children(ns, a as int, m as nat),
            r <= m,
        decreases par@.len() - m,
    {
        if par[m] == Some(a) {
            r = r + 1;
        }
        m = m + 1;
    }
    r
}

/// The nodes among the first `m` that lie strictly below node `a` (those
/// reached from `a` by one or more steps from a node to its children), in
/// order.
pub open spec fn descendant_indices(ns: Seq<RawNode>, a: int, m: nat) -> Seq<int>
    decreases m,
{
    if m == 0 {
        Seq::empty()
    } else if is_descendant(ns, a, m - 1) {
        descendant_indices(ns, a, (m - 1) as nat).push(m - 1)
    } else {
        descendant_indices(ns, a, (m - 1) as nat)
    }
}

proof fn lemma_descendant_indices(ns: Seq<RawNode>, a: int, m: nat)
    ensures
        descendant_indices(ns, a, m).len() == count_descendants(ns, a, m),
        forall|i: int| 0 <= i < descendant_indices(ns, a, m).len() ==> {
            let j = #[trigger] descendant_indices(ns, a, m)[i];
            0 <= j < m && is_descendant(ns, a, j)
        },
        forall|i: int, k: int| 0 <= i < k < descendant_indices(ns, a, m).len()
            ==> #[trigger] descendant_indices(ns, a, m)[i] < #[trigger] descendant_indices(ns, a, m)[k],
        forall|j: int| 0 <= j < m && is_descendant(ns, a, j) ==> #[trigger] descendant_indices(ns, a, m).contains(j),
    decreases m,
{
    if m > 0 {
        let pm = (m - 1) as nat;
        lemma_descendant_indices(ns, a, pm);
        let prev = descendant_indices(ns, a, pm);
        if is_descendant(ns, a, m - 1) {
            let cur = prev.push(m - 1);
            assert(descendant_indices(ns, a, m) == cur);
            assert forall|j: int| 0 <= j < m && is_descendant(ns, a, j) implies #[trigger] cur.contains(j) by {
                if j < m - 1 {
                    assert(prev.contains(j));
                    let w = choose|w: int| 0 <= w < prev.len() && prev[w] == j;
                    assert(cur[w] == j);
                } else {
                    assert(cur[cur.len() - 1] == j);
                }
            }
        }
    }
}

proof fn lemma_ancestor_add(ns: Seq<RawNode>, i: int, x: nat, y: nat)
    ensures
        ancestor(ns, i, x + y) == match ancestor(ns, i, x) {
            Some(b) => ancestor(ns, b, y),
            None => None,
        },
    decreases y,
{
    if y == 0 {
        assert(x + y == x);
    } else {
        lemma_ancestor_add(ns, i, x, (y - 1) as nat);
        assert((x + y - 1) as nat == x + (y - 1) as nat);
    }
}

proof fn lemma_ancestor_repeats(ns: Seq<RawNode>, i: int, k: nat, t: nat)
    requires
        ancestor(ns, i, k) == Some(i),
    ensures
        ancestor(ns, i, t * k) == Some(i),
    decreases t,
{
    if t > 0 {
        lemma_ancestor_repeats(ns, i, k, (t - 1) as nat);
        let p = (t - 1) as nat;
        assert(t * k == p * k + k) by (nonlinear_arith)
            requires
                t > 0,
                p == t - 1;
        lemma_ancestor_add(ns, i, p * k, k);
    } else {
        assert(t * k == 0) by (nonlinear_arith)
            requires
                t == 0;
    }
}

/// In a topology without cycles no node lies below itself.
pub proof fn lemma_not_own_descendant(ns: Seq<RawNode>, a: int)
    requires
        acyclic(ns),
        0 <= a < ns.len(),
    ensures
        !is_descendant(ns, a, a),
{
    if is_descendant(ns, a, a) {
        let k = choose|k: nat| 1 <= k <= ns.len() && #[trigger] ancestor(ns, a, k) == Some(a);
        let t = ns.len();
        lemma_ancestor_repeats(ns, a, k, t);
        assert(t * k >= t) by (nonlinear_arith)
            requires k >= 1;
        assert(ancestor(ns, a, t) is None);
        lemma_ancestor_none_stays(ns, a, t, t * k);
    }
}

/// The nodes below node `a`: exactly the nodes reached from it by one or
/// more steps to a child, each once, in stored order; there are
/// `count_descendants` of them, and in a topology without cycles `a` is not
/// among them.
pub fn collect_descendants(nodes: &Vec<RawNode>, a: usize) -> (r: Vec<usize>)
    requires
        unique_ids(nodes@),
    ensures
        r@.map_values(|j: usize| j as int) == descendant_indices(nodes@, a as int, nodes@.len()),
        r@.len() == count_descendants(nodes@, a as int, nodes@.len()),
        forall|j: int| 0 <= j < nodes@.len() ==> (r@.map_values(|x: usize| x as int).contains(j)
            <==> is_descendant(nodes@, a as int, j)),
        forall|i: int, k: int| 0 <= i < k < r@.len() ==> #[trigger] r@[i] < #[trigger] r@[k],
        acyclic(nodes@) && a < nodes@.len() ==> !r@.contains(a),
{
    let par = parent_indices(nodes);
    let ghost ns = nodes@;
    let mut r: Vec<usize> = Vec::new();
    let mut j: usize = 0;
    while j < nodes.len()
        invariant
            ns == nodes@,
            parents_table(par@, ns),
            j <= ns.len(),
            r@.map_values(|x: usize| x as int) == descendant_indices(ns, a as int, j as nat),
        decreases ns.len() - j,
    {
        let ghost before = r@.map_values(|x: usize| x as int);
        if descends(&par, Ghost(ns), a, j) {
            r.push(j);
            assert(r@.map_values(|x: usize| x as int) =~= before.push(j as int));
        }
        j = j + 1;
    }
    proof {
        let n = ns.len();
        lemma_descendant_indices(ns, a as int, n);
        let d = descendant_indices(ns, a as int, n);
        let rv = r@.map_values(|x: usize| x as int);
        assert(rv == d);
        assert forall|j: int| 0 <= j < n implies (rv.contains(j) <==> is_descendant(ns, a as int, j)) by {
            if rv.contains(j) {
                let w = choose|w: int| 0 <= w < rv.len() && rv[w] == j;
                assert(d[w] == j);
            }
        }
        assert forall|i: int, k: int| 0 <= i < k < r@.len() implies #[trigger] r@[i] < #[trigger] r@[k] by {
            assert(d[i] == r@[i] as int && d[k] == r@[k] as int);
        }
        if acyclic(ns) && a < n {
            lemma_not_own_descendant(ns, a as int);
            if r@.contains(a) {
                let w = choose|w: int| 0 <= w < r@.len() && r@[w] == a;
                assert(rv[w] == a as int);
                assert(rv.contains(a as int));
            }
        }
    }
    r
}

fn descendants_count(par: &Vec<Option<usize>>, Ghost(ns): Ghost<Seq<RawNode>>, a: usize) -> (r: usize)
    requires
        parents_table(par@, ns),
    ensures
        r == count_descendants(ns, a as int, ns.len()),
{
    let mut r: usize = 0;
    let mut m: usize = 0;
    while m < par.len()
        invariant
            parents_table(par@, ns),
            m <= par@.len(),
            r == count_descendants(ns, a as int, m as nat),
            r <= m,
        decreases par@.len() - m,
    {
        if descends(par, Ghost(ns), a, m) {
            r = r + 1;
        }
        m = m + 1;
    }
    r
}

fn serve_node(nodes: &Vec<RawNode>, par: &Vec<Option<usize>>, q: &ViewQuery, j: usize) -> (o: TopologyNodeV2)
    requires
        parents_table(par@, nodes@),
        j < nodes@.len(),
    ensures
        node_served(o, nodes@, *q, j as int),
{
    let n = &nodes[j];
    let collapsed = collapsed_flag(nodes, q, j);
    let collapsed_child_count = if collapsed { children_count(par, Ghost(nodes@), j) } else { 0 };
    TopologyNodeV2 {
        id: n.id.clone(),
        label: n.label.clone(),
        node_type: n.node_type.clone(),
        mac: n.mac.clone(),
        ip: n.ip.clone(),
        source: n.source.clone(),
        parent_id: n.parent_id.clone(),
        order: n.order,
        lacis_id: n.lacis_id.clone(),
        candidate_lacis_id: n.candidate_lacis_id.clone(),
        device_type: n.device_type.clone(),
        product_type: n.product_type.clone(),
        network_device_type: n.network_device_type.clone(),
        status: n.status.clone(),
        state_type: n.state_type.clone(),
        metadata: clone_json(&n.metadata),
        collapsed,
        collapsed_child_count,
        descendant_count: descendants_count(par, Ghost(nodes@), j),
        connection_type: n.connection_type.clone(),
        fid: n.fid.clone(),
        facility_name: n.facility_name.clone(),
    }
}

} // verus!

verus! {

fn visibility(nodes: &Vec<RawNode>, par: &Vec<Option<usize>>, q: &ViewQuery) -> (r: Vec<bool>)
    requires
        parents_table(par@, nodes@),
    ensures
        r@.len() == nodes@.len(),
        forall|j: int| 0 <= j < nodes@.len() ==> #[trigger] r@[j] == visible(nodes@, *q, j),
{
    if str_eq(q.view.as_str(), "routes") {
        route_visibility(nodes, par, q)
    } else if str_eq(q.view.as_str(), "site") && q.fid.is_some() {
        let fid = q.fid.as_ref().unwrap();
        site_visibility(nodes, par, fid)
    } else {
        let mut r: Vec<bool> = Vec::new();
        let mut j: usize = 0;
        while j < nodes.len()
            invariant
                j <= nodes@.len(),
                r@.len() == j,
                !is_routes_view(*q),
                !is_site_view(*q),
                forall|x: int| 0 <= x < j ==> #[trigger] r@[x] == visible(nodes@, *q, x),
            decreases nodes@.len() - j,
        {
            r.push(true);
            j = j + 1;
        }
        r
    }
}

/// Assemble one view of the topology: the kept nodes in order (visible in
/// the view and not below a collapsed node) with their collapse state and
/// counts, and the edges whose two ends are both kept.
pub fn assemble_topology_view(nodes: &Vec<RawNode>, edges: &Vec<RawEdge>, q: &ViewQuery) -> (v: TopologyView)
    requires
        unique_ids(nodes@),
    ensures
        v.nodes@.len() == kept_nodes(nodes@, *q, nodes@.len()).len(),
        forall|t: int| 0 <= t < v.nodes@.len() ==> node_served(#[trigger] v.nodes@[t], nodes@, *q, kept_nodes(nodes@, *q, nodes@.len())[t]),
        v.edges@.len() == kept_edges(nodes@, edges@, *q, edges@.len()).len(),
        forall|t: int| 0 <= t < v.edges@.len() ==> edge_served(#[trigger] v.edges@[t], *q, edges@[kept_edges(nodes@, edges@, *q, edges@.len())[t]]),
{
    let n = nodes.len();
    let par = parent_indices(nodes);
    let vis = visibility(nodes, &par, q);
    let mut keep: Vec<bool> = Vec::new();
    let mut out_nodes: Vec<TopologyNodeV2> = Vec::new();
    let mut j: usize = 0;
    while j < n
        invariant
            n == nodes@.len(),
            unique_ids(nodes@),
            parents_table(par@, nodes@),
            vis@.len() == n,
            forall|x: int| 0 <= x < n ==> #[trigger] vis@[x] == visible(nodes@, *q, x),
            j <= n,
            keep@.len() == j,
            forall|x: int| 0 <= x < j ==> #[trigger] keep@[x] == kept(nodes@, *q, x),
            out_nodes@.len() == kept_nodes(nodes@, *q, j as nat).len(),
            forall|t: int| 0 <= t < out_nodes@.len() ==> node_served(#[trigger] out_nodes@[t], nodes@, *q, kept_nodes(nodes@, *q, j as nat)[t]),
        decreases n - j,
    {
        let k = vis[j] && !hidden_flag(nodes, &par, q, j);
        keep.push(k);
        if k {
            let o = serve_node(nodes, &par, q, j);
            out_nodes.push(o);
        }
        j = j + 1;
    }
    let is_routes = str_eq(q.view.as_str(), "routes");
    let mut out_edges: Vec<TopologyEdge> = Vec::new();
    let mut e: usize = 0;
    while e < edges.len()
        invariant
            n == nodes@.len(),
            unique_ids(nodes@),
            keep@.len() == n,
            forall|x: int| 0 <= x < n ==> #[trigger] keep@[x] == kept(nodes@, *q, x),
            is_routes == is_routes_view(*q),
            e <= edges@.len(),
            out_edges@.len() == kept_edges(nodes@, edges@, *q, e as nat).len(),
            forall|t: int| 0 <= t < out_edges@.len() ==> edge_served(#[trigger] out_edges@[t], *q, edges@[kept_edges(nodes@, edges@, *q, e as nat)[t]]),
        decreases edges@.len() - e,
    {
        let d = &edges[e];
        let from_kept = match find_node(nodes, &d.from) {
            Some(a) => keep[a],
            None => false,
        };
        let to_kept = match find_node(nodes, &d.to) {
            Some(b) => keep[b],
            None => false,
        };
        proof {
            if from_kept != id_kept(nodes@, *q, d.from@) {
                let w = choose|w: int| 0 <= w < nodes@.len() && (#[trigger] nodes@[w]).id@ == d.from@ && kept(nodes@, *q, w);
                assert(has_node_id(nodes@, d.from@));
            }
            if to_kept != id_kept(nodes@, *q, d.to@) {
                let w = choose|w: int| 0 <= w < nodes@.len() && (#[trigger] nodes@[w]).id@ == d.to@ && kept(nodes@, *q, w);
                assert(has_node_id(nodes@, d.to@));
            }
        }
        if from_kept && to_kept {
            let edge_type = if is_routes { owned("route") } else { d.edge_type.clone() };
            out_edges.push(TopologyEdge {
                from: d.from.clone(),
                to: d.to.clone(),
                edge_type,
                label: d.label.clone(),
            });
        }
        e = e + 1;
    }
    TopologyView { nodes: out_nodes, edges: out_edges }
}

} // verus!

verus! {

// ----------------------------------------------------------------------------
// Reparenting
// ----------------------------------------------------------------------------

/// Parent eligibility: a LacisID (20 bytes) or a logic device pseudo-MAC (`F2...`).
pub open spec fn spec_can_be_parent(id: &str) -> bool {
    id.len() == 20 || crate::text::is_prefix("F2"@, id@)
}

impl UserObjectDetail {
    /// Whether a node can be a parent: LacisID format or logic device pseudo-MAC.
    pub fn can_be_parent(id: &str) -> (r: bool)
        ensures
            r == spec_can_be_parent(id),
            id@.len() >= 2 && id@[0] == 'F' && id@[1] == '2' ==> r,
    {
        proof {
            reveal_strlit("F2");
            if id@.len() >= 2 && id@[0] == 'F' && id@[1] == '2' {
                assert(id@.take(2) =~= "F2"@);
            }
        }
        if id.len() == 20 {
            return true;
        }
        let cs = crate::text::chars_of(id);
        let p = crate::text::chars_of("F2");
        crate::text::starts_with(&cs, &p)
    }
}

/// Every logic device may hold children: its node id, the `F2` pseudo-MAC
/// of its UUID, is an eligible parent whatever the UUID.
pub proof fn lemma_logic_devices_are_parents(id: &str, uuid: Seq<char>)
    requires
        id@ == crate::mac::spec_pseudo_mac('2', uuid),
    ensures
        spec_can_be_parent(id),
{
    reveal_strlit("F2");
    let m = crate::mac::spec_pseudo_mac('2', uuid);
    assert(m[0] == 'F' && m[1] == '2');
    assert(id@.take(2) =~= "F2"@);
}

/// No two entries share an id.
pub open spec fn unique_entry_ids(es: Seq<UserObjectDetail>) -> bool {
    forall|i: int, j: int| 0 <= i < es.len() && 0 <= j < es.len() && i != j ==> (#[trigger] es[i]).id@ != (#[trigger] es[j]).id@
}

pub open spec fn entry_index(es: Seq<UserObjectDetail>, id: Seq<char>) -> int {
    choose|k: int| 0 <= k < es.len() && (#[trigger] es[k]).id@ == id
}

/// The stored parent of the entry with the given id; `INTERNET` for an unknown id.
pub open spec fn stored_parent(es: Seq<UserObjectDetail>, id: Seq<char>) -> Seq<char> {
    if has_entry_id(es, id) { es[entry_index(es, id)].parent_id@ } else { "INTERNET"@ }
}

/// The ids met going up from `start`: `start`, its stored parent, and so on.
pub open spec fn parent_chain(es: Seq<UserObjectDetail>, start: Seq<char>, k: nat) -> Seq<char>
    decreases k,
{
    if k == 0 { start } else { stored_parent(es, parent_chain(es, start, (k - 1) as nat)) }
}

/// `target` is met going up from `start` before `INTERNET` (within the first
/// `len + 1` ids, which is where every id of the chain first occurs).
pub open spec fn chain_reaches(es: Seq<UserObjectDetail>, start: Seq<char>, target: Seq<char>) -> bool {
    exists|k: nat| k <= es.len() && #[trigger] parent_chain(es, start, k) == target
        && forall|i: nat| i <= k ==> #[trigger] parent_chain(es, start, i) != "INTERNET"@
}

/// Why a reparent request is refused.
#[derive(PartialEq, Eq, Structural)]
pub enum ReparentError {
    NodeNotFound,
    ParentNotFound,
    ParentNotEligible,
    Circular,
}

/// The decision on moving node `node_id` under `new_parent_id`.
pub open spec fn spec_check_reparent(es: Seq<UserObjectDetail>, node_id: Seq<char>, new_parent_id: &str) -> Result<(), ReparentError> {
    if !has_entry_id(es, node_id) {
        Err(ReparentError::NodeNotFound)
    } else if new_parent_id@ == "INTERNET"@ {
        Ok(())
    } else if !has_entry_id(es, new_parent_id@) {
        Err(ReparentError::ParentNotFound)
    } else if !spec_can_be_parent(new_parent_id) {
        Err(ReparentError::ParentNotEligible)
    } else if chain_reaches(es, new_parent_id@, node_id) {
        Err(ReparentError::Circular)
    } else {
        Ok(())
    }
}

fn stored_parent_exec(entries: &Vec<UserObjectDetail>, id: &str) -> (r: String)
    requires
        unique_entry_ids(entries@),
    ensures
        r@ == stored_parent(entries@, id@),
{
    let mut i: usize = 0;
    while i < entries.len()
        invariant
            unique_entry_ids(entries@),
            i <= entries.len(),
            forall|k: int| 0 <= k < i ==> (#[trigger] entries@[k]).id@ != id@,
        decreases entries.len() - i,
    {
        if str_eq(entries[i].id.as_str(), id) {
            proof {
                assert(0 <= i < entries@.len() && entries@[i as int].id@ == id@);
                let c = entry_index(entries@, id@);
                assert(0 <= c < entries@.len() && entries@[c].id@ == id@);
            }
            return entries[i].parent_id.clone();
        }
        i = i + 1;
    }
    owned("INTERNET")
}

/// Validate moving node `node_id` under `new_parent_id`: the node must exist;
/// `INTERNET` is always accepted; otherwise the parent must exist, be
/// eligible, and not lie below the node (no circular reference).
pub fn check_reparent(entries: &Vec<UserObjectDetail>, node_id: &str, new_parent_id: &str) -> (r: Result<(), ReparentError>)
    requires
        unique_entry_ids(entries@),
    ensures
        r == spec_check_reparent(entries@, node_id@, new_parent_id),
{
    if !entry_id_exists(entries, node_id) {
        return Err(ReparentError::NodeNotFound);
    }
    if str_eq(new_parent_id, "INTERNET") {
        return Ok(());
    }
    if !entry_id_exists(entries, new_parent_id) {
        return Err(ReparentError::ParentNotFound);
    }
    if !UserObjectDetail::can_be_parent(new_parent_id) {
        return Err(ReparentError::ParentNotEligible);
    }
    let n = entries.len();
    let mut current = owned(new_parent_id);
    let mut s: usize = 0;
    loop
        invariant
            unique_entry_ids(entries@),
            n == entries@.len(),
            s <= n,
            has_entry_id(entries@, node_id@),
            new_parent_id@ != "INTERNET"@,
            has_entry_id(entries@, new_parent_id@),
            spec_can_be_parent(new_parent_id),
            current@ == parent_chain(entries@, new_parent_id@, s as nat),
            forall|i: nat| i < s ==> #[trigger] parent_chain(entries@, new_parent_id@, i) != "INTERNET"@
                && parent_chain(entries@, new_parent_id@, i) != node_id@,
        decreases n - s,
    {
        if str_eq(current.as_str(), "INTERNET") {
            proof {
                assert forall|k: nat| k <= n && #[trigger] parent_chain(entries@, new_parent_id@, k) == node_id@
                    implies !(forall|i: nat| i <= k ==> #[trigger] parent_chain(entries@, new_parent_id@, i) != "INTERNET"@) by {
                    if k < s {
                    } else {
                        assert(parent_chain(entries@, new_parent_id@, s as nat) == "INTERNET"@);
                    }
                }
            }
            return Ok(());
        }
        if str_eq(current.as_str(), node_id) {
            assert(parent_chain(entries@, new_parent_id@, s as nat) == node_id@);
            assert(forall|i: nat| i <= s ==> #[trigger] parent_chain(entries@, new_parent_id@, i) != "INTERNET"@);
            return Err(ReparentError::Circular);
        }
        if s == n {
            proof {
                assert forall|k: nat| k <= n && #[trigger] parent_chain(entries@, new_parent_id@, k) == node_id@
                    implies !(forall|i: nat| i <= k ==> #[trigger] parent_chain(entries@, new_parent_id@, i) != "INTERNET"@) by {
                    if k < s {
                    } else {
                        assert(k == s);
                    }
                }
            }
            return Ok(());
        }
        current = stored_parent_exec(entries, current.as_str());
        s = s + 1;
    }
}


/// `es2` is `es` with the stored parent of `node_id` set to `new_parent`.
pub open spec fn reparented(es: Seq<UserObjectDetail>, es2: Seq<UserObjectDetail>, node_id: Seq<char>, new_parent: Seq<char>) -> bool {
    &&& es2.len() == es.len()
    &&& forall|i: int| 0 <= i < es.len() ==> (#[trigger] es2[i]).id@ == es[i].id@
    &&& forall|i: int| 0 <= i < es.len() ==> (#[trigger] es2[i]).parent_id@
            == (if es[i].id@ == node_id { new_parent } else { es[i].parent_id@ })
}

proof fn lemma_reparented_parent(es: Seq<UserObjectDetail>, es2: Seq<UserObjectDetail>, node_id: Seq<char>, p: Seq<char>, x: Seq<char>)
    requires
        unique_entry_ids(es),
        reparented(es, es2, node_id, p),
        x != node_id,
    ensures
        stored_parent(es2, x) == stored_parent(es, x),
{
    if has_entry_id(es, x) {
        let k = entry_index(es, x);
        assert(es2[k].id@ == x);
        assert(has_entry_id(es2, x));
        let k2 = entry_index(es2, x);
        assert(es2[k2].id@ == es[k2].id@);
        assert(k2 == k);
    } else {
        assert forall|k: int| 0 <= k < es2.len() implies (#[trigger] es2[k]).id@ != x by {
            assert(es2[k].id@ == es[k].id@);
        }
        assert(!has_entry_id(es2, x));
    }
}

/// Going up from `start`, the chain in the updated store follows the old one
/// for as long as it has not passed through the moved node.
proof fn lemma_chain_agrees(es: Seq<UserObjectDetail>, es2: Seq<UserObjectDetail>, node_id: Seq<char>, p: Seq<char>, start: Seq<char>, k: nat)
    requires
        unique_entry_ids(es),
        reparented(es, es2, node_id, p),
        forall|i: nat| i < k ==> #[trigger] parent_chain(es2, start, i) != node_id,
    ensures
        parent_chain(es2, start, k) == parent_chain(es, start, k),
    decreases k,
{
    if k > 0 {
        let j = (k - 1) as nat;
        lemma_chain_agrees(es, es2, node_id, p, start, j);
        assert(parent_chain(es2, start, j) != node_id);
        lemma_reparented_parent(es, es2, node_id, p, parent_chain(es, start, j));
    }
}

proof fn lemma_first_hit(es: Seq<UserObjectDetail>, start: Seq<char>, target: Seq<char>, k: nat) -> (k1: nat)
    requires
        parent_chain(es, start, k) == target,
    ensures
        k1 <= k,
        parent_chain(es, start, k1) == target,
        forall|i: nat| i < k1 ==> #[trigger] parent_chain(es, start, i) != target,
    decreases k,
{
    if exists|i: nat| i < k && #[trigger] parent_chain(es, start, i) == target {
        let i = choose|i: nat| i < k && #[trigger] parent_chain(es, start, i) == target;
        lemma_first_hit(es, start, target, i)
    } else {
        k
    }
}

/// An accepted reparent puts no loop through the moved node: once `node_id`
/// hangs under `new_parent_id`, going up from its new parent never comes
/// back to it before `INTERNET` (see `lemma_reparent_keeps_tree` for the
/// whole tree).
pub proof fn lemma_accepted_reparent_keeps_acyclic(
    es: Seq<UserObjectDetail>,
    es2: Seq<UserObjectDetail>,
    node_id: Seq<char>,
    new_parent_id: &str,
)
    requires
        unique_entry_ids(es),
        spec_check_reparent(es, node_id, new_parent_id) is Ok,
        reparented(es, es2, node_id, new_parent_id@),
    ensures
        !chain_reaches(es2, new_parent_id@, node_id),
{
    let p = new_parent_id@;
    if chain_reaches(es2, p, node_id) {
        let k = choose|k: nat| k <= es2.len() && #[trigger] parent_chain(es2, p, k) == node_id
            && forall|i: nat| i <= k ==> #[trigger] parent_chain(es2, p, i) != "INTERNET"@;
        let k1 = lemma_first_hit(es2, p, node_id, k);
        lemma_chain_agrees(es, es2, node_id, p, p, k1);
        assert forall|i: nat| i <= k1 implies #[trigger] parent_chain(es, p, i) != "INTERNET"@ by {
            lemma_chain_agrees(es, es2, node_id, p, p, i);
            assert(parent_chain(es2, p, i) != "INTERNET"@);
        }
        if p == "INTERNET"@ {
            assert(parent_chain(es2, p, 0) == "INTERNET"@);
            assert(false);
        }
        assert(chain_reaches(es, p, node_id));
        assert(false);
    }
}

/// No node is its own ancestor: going up from any id other than `INTERNET`
/// never comes back to it within `len + 1` steps (a loop runs through
/// stored nodes only, each once, so none is longer).
pub open spec fn parents_acyclic(es: Seq<UserObjectDetail>) -> bool {
    forall|x: Seq<char>, k: nat| 1 <= k <= es.len() + 1 && x != "INTERNET"@ ==> #[trigger] parent_chain(es, x, k) != x
}

proof fn lemma_chain_add(es: Seq<UserObjectDetail>, s: Seq<char>, a: nat, b: nat)
    ensures
        parent_chain(es, s, a + b) == parent_chain(es, parent_chain(es, s, a), b),
    decreases b,
{
    if b > 0 {
        lemma_chain_add(es, s, a, (b - 1) as nat);
        assert((a + b - 1) as nat == a + (b - 1) as nat);
    }
}

proof fn lemma_internet_stays(es: Seq<UserObjectDetail>, m: nat)
    requires
        !has_entry_id(es, "INTERNET"@),
    ensures
        parent_chain(es, "INTERNET"@, m) == "INTERNET"@,
    decreases m,
{
    if m > 0 {
        lemma_internet_stays(es, (m - 1) as nat);
    }
}

proof fn lemma_moved_parent(es: Seq<UserObjectDetail>, es2: Seq<UserObjectDetail>, node_id: Seq<char>, p: Seq<char>)
    requires
        unique_entry_ids(es),
        reparented(es, es2, node_id, p),
        has_entry_id(es, node_id),
    ensures
        stored_parent(es2, node_id) == p,
        parent_chain(es2, node_id, 1) == p,
{
    let k = entry_index(es, node_id);
    assert(es2[k].id@ == node_id);
    assert(has_entry_id(es2, node_id));
    let k2 = entry_index(es2, node_id);
    assert(es2[k2].id@ == es[k2].id@);
    assert(k2 == k);
    assert(es[k].id@ == node_id);
    assert(stored_parent(es2, node_id) == es2[k2].parent_id@);
    assert(parent_chain(es2, node_id, 0) == node_id);
}

/// A node can always be moved under an existing logic device that does
/// not lie below it: the check accepts the move.
pub proof fn lemma_move_under_logic_device(es: Seq<UserObjectDetail>, node_id: Seq<char>, parent: &str, uuid: Seq<char>)
    requires
        has_entry_id(es, node_id),
        has_entry_id(es, parent@),
        parent@ == crate::mac::spec_pseudo_mac('2', uuid),
        !chain_reaches(es, parent@, node_id),
    ensures
        spec_check_reparent(es, node_id, parent) is Ok,
{
    lemma_logic_devices_are_parents(parent, uuid);
    reveal_strlit("INTERNET");
    assert(parent@[0] == 'F');
    assert(parent@ != "INTERNET"@);
}

/// Moving a node under a parent that the check accepts keeps the whole
/// tree free of loops: if no node was its own ancestor before, none is
/// after. This holds of every store the nodes can be in: entries are kept
/// under their id, so no two share one, and `INTERNET` names the root of
/// the tree, never a stored entry.
pub proof fn lemma_reparent_keeps_tree(
    es: Seq<UserObjectDetail>,
    es2: Seq<UserObjectDetail>,
    node_id: Seq<char>,
    new_parent_id: &str,
)
    requires
        unique_entry_ids(es),
        !has_entry_id(es, "INTERNET"@),
        parents_acyclic(es),
        spec_check_reparent(es, node_id, new_parent_id) is Ok,
        reparented(es, es2, node_id, new_parent_id@),
    ensures
        parents_acyclic(es2),
{
    let p = new_parent_id@;
    let n = es.len();
    assert(has_entry_id(es, node_id));
    assert(node_id != "INTERNET"@);
    assert(!has_entry_id(es2, "INTERNET"@)) by {
        if has_entry_id(es2, "INTERNET"@) {
            let k = choose|k: int| 0 <= k < es2.len() && (#[trigger] es2[k]).id@ == "INTERNET"@;
            assert(es[k].id@ == "INTERNET"@);
        }
    }
    lemma_moved_parent(es, es2, node_id, p);
    assert forall|x: Seq<char>, k: nat| 1 <= k <= es2.len() + 1 && x != "INTERNET"@
        implies #[trigger] parent_chain(es2, x, k) != x by {
        if parent_chain(es2, x, k) == x {
            if exists|j: nat| j < k && #[trigger] parent_chain(es2, x, j) == node_id {
                let j = choose|j: nat| j < k && #[trigger] parent_chain(es2, x, j) == node_id;
                lemma_chain_add(es2, x, j, k);
                lemma_chain_add(es2, x, k, j);
                assert(j + k == k + j);
                assert(parent_chain(es2, node_id, k) == node_id);
                let m = (k - 1) as nat;
                lemma_chain_add(es2, node_id, 1, m);
                assert(1 + m == k);
                assert(parent_chain(es2, p, m) == node_id);
                if p == "INTERNET"@ {
                    lemma_internet_stays(es2, m);
                } else {
                    let k1 = lemma_first_hit(es2, p, node_id, m);
                    lemma_chain_agrees(es, es2, node_id, p, p, k1);
                    assert forall|i: nat| i <= k1 implies #[trigger] parent_chain(es, p, i) != "INTERNET"@ by {
                        if parent_chain(es, p, i) == "INTERNET"@ {
                            let d = (k1 - i) as nat;
                            lemma_chain_add(es, p, i, d);
                            assert(i + d == k1);
                            lemma_internet_stays(es, d);
                        }
                    }
                    assert(k1 <= n);
                    assert(chain_reaches(es, p, node_id));
                }
            } else {
                lemma_chain_agrees(es, es2, node_id, p, x, k);
                assert(parent_chain(es, x, k) == x);
            }
        }
    }
}

/// The stored nodes after moving `node_id` under `new_parent_id`: the move
/// is made exactly when the check accepts it, and then only that node's
/// parent changes; a refused move leaves everything as it was. An accepted
/// move keeps the tree free of loops (see `lemma_reparent_keeps_tree`).
pub fn apply_reparent(entries: &mut Vec<UserObjectDetail>, node_id: &str, new_parent_id: &str) -> (r: Result<(), ReparentError>)
    requires
        unique_entry_ids(old(entries)@),
    ensures
        r == spec_check_reparent(old(entries)@, node_id@, new_parent_id),
        r is Ok ==> reparented(old(entries)@, final(entries)@, node_id@, new_parent_id@)
            && ({
                let k = entry_index(old(entries)@, node_id@);
                let moved = final(entries)@[k];
                &&& final(entries)@ == old(entries)@.update(k, moved)
                &&& moved == UserObjectDetail { parent_id: moved.parent_id, ..old(entries)@[k] }
                &&& moved.parent_id@ == new_parent_id@
            }),
        r is Err ==> final(entries)@ == old(entries)@,
        r is Ok && !has_entry_id(old(entries)@, "INTERNET"@) && parents_acyclic(old(entries)@)
            ==> parents_acyclic(final(entries)@),
{
    let r = check_reparent(entries, node_id, new_parent_id);
    if r.is_err() {
        return r;
    }
    let ghost before = entries@;
    let mut i: usize = 0;
    while i < entries.len()
        invariant
            i <= entries.len(),
            entries@ == before,
            unique_entry_ids(before),
            has_entry_id(before, node_id@),
            forall|k: int| 0 <= k < i ==> (#[trigger] before[k]).id@ != node_id@,
        ensures
            i <= entries.len(),
            entries@ == before,
            i < entries.len() ==> before[i as int].id@ == node_id@,
            i == entries.len() ==> forall|k: int| 0 <= k < i ==> (#[trigger] before[k]).id@ != node_id@,
        decreases entries.len() - i,
    {
        if str_eq(entries[i].id.as_str(), node_id) {
            break;
        }
        i = i + 1;
    }
    if i >= entries.len() {
        assert(false);
        return r;
    }
    proof {
        let c = entry_index(before, node_id@);
        assert(before[c].id@ == node_id@);
        assert(c == i);
    }
    let mut e = entries.remove(i);
    let np = owned(new_parent_id);
    e.parent_id = np;
    entries.insert(i, e);
    proof {
        assert(entries@ =~= before.update(i as int, e));
        assert forall|k: int| 0 <= k < before.len() implies (#[trigger] entries@[k]).id@ == before[k].id@ by {}
        assert forall|k: int| 0 <= k < before.len() implies (#[trigger] entries@[k]).parent_id@
            == (if before[k].id@ == node_id@ { new_parent_id@ } else { before[k].parent_id@ }) by {
            if k != i as int {
                assert(before[k].id@ != node_id@);
            }
        }
        if !has_entry_id(before, "INTERNET"@) && parents_acyclic(before) {
            lemma_reparent_keeps_tree(before, entries@, node_id@, new_parent_id);
        }
    }
    r
}

} // verus!

verus! {

// ----------------------------------------------------------------------------
// Re-ingesting a known node
// ----------------------------------------------------------------------------

/// A later value when there is one, else the kept one.
pub open spec fn or_keep(new: Option<String>, kept: Option<String>) -> Option<String> {
    if new is Some { new } else { kept }
}

/// What storing a freshly ingested `entry` over the stored `existing` node
/// leaves: only the volatile fields (state, address, host name, SSID,
/// metadata, device type, update time) follow the new entry; the label only
/// while nobody customised it; LacisIDs only when the entry has them; the
/// place in the topology (parent, order) and everything else stay.
pub open spec fn spec_merged(existing: UserObjectDetail, entry: UserObjectDetail) -> UserObjectDetail {
    UserObjectDetail {
        state_type: entry.state_type,
        ip: entry.ip,
        hostname: entry.hostname,
        ssid: entry.ssid,
        updated_at: entry.updated_at,
        metadata: entry.metadata,
        label: if existing.label_customized { existing.label } else { entry.label },
        lacis_id: or_keep(entry.lacis_id, existing.lacis_id),
        candidate_lacis_id: or_keep(entry.candidate_lacis_id, existing.candidate_lacis_id),
        device_type: entry.device_type,
        aranea_lacis_id: or_keep(entry.aranea_lacis_id, existing.aranea_lacis_id),
        ..existing
    }
}

fn pick(new: &Option<String>, kept: &Option<String>) -> (r: Option<String>)
    ensures
        r == or_keep(*new, *kept),
{
    if new.is_some() { crate::node_order::clone_opt(new) } else { crate::node_order::clone_opt(kept) }
}

/// The node to store for an ingested entry: the entry itself when the node
/// is new, else the stored node updated as `spec_merged` says.
pub fn upsert_user_object_detail(existing: &Option<UserObjectDetail>, entry: &UserObjectDetail) -> (r: UserObjectDetail)
    ensures
        r == match existing {
            Some(e) => spec_merged(*e, *entry),
            None => *entry,
        },
{
    match existing {
        None => UserObjectDetail {
            id: entry.id.clone(),
            mac: entry.mac.clone(),
            lacis_id: crate::node_order::clone_opt(&entry.lacis_id),
            device_type: entry.device_type.clone(),
            parent_id: entry.parent_id.clone(),
            sort_order: entry.sort_order,
            node_type: entry.node_type.clone(),
            state_type: entry.state_type.clone(),
            label: entry.label.clone(),
            label_customized: entry.label_customized,
            ip: crate::node_order::clone_opt(&entry.ip),
            hostname: crate::node_order::clone_opt(&entry.hostname),
            source: entry.source.clone(),
            source_ref_id: crate::node_order::clone_opt(&entry.source_ref_id),
            connection_type: entry.connection_type.clone(),
            product_type: crate::node_order::clone_opt(&entry.product_type),
            product_code: crate::node_order::clone_opt(&entry.product_code),
            network_device_type: crate::node_order::clone_opt(&entry.network_device_type),
            candidate_lacis_id: crate::node_order::clone_opt(&entry.candidate_lacis_id),
            fid: crate::node_order::clone_opt(&entry.fid),
            facility_name: crate::node_order::clone_opt(&entry.facility_name),
            ssid: crate::node_order::clone_opt(&entry.ssid),
            metadata: clone_json(&entry.metadata),
            aranea_lacis_id: crate::node_order::clone_opt(&entry.aranea_lacis_id),
            created_at: entry.created_at.clone(),
            updated_at: entry.updated_at.clone(),
        },
        Some(e) => UserObjectDetail {
            id: e.id.clone(),
            mac: e.mac.clone(),
            lacis_id: pick(&entry.lacis_id, &e.lacis_id),
            device_type: entry.device_type.clone(),
            parent_id: e.parent_id.clone(),
            sort_order: e.sort_order,
            node_type: e.node_type.clone(),
            state_type: entry.state_type.clone(),
            label: if e.label_customized { e.label.clone() } else { entry.label.clone() },
            label_customized: e.label_customized,
            ip: crate::node_order::clone_opt(&entry.ip),
            hostname: crate::node_order::clone_opt(&entry.hostname),
            source: e.source.clone(),
            source_ref_id: crate::node_order::clone_opt(&e.source_ref_id),
            connection_type: e.connection_type.clone(),
            product_type: crate::node_order::clone_opt(&e.product_type),
            product_code: crate::node_order::clone_opt(&e.product_code),
            network_device_type: crate::node_order::clone_opt(&e.network_device_type),
            candidate_lacis_id: pick(&entry.candidate_lacis_id, &e.candidate_lacis_id),
            fid: crate::node_order::clone_opt(&e.fid),
            facility_name: crate::node_order::clone_opt(&e.facility_name),
            ssid: crate::node_order::clone_opt(&entry.ssid),
            metadata: clone_json(&entry.metadata),
            aranea_lacis_id: pick(&entry.aranea_lacis_id, &e.aranea_lacis_id),
            created_at: e.created_at.clone(),
            updated_at: entry.updated_at.clone(),
        },
    }
}

/// Re-ingesting never moves a node: its parent, sibling order, type and
/// source stay, and a customised label stays.
pub proof fn lemma_reingest_keeps_place(existing: UserObjectDetail, entry: UserObjectDetail)
    ensures
        spec_merged(existing, entry).parent_id == existing.parent_id,
        spec_merged(existing, entry).sort_order == existing.sort_order,
        spec_merged(existing, entry).node_type == existing.node_type,
        spec_merged(existing, entry).source == existing.source,
        existing.label_customized ==> spec_merged(existing, entry).label == existing.label,
{
}

/// Ingesting the same entry twice leaves what ingesting it once left.
pub proof fn lemma_reingest_idempotent(existing: UserObjectDetail, entry: UserObjectDetail)
    ensures
        spec_merged(spec_merged(existing, entry), entry) == spec_merged(existing, entry),
{
}

} // verus!
