//! WireGuard peers kept on Omada controllers: the requests that manage
//! them and the per-interface overview.

use vstd::prelude::*;
use crate::docs::OmadaWgPeerDoc;
use crate::seqs::{count_where, first_index, is_first, lemma_count_le, lemma_count_step, lemma_first_is};
use crate::text::{append_str, owned, str_eq};
use crate::topology_api::{confirm_required, ConfirmRequired};

verus! {

/// A new peer on an interface of a controller's site.
pub struct CreatePeerApiRequest {
    pub controller_id: String,
    pub site_id: String,
    pub name: String,
    pub interface_id: String,
    pub public_key: String,
    pub allow_address: Vec<String>,
    pub keep_alive: Option<i32>,
    pub comment: Option<String>,
}

/// Changes to a peer; `None` leaves a field as it is.
pub struct UpdatePeerApiRequest {
    pub controller_id: String,
    pub site_id: String,
    pub name: Option<String>,
    pub allow_address: Option<Vec<String>>,
    pub keep_alive: Option<i32>,
    pub comment: Option<String>,
}

/// Where the peer to delete lives, and whether the deletion is confirmed.
pub struct DeletePeerQuery {
    pub controller_id: String,
    pub site_id: String,
    pub confirm: bool,
}

/// Which peers or interfaces to list.
pub struct WgInterfaceQuery {
    pub controller_id: Option<String>,
    pub site_id: Option<String>,
}

/// `Controller {id} not found`.
pub fn controller_not_found_message(controller_id: &str) -> (r: String)
    ensures
        r@ == "Controller "@ + controller_id@ + " not found"@,
{
    let mut m = owned("Controller ");
    append_str(&mut m, controller_id);
    append_str(&mut m, " not found");
    m
}

/// `Peer {id} {what}`: how a done change to a peer is reported.
pub fn peer_message(peer_id: &str, what: &str) -> (r: String)
    ensures
        r@ == "Peer "@ + peer_id@ + " "@ + what@,
{
    let mut m = owned("Peer ");
    append_str(&mut m, peer_id);
    append_str(&mut m, " ");
    append_str(&mut m, what);
    m
}

/// The confirmation a peer deletion asks for before it is done.
pub fn peer_delete_confirmation(peer_id: &str) -> (c: ConfirmRequired)
    ensures
        c.action@ == "delete_wireguard_peer"@,
        c.target@ == "WireGuard peer "@ + peer_id@,
        c.warning@ == "This will delete the WireGuard peer from the Omada controller. VPN connectivity will be lost."@,
        c.confirm_required,
{
    let mut t = owned("WireGuard peer ");
    append_str(&mut t, peer_id);
    confirm_required(
        "delete_wireguard_peer",
        t.as_str(),
        owned("This will delete the WireGuard peer from the Omada controller. VPN connectivity will be lost."),
    )
}

/// An interface as its peers show it.
pub struct WgInterfaceSummary {
    pub interface_id: String,
    pub interface_name: String,
    pub controller_id: String,
    pub site_id: String,
    pub peer_count: u64,
    pub active_peers: u64,
}

/// The peer is on the interface.
pub open spec fn on_iface(id: Seq<char>) -> spec_fn(OmadaWgPeerDoc) -> bool {
    |p: OmadaWgPeerDoc| p.interface_id@ == id
}

/// The peer is on the interface and up.
pub open spec fn active_on_iface(id: Seq<char>) -> spec_fn(OmadaWgPeerDoc) -> bool {
    |p: OmadaWgPeerDoc| p.interface_id@ == id && p.status
}

/// The summary names the interface as `p` does.
pub open spec fn describes(s: WgInterfaceSummary, p: OmadaWgPeerDoc) -> bool {
    &&& s.interface_id == p.interface_id
    &&& s.interface_name == p.interface_name
    &&& s.controller_id == p.controller_id
    &&& s.site_id == p.site_id
}

/// Each summary describes its interface as the interface's first peer
/// does, and counts its peers and active peers.
pub open spec fn summary_of(s: WgInterfaceSummary, peers: Seq<OmadaWgPeerDoc>) -> bool {
    &&& first_index(peers, on_iface(s.interface_id@)) matches Some(f) && describes(s, peers[f])
    &&& s.peer_count == count_where(peers, on_iface(s.interface_id@))
    &&& s.active_peers == count_where(peers, active_on_iface(s.interface_id@))
}

proof fn lemma_count_none(s: Seq<OmadaWgPeerDoc>, p: spec_fn(OmadaWgPeerDoc) -> bool)
    requires
        forall|k: int| 0 <= k < s.len() ==> !p(#[trigger] s[k]),
    ensures
        count_where(s, p) == 0,
    decreases s.len(),
{
    if s.len() > 0 {
        assert forall|k: int| 0 <= k < s.drop_last().len() implies !p(#[trigger] s.drop_last()[k]) by {
            assert(s.drop_last()[k] == s[k]);
        }
        lemma_count_none(s.drop_last(), p);
    }
}

fn find_summary(r: &Vec<WgInterfaceSummary>, id: &str) -> (k: Option<usize>)
    ensures
        match k {
            Some(k) => k < r.len() && r@[k as int].interface_id@ == id@,
            None => forall|j: int| 0 <= j < r.len() ==> #[trigger] r@[j].interface_id@ != id@,
        },
{
    let mut j: usize = 0;
    while j < r.len()
        invariant
            j <= r.len(),
            forall|x: int| 0 <= x < j ==> #[trigger] r@[x].interface_id@ != id@,
        decreases r.len() - j,
    {
        if str_eq(r[j].interface_id.as_str(), id) {
            return Some(j);
        }
        j = j + 1;
    }
    None
}

/// The sum of the peer counts of some summaries.
pub open spec fn total_peers(r: Seq<WgInterfaceSummary>) -> int
    decreases r.len(),
{
    if r.len() == 0 { 0 } else { total_peers(r.drop_last()) + r.last().peer_count }
}

proof fn lemma_total_update(r: Seq<WgInterfaceSummary>, k: int, s: WgInterfaceSummary)
    requires
        0 <= k < r.len(),
    ensures
        total_peers(r.update(k, s)) == total_peers(r) - r[k].peer_count + s.peer_count,
    decreases r.len(),
{
    if k < r.len() - 1 {
        assert(r.update(k, s).drop_last() =~= r.drop_last().update(k, s));
        lemma_total_update(r.drop_last(), k, s);
    } else {
        assert(r.update(k, s).drop_last() =~= r.drop_last());
    }
}

/// The interfaces the peers are on, each once, in the order in which they
/// first occur, with their peer counts.
#[verifier::rlimit(40)]
pub fn wg_interfaces(peers: &Vec<OmadaWgPeerDoc>) -> (r: Vec<WgInterfaceSummary>)
    ensures
        forall|k: int| 0 <= k < r.len() ==> summary_of(#[trigger] r@[k], peers@),
        forall|a: int, b: int| 0 <= a < b < r.len() ==> r@[a].interface_id@ != r@[b].interface_id@,
        forall|j: int| 0 <= j < peers.len() ==>
            exists|k: int| 0 <= k < r.len() && #[trigger] r@[k].interface_id@ == (#[trigger] peers@[j]).interface_id@,
        forall|a: int, b: int| 0 <= a < b < r.len() ==>
            first_index(peers@, on_iface(r@[a].interface_id@)).unwrap() < first_index(peers@, on_iface(r@[b].interface_id@)).unwrap(),
        total_peers(r@) == peers.len(),
{
    let mut r: Vec<WgInterfaceSummary> = Vec::new();
    let ghost mut firsts: Seq<int> = Seq::empty();
    let mut i: usize = 0;
    while i < peers.len()
        invariant
            i <= peers.len(),
            r.len() == firsts.len(),
            forall|k: int| 0 <= k < r.len() ==> 0 <= #[trigger] firsts[k] < i
                && is_first(peers@, on_iface(r@[k].interface_id@), firsts[k])
                && describes(r@[k], peers@[firsts[k]]),
            forall|a: int, b: int| 0 <= a < b < r.len() ==> firsts[a] < firsts[b],
            forall|k: int| 0 <= k < r.len() ==>
                (#[trigger] r@[k]).peer_count == count_where(peers@.take(i as int), on_iface(r@[k].interface_id@))
                && r@[k].active_peers == count_where(peers@.take(i as int), active_on_iface(r@[k].interface_id@)),
            forall|j: int| 0 <= j < i ==>
                exists|k: int| 0 <= k < r.len() && #[trigger] r@[k].interface_id@ == (#[trigger] peers@[j]).interface_id@,
            total_peers(r@) == i,
        decreases peers.len() - i,
    {
        let p = &peers[i];
        let ghost pid = p.interface_id@;
        // Distinct summaries name distinct interfaces.
        proof {
            assert forall|a: int, b: int| 0 <= a < r.len() && 0 <= b < r.len() && a != b
                implies r@[a].interface_id@ != r@[b].interface_id@ by {
                if r@[a].interface_id@ == r@[b].interface_id@ {
                    lemma_first_is(peers@, on_iface(r@[a].interface_id@), firsts[a]);
                    lemma_first_is(peers@, on_iface(r@[b].interface_id@), firsts[b]);
                    if a < b {
                        assert(firsts[a] < firsts[b]);
                    } else {
                        assert(firsts[b] < firsts[a]);
                    }
                }
            }
            assert forall|k: int| 0 <= k < r.len() implies
                count_where(peers@.take(i + 1), on_iface(#[trigger] r@[k].interface_id@))
                    == count_where(peers@.take(i as int), on_iface(r@[k].interface_id@)) + if r@[k].interface_id@ == pid { 1nat } else { 0nat }
                && count_where(peers@.take(i + 1), active_on_iface(r@[k].interface_id@))
                    == count_where(peers@.take(i as int), active_on_iface(r@[k].interface_id@))
                        + if r@[k].interface_id@ == pid && p.status { 1nat } else { 0nat } by {
                lemma_count_step(peers@, on_iface(r@[k].interface_id@), i as int);
                lemma_count_step(peers@, active_on_iface(r@[k].interface_id@), i as int);
            }
        }
        let found = find_summary(&r, p.interface_id.as_str());
        match found {
            Some(k0) => {
                let old = &r[k0];
                proof {
                    lemma_count_le(peers@.take(i as int), on_iface(pid));
                    lemma_count_le(peers@.take(i as int), active_on_iface(pid));
                }
                let bump: u64 = if p.status { 1 } else { 0 };
                let updated = WgInterfaceSummary {
                    interface_id: old.interface_id.clone(),
                    interface_name: old.interface_name.clone(),
                    controller_id: old.controller_id.clone(),
                    site_id: old.site_id.clone(),
                    peer_count: old.peer_count + 1,
                    active_peers: old.active_peers + bump,
                };
                let ghost before = r@;
                r.set(k0, updated);
                proof {
                    lemma_total_update(before, k0 as int, r@[k0 as int]);
                    assert forall|j: int| 0 <= j < i + 1 implies
                        exists|k: int| 0 <= k < r.len() && #[trigger] r@[k].interface_id@ == (#[trigger] peers@[j]).interface_id@ by {
                        if j < i {
                            let k = choose|k: int| 0 <= k < before.len() && #[trigger] before[k].interface_id@ == peers@[j].interface_id@;
                            assert(r@[k].interface_id@ == before[k].interface_id@);
                        } else {
                            assert(r@[k0 as int].interface_id@ == peers@[j].interface_id@);
                        }
                    }
                }
            },
            None => {
                proof {
                    assert forall|j: int| 0 <= j < i implies !on_iface(pid)(#[trigger] peers@[j]) by {
                        let k = choose|k: int| 0 <= k < r.len() && #[trigger] r@[k].interface_id@ == peers@[j].interface_id@;
                        assert(r@[k].interface_id@ != pid);
                    }
                    assert forall|j: int| 0 <= j < peers@.take(i as int).len() implies
                        !on_iface(pid)(#[trigger] peers@.take(i as int)[j]) by {
                        assert(peers@.take(i as int)[j] == peers@[j]);
                    }
                    assert forall|j: int| 0 <= j < peers@.take(i as int).len() implies
                        !active_on_iface(pid)(#[trigger] peers@.take(i as int)[j]) by {
                        assert(peers@.take(i as int)[j] == peers@[j]);
                        assert(!on_iface(pid)(peers@[j]));
                    }
                    lemma_count_none(peers@.take(i as int), on_iface(pid));
                    lemma_count_none(peers@.take(i as int), active_on_iface(pid));
                    lemma_count_step(peers@, on_iface(pid), i as int);
                    lemma_count_step(peers@, active_on_iface(pid), i as int);
                    assert(is_first(peers@, on_iface(pid), i as int));
                }
                let s = WgInterfaceSummary {
                    interface_id: p.interface_id.clone(),
                    interface_name: p.interface_name.clone(),
                    controller_id: p.controller_id.clone(),
                    site_id: p.site_id.clone(),
                    peer_count: 1,
                    active_peers: if p.status { 1 } else { 0 },
                };
                let ghost before = r@;
                r.push(s);
                proof {
                    assert(r@.drop_last() =~= before);
                    firsts = firsts.push(i as int);
                    assert forall|j: int| 0 <= j < i + 1 implies
                        exists|k: int| 0 <= k < r.len() && #[trigger] r@[k].interface_id@ == (#[trigger] peers@[j]).interface_id@ by {
                        if j < i {
                            let k = choose|k: int| 0 <= k < before.len() && #[trigger] before[k].interface_id@ == peers@[j].interface_id@;
                            assert(r@[k] == before[k]);
                        } else {
                            assert(r@[before.len() as int].interface_id@ == peers@[j].interface_id@);
                        }
                    }
                }
            },
        }
        i = i + 1;
    }
    proof {
        assert(peers@.take(peers.len() as int) =~= peers@);
        assert forall|k: int| 0 <= k < r.len() implies summary_of(#[trigger] r@[k], peers@) by {
            lemma_first_is(peers@, on_iface(r@[k].interface_id@), firsts[k]);
        }
        assert forall|a: int, b: int| 0 <= a < b < r.len() implies r@[a].interface_id@ != r@[b].interface_id@ by {
            lemma_first_is(peers@, on_iface(r@[a].interface_id@), firsts[a]);
            lemma_first_is(peers@, on_iface(r@[b].interface_id@), firsts[b]);
        }
        assert forall|a: int, b: int| 0 <= a < b < r.len() implies
            first_index(peers@, on_iface(r@[a].interface_id@)).unwrap() < first_index(peers@, on_iface(r@[b].interface_id@)).unwrap() by {
            lemma_first_is(peers@, on_iface(r@[a].interface_id@), firsts[a]);
            lemma_first_is(peers@, on_iface(r@[b].interface_id@), firsts[b]);
        }
    }
    r
}

} // verus!
