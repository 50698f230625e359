use lacis_proxy::docs::OmadaWgPeerDoc;
use lacis_proxy::wireguard::{controller_not_found_message, peer_delete_confirmation, peer_message, wg_interfaces};

fn peer(id: &str, iface: &str, up: bool) -> OmadaWgPeerDoc {
    OmadaWgPeerDoc {
        peer_id: id.to_string(),
        controller_id: "c1".to_string(),
        site_id: "s1".to_string(),
        name: id.to_string(),
        status: up,
        interface_id: iface.to_string(),
        interface_name: format!("wg-{iface}"),
        public_key: String::new(),
        allow_address: Vec::new(),
        keep_alive: 25,
        comment: None,
        synced_at: String::new(),
        created_at: String::new(),
        updated_at: String::new(),
    }
}

#[test]
fn interfaces_are_listed_once_with_their_counts() {
    let peers = vec![peer("p1", "i2", true), peer("p2", "i1", false), peer("p3", "i2", false), peer("p4", "i2", true)];
    let r = wg_interfaces(&peers);
    assert_eq!(r.len(), 2);
    assert_eq!(r[0].interface_id, "i2");
    assert_eq!(r[0].interface_name, "wg-i2");
    assert_eq!(r[0].peer_count, 3);
    assert_eq!(r[0].active_peers, 2);
    assert_eq!(r[1].interface_id, "i1");
    assert_eq!(r[1].peer_count, 1);
    assert_eq!(r[1].active_peers, 0);
    let total: u64 = r.iter().map(|s| s.peer_count).sum();
    assert_eq!(total, peers.len() as u64);
    assert!(wg_interfaces(&Vec::new()).is_empty());
}

#[test]
fn peer_messages() {
    assert_eq!(controller_not_found_message("c9"), "Controller c9 not found");
    assert_eq!(peer_message("p1", "updated"), "Peer p1 updated");
    assert_eq!(peer_message("p1", "deleted"), "Peer p1 deleted");
    let c = peer_delete_confirmation("p1");
    assert_eq!(c.action, "delete_wireguard_peer");
    assert_eq!(c.target, "WireGuard peer p1");
    assert!(c.confirm_required);
}
