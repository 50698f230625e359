use lacis_proxy::node_order::{client_depth, client_parent, device_placement, merge_node_order, wg_placement, NodeOrderEntry};
use lacis_proxy::auth::AppError;
use lacis_proxy::topology::{check_reparent, upsert_user_object_detail, ReparentError, UserObjectDetail};
use lacis_proxy::topology_api::{logic_device_delete_confirmation, logic_device_node, reparent_refusal};

fn node(id: &str, parent: &str, label: &str) -> UserObjectDetail {
    UserObjectDetail {
        id: id.to_string(),
        mac: "AABBCCDDEEFF".to_string(),
        lacis_id: None,
        device_type: "NetworkDevice".to_string(),
        parent_id: parent.to_string(),
        sort_order: 3,
        node_type: "switch".to_string(),
        state_type: "online".to_string(),
        label: label.to_string(),
        label_customized: false,
        ip: Some("10.0.0.2".to_string()),
        hostname: None,
        source: "omada".to_string(),
        source_ref_id: None,
        connection_type: "wired".to_string(),
        product_type: None,
        product_code: None,
        network_device_type: None,
        candidate_lacis_id: None,
        fid: None,
        facility_name: None,
        ssid: None,
        metadata: serde_json::Value::Null,
        aranea_lacis_id: None,
        created_at: "c".to_string(),
        updated_at: "u".to_string(),
    }
}

fn entry(mac: &str, parent: &str, label: &str, customized: bool) -> NodeOrderEntry {
    NodeOrderEntry {
        mac: mac.to_string(),
        parent_mac: parent.to_string(),
        depth: 2,
        order: 4,
        label: label.to_string(),
        node_type: "ap".to_string(),
        ip: None,
        hostname: None,
        source: "omada".to_string(),
        source_ref_id: None,
        status: "online".to_string(),
        state_type: "online".to_string(),
        connection_type: "wired".to_string(),
        lacis_id: None,
        candidate_lacis_id: None,
        product_type: None,
        network_device_type: None,
        fid: None,
        facility_name: None,
        metadata: serde_json::Value::Null,
        label_customized: customized,
        ssid: None,
        created_at: "c".to_string(),
        updated_at: "u".to_string(),
    }
}

#[test]
fn devices_hang_under_gateway_or_switch() {
    let gw = Some("GW0000000001".to_string());
    let sw = Some("SW0000000001".to_string());
    assert_eq!(device_placement("gateway", &gw, &sw), ("INTERNET".to_string(), 1));
    assert_eq!(device_placement("ap", &gw, &sw), ("SW0000000001".to_string(), 3));
    assert_eq!(device_placement("ap", &None, &sw), ("SW0000000001".to_string(), 2));
    assert_eq!(device_placement("switch", &gw, &sw), ("GW0000000001".to_string(), 2));
    assert_eq!(device_placement("switch", &None, &None), ("INTERNET".to_string(), 1));
    assert_eq!(wg_placement(&gw), ("GW0000000001".to_string(), 2));
    assert_eq!(wg_placement(&None), ("INTERNET".to_string(), 1));
}

#[test]
fn clients_hang_under_their_uplink_device() {
    let devices = vec!["AABBCCDDEEFF".to_string()];
    let gw = Some("GW0000000001".to_string());
    assert_eq!(client_parent(true, &Some("aa:bb:cc:dd:ee:ff".to_string()), &None, &devices, &gw), "AABBCCDDEEFF");
    assert_eq!(client_parent(false, &Some("aa:bb:cc:dd:ee:ff".to_string()), &None, &devices, &gw), "GW0000000001");
    assert_eq!(client_parent(true, &Some("11:22:33:44:55:66".to_string()), &None, &devices, &None), "INTERNET");
    let sw = Some("SW0000000001".to_string());
    assert_eq!(client_depth(&"INTERNET".to_string(), &gw, &sw), 1);
    assert_eq!(client_depth(&"GW0000000001".to_string(), &gw, &sw), 2);
    assert_eq!(client_depth(&"SW0000000001".to_string(), &gw, &sw), 3);
    assert_eq!(client_depth(&"AP0000000001".to_string(), &gw, &sw), 4);
    assert_eq!(client_depth(&"AP0000000001".to_string(), &gw, &None), 3);
}

#[test]
fn upserts_keep_the_place_in_the_tree() {
    let stored = entry("AABBCCDDEEFF", "SW0000000001", "Hall AP", true);
    let fresh = entry("AABBCCDDEEFF", "GW0000000001", "EAP245", false);
    let m = merge_node_order(Some(&stored), &fresh);
    assert_eq!(m.parent_mac, "SW0000000001");
    assert_eq!(m.label, "Hall AP");
    let stored2 = entry("AABBCCDDEEFF", "SW0000000001", "old", false);
    assert_eq!(merge_node_order(Some(&stored2), &fresh).label, "EAP245");
    assert_eq!(merge_node_order(None, &fresh).parent_mac, "GW0000000001");
}

#[test]
fn reingested_nodes_keep_parent_and_custom_label() {
    let mut stored = node("4101AABBCCDDEEFF0000", "INTERNET", "My switch");
    stored.label_customized = true;
    stored.lacis_id = Some("4101AABBCCDDEEFF0000".to_string());
    let mut fresh = node("4101AABBCCDDEEFF0000", "SOMEWHERE", "TL-SG2008");
    fresh.state_type = "offline".to_string();
    fresh.ip = None;
    let r = upsert_user_object_detail(&Some(stored), &fresh);
    assert_eq!(r.parent_id, "INTERNET");
    assert_eq!(r.label, "My switch");
    assert_eq!(r.state_type, "offline");
    assert_eq!(r.ip, None);
    assert_eq!(r.lacis_id.as_deref(), Some("4101AABBCCDDEEFF0000"));
    let new = upsert_user_object_detail(&None, &fresh);
    assert_eq!(new.parent_id, "SOMEWHERE");
}

#[test]
fn reparenting_refuses_cycles() {
    let a = "4101AAAAAAAAAAAA0000";
    let b = "4101BBBBBBBBBBBB0000";
    let c = "4101CCCCCCCCCCCC0000";
    let entries = vec![node(a, "INTERNET", "a"), node(b, a, "b"), node(c, b, "c"), node("112233445566", c, "client")];
    assert!(check_reparent(&entries, c, a).is_ok());
    assert!(check_reparent(&entries, b, "INTERNET").is_ok());
    assert!(check_reparent(&entries, a, c) == Err(ReparentError::Circular));
    assert!(check_reparent(&entries, a, a) == Err(ReparentError::Circular));
    assert!(check_reparent(&entries, "missing", a) == Err(ReparentError::NodeNotFound));
    assert!(check_reparent(&entries, c, "4101DDDDDDDDDDDD0000") == Err(ReparentError::ParentNotFound));
    assert!(check_reparent(&entries, c, "112233445566") == Err(ReparentError::ParentNotEligible));
}

#[test]
fn refused_reparents_are_answered() {
    match reparent_refusal(&ReparentError::Circular, "n1", "p1") {
        AppError::BadRequest(m) => assert_eq!(m, "Circular reference detected: new parent is a descendant of this node"),
        _ => panic!("expected a bad request"),
    }
    match reparent_refusal(&ReparentError::ParentNotFound, "n1", "p1") {
        AppError::NotFound(m) => assert_eq!(m, "New parent 'p1' not found"),
        _ => panic!("expected not found"),
    }
    match reparent_refusal(&ReparentError::NodeNotFound, "n1", "p1") {
        AppError::NotFound(m) => assert_eq!(m, "Node 'n1' not found"),
        _ => panic!("expected not found"),
    }
    match reparent_refusal(&ReparentError::ParentNotEligible, "n1", "p1") {
        AppError::BadRequest(m) => {
            assert_eq!(m, "Node 'p1' cannot be a parent (only LacisID or Logic Device nodes can be parents)")
        }
        _ => panic!("expected a bad request"),
    }
}

#[test]
fn logic_devices_are_found_and_removal_confirmed() {
    let mut a = node("x", "INTERNET", "x");
    a.source_ref_id = Some("logic:1".to_string());
    let mut b = node("y", "INTERNET", "y");
    b.source_ref_id = Some("logic:2".to_string());
    let entries = vec![node("z", "INTERNET", "z"), a, b];
    assert_eq!(logic_device_node(&entries, "logic:2"), Some(2));
    assert_eq!(logic_device_node(&entries, "logic:9"), None);
    let c = logic_device_delete_confirmation("logic:2");
    assert_eq!(c.warning, "This will permanently delete logic device 'logic:2'");
    assert_eq!((c.action.as_str(), c.target.as_str(), c.confirm_required), ("delete_logic_device", "logic:2", true));
}
