use lacis_proxy::lacis_id::{
    compute_aranea_device_lacis_id, compute_network_device_lacis_id, default_product_code, normalize_mac_for_lacis_id,
};
use lacis_proxy::mac::{client_label, format_mac, logic_device_pseudo_mac, looks_like_mac, wg_peer_pseudo_mac};

#[test]
fn test_normalize_mac() {
    assert_eq!(normalize_mac_for_lacis_id("AA:BB:CC:DD:EE:FF"), "AABBCCDDEEFF");
    assert_eq!(normalize_mac_for_lacis_id("aa-bb-cc-dd-ee-ff"), "AABBCCDDEEFF");
    assert_eq!(normalize_mac_for_lacis_id("AABBCCDDEEFF"), "AABBCCDDEEFF");
    assert_eq!(normalize_mac_for_lacis_id("aa:bb:cc:dd:ee:ff"), "AABBCCDDEEFF");
}

#[test]
fn test_network_device_lacis_id() {
    let id = compute_network_device_lacis_id("101", "AA:BB:CC:DD:EE:FF", "0000");
    assert_eq!(id, "4101AABBCCDDEEFF0000");
    assert_eq!(id.len(), 20);
}

#[test]
fn test_aranea_device_lacis_id() {
    let id = compute_aranea_device_lacis_id("201", "11:22:33:44:55:66", "0001");
    assert_eq!(id, "3201112233445566_0001".replace("_", ""));
    let id2 = compute_aranea_device_lacis_id("201", "11:22:33:44:55:66", "0001");
    assert_eq!(id2, "32011122334455660001");
    assert_eq!(id2.len(), 20);
}

#[test]
fn test_default_product_code() {
    assert_eq!(default_product_code("Router"), "0000");
    assert_eq!(default_product_code("Switch"), "0000");
    assert_eq!(default_product_code("AccessPoint"), "0000");
    assert_eq!(default_product_code("Unknown"), "0000");
}

#[test]
fn pseudo_macs_take_ten_hex_digits_and_pad() {
    assert_eq!(wg_peer_pseudo_mac("abc-xyz"), "F0ABC0000000");
    assert_eq!(wg_peer_pseudo_mac("0123456789abcdef"), "F00123456789");
    assert_eq!(logic_device_pseudo_mac("5f1e2d3c-4b5a-6978-8796-a5b4c3d2e1f0"), "F25F1E2D3C4B");
    assert_eq!(logic_device_pseudo_mac(""), "F20000000000");
    assert!(looks_like_mac(&wg_peer_pseudo_mac("peer-7")));
    assert_ne!(wg_peer_pseudo_mac("same"), logic_device_pseudo_mac("same"));
}

#[test]
fn mac_formatting() {
    assert_eq!(format_mac("aabbccddeeff"), "aa:bb:cc:dd:ee:ff");
    assert_eq!(format_mac("AA-BB-CC-DD-EE-FF"), "AA:BB:CC:DD:EE:FF");
    assert_eq!(format_mac("short"), "short");
    assert!(looks_like_mac("AA:BB:CC:DD:EE:FF"));
    assert!(looks_like_mac("aabb.ccdd.eeff"));
    assert!(!looks_like_mac("printer"));
    let f = format_mac("aabb.ccdd.eeff");
    assert!(looks_like_mac(&f));
    assert_eq!(format_mac(&f), f);
}

#[test]
fn client_labels_prefer_names_then_vendor() {
    let mac = "AA:BB:CC:DD:EE:FF";
    assert_eq!(client_label(&Some("laptop".to_string()), &None, &None, mac), "laptop");
    assert_eq!(client_label(&Some("AA:BB:CC:DD:EE:FF".to_string()), &Some("host".to_string()), &None, mac), "host");
    assert_eq!(client_label(&None, &None, &Some("Apple".to_string()), "AABBCCDDEEFF"), "Apple (DD:EE:FF)");
    assert_eq!(client_label(&None, &None, &None, "aabbccddeeff"), "aa:bb:cc:dd:ee:ff");
}

#[test]
fn normalized_macs_stay_normalized() {
    let once = normalize_mac_for_lacis_id("a4:2b-b0.c1 d2:e3");
    assert_eq!(once, "A42BB0C1D2E3");
    assert_eq!(normalize_mac_for_lacis_id(&once), once);
    assert_eq!(compute_network_device_lacis_id("101", "a4:2b:b0:c1:d2:e3", "0000").len(), 20);
}
