use lacis_proxy::aranea::{
    build_device_cache, device_gate_request, device_state_request, get_config_summary, is_configured,
    lookup_aranea_device, AraneaConfig, AraneaDeviceRegistration, ReportedDevice,
};

fn config(tid: &str) -> AraneaConfig {
    AraneaConfig {
        tid: tid.to_string(),
        tenant_lacis_id: "12345678901234567890".to_string(),
        tenant_user_id: String::new(),
        tenant_cic: "cic".to_string(),
        device_gate_url: "https://gate".to_string(),
        device_state_url: "https://state".to_string(),
    }
}

fn reported(lid: Option<&str>, mac: Option<&str>) -> ReportedDevice {
    ReportedDevice { lacis_id: lid.map(|s| s.to_string()), mac: mac.map(|s| s.to_string()) }
}

#[test]
fn requests_need_a_configured_tenant() {
    assert!(is_configured(&config("T1")));
    assert!(!is_configured(&config("")));
    let reg = AraneaDeviceRegistration {
        mac: "AABBCCDDEEFF".to_string(),
        product_type: "201".to_string(),
        product_code: "0001".to_string(),
        device_type: "sensor".to_string(),
    };
    let q = device_gate_request(&config("T1"), &reg).ok().unwrap();
    assert_eq!(q.tid, "T1");
    assert_eq!(q.cic, "cic");
    assert_eq!(q.mac, "AABBCCDDEEFF");
    assert_eq!(
        device_gate_request(&config(""), &reg).err(),
        Some("Aranea not configured: missing tid/tenant_lacis_id/tenant_cic".to_string())
    );
    assert_eq!(device_state_request(&config("T1"), &None).ok().unwrap().mode, "list");
    let one = device_state_request(&config("T1"), &Some("3201".to_string())).ok().unwrap();
    assert_eq!(one.mode, "query");
    assert_eq!(one.target_lacis_id.as_deref(), Some("3201"));
    assert_eq!(device_state_request(&config(""), &None).err(), Some("Aranea not configured".to_string()));
}

#[test]
fn summary_hides_empty_values() {
    let s = get_config_summary(&config("T1"));
    assert!(s.configured);
    assert_eq!(s.tid.as_deref(), Some("T1"));
    assert_eq!(s.tenant_user_id, None);
    assert_eq!(s.device_gate_url, "https://gate");
}

#[test]
fn cache_keeps_aranea_devices_by_mac() {
    let devices = vec![
        reported(Some("32011122334455660001"), Some("11:22:33:44:55:66")),
        reported(Some("41011122334455660000"), Some("AA:BB:CC:DD:EE:FF")),
        reported(Some("3201"), Some("AA:BB:CC:DD:EE:01")),
        reported(Some("32019999999999990001"), Some("bad")),
        reported(None, Some("AA:BB:CC:DD:EE:02")),
        reported(Some("32017777777777770002"), Some("11-22-33-44-55-66")),
    ];
    let cache = build_device_cache(&devices);
    assert_eq!(cache.len(), 1);
    assert_eq!(cache[0].mac, "112233445566");
    assert_eq!(cache[0].lacis_id, "32017777777777770002");
    assert_eq!(lookup_aranea_device(&cache, "11:22:33:44:55:66"), Some("32017777777777770002".to_string()));
    assert_eq!(lookup_aranea_device(&cache, "aa:bb:cc:dd:ee:ff"), None);
}
