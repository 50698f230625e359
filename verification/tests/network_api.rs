use lacis_proxy::network_api::{
    controller_delete_confirmation, done_message, legacy_config_answer, legacy_devices_answer,
    router_delete_confirmation, ssh_port, LegacyConfig, LegacyDevices,
};

#[test]
fn ssh_port_defaults_to_22() {
    assert_eq!(ssh_port(None), 22);
    assert_eq!(ssh_port(Some(2222)), 2222);
}

#[test]
fn management_messages() {
    assert_eq!(done_message("Controller", "c1", "synced"), "Controller c1 synced");
    assert_eq!(done_message("Router", "r1", "polled"), "Router r1 polled");
    let c = controller_delete_confirmation("c1", &Some("Office".to_string()));
    assert_eq!(c.action, "delete_controller");
    assert_eq!(c.target, "Omada controller 'Office' (c1)");
    assert_eq!(c.warning, "This will remove the Omada controller and all synced device/client data.");
    assert_eq!(controller_delete_confirmation("c1", &None).target, "Omada controller c1");
    let r = router_delete_confirmation("r1");
    assert_eq!(r.action, "delete_router");
    assert_eq!(r.target, "OpenWrt router r1");
}

#[test]
fn legacy_connection_test_answers() {
    assert!(legacy_config_answer(&LegacyConfig::Configured).is_none());
    assert_eq!(legacy_config_answer(&LegacyConfig::NotConfigured), Some((false, "Omada not configured".to_string())));
    assert_eq!(
        legacy_config_answer(&LegacyConfig::LoadFailed("db down".to_string())),
        Some((false, "Config load failed: db down".to_string()))
    );
    assert_eq!(legacy_devices_answer(&LegacyDevices::Listed(12)), (true, "Connected! Found 12 devices".to_string()));
    assert_eq!(
        legacy_devices_answer(&LegacyDevices::Failed("401".to_string())),
        (false, "Connection failed: 401".to_string())
    );
}
