use lacis_proxy::api::{default_limit, HealthResponse, SuccessResponse};
use lacis_proxy::auth::AppError;
use lacis_proxy::config::{
    default_host, default_jwt_secret, default_local_email, default_port, default_required_fid, default_required_permission,
    default_session_hours, AuthConfig, Config,
};
use lacis_proxy::external::{mercury_credentials, new_external_device, DeviceProtocol, RegisterDeviceRequest};
use lacis_proxy::mac::{client_label, format_mac, logic_device_pseudo_mac, looks_like_mac, wg_peer_pseudo_mac};
use lacis_proxy::mercury::{data_url, login_outcome, login_url, mercury_clients, mercury_status, xor_encode_password};
use lacis_proxy::settings::{
    discord_notify_key, get_setting, health_check_settings, rate_limit_settings, setting_bool, setting_i32,
    setting_not_found,
};
use lacis_proxy::topology_api::{validate_label, TopologyV2Query};

fn rows(pairs: &[(&str, Option<&str>)]) -> Vec<(String, Option<String>)> {
    pairs.iter().map(|(k, v)| (k.to_string(), v.map(|s| s.to_string()))).collect()
}

#[test]
fn mac_display_and_recognition() {
    assert_eq!(format_mac("aabbccddeeff"), "aa:bb:cc:dd:ee:ff");
    assert_eq!(format_mac("AA-BB-CC-DD-EE-FF"), "AA:BB:CC:DD:EE:FF");
    assert_eq!(format_mac("short"), "short");
    assert!(looks_like_mac("AA:BB:CC:DD:EE:FF"));
    assert!(looks_like_mac("aabb.ccdd.eeff"));
    assert!(!looks_like_mac("my-laptop"));
    assert!(!looks_like_mac("AA:BB:CC:DD:EE"));
}

#[test]
fn pseudo_macs_for_nodes_without_one() {
    assert_eq!(wg_peer_pseudo_mac("abc"), "F0ABC0000000");
    assert_eq!(wg_peer_pseudo_mac("0123456789abcdef"), "F00123456789");
    assert_eq!(logic_device_pseudo_mac("9f1c2d3e-4b5a-6789"), "F29F1C2D3E4B");
    assert_eq!(logic_device_pseudo_mac("xyz"), "F20000000000");
}

#[test]
fn client_labels_prefer_names() {
    let mac = "AABBCCDDEEFF";
    assert_eq!(client_label(&Some("Printer".to_string()), &None, &None, mac), "Printer");
    assert_eq!(client_label(&Some("AA:BB:CC:DD:EE:FF".to_string()), &Some("nas".to_string()), &None, mac), "nas");
    assert_eq!(client_label(&Some(String::new()), &None, &Some("Apple".to_string()), mac), "Apple (DD:EE:FF)");
    assert_eq!(client_label(&None, &None, &None, mac), "AA:BB:CC:DD:EE:FF");
}

#[test]
fn stored_settings_are_read_with_defaults() {
    let r = rows(&[
        ("health_check_interval_sec", Some("30")),
        ("health_check_timeout_ms", Some("fast")),
        ("rate_limit_enabled", Some("1")),
        ("discord_notify_ddns", None),
    ]);
    assert_eq!(get_setting(&r, "health_check_interval_sec"), Some("30".to_string()));
    assert_eq!(get_setting(&r, "discord_notify_ddns"), None);
    assert_eq!(get_setting(&r, "missing"), None);
    assert_eq!(health_check_settings(&r), (30, 5000, 3));
    assert_eq!(rate_limit_settings(&r), (true, 60));
    assert!(setting_bool(&Some("true".to_string())));
    assert!(!setting_bool(&Some("yes".to_string())));
    assert!(!setting_bool(&None));
    assert_eq!(setting_i32(&Some("-12".to_string()), 5), -12);
    assert_eq!(setting_i32(&Some("+7".to_string()), 5), 7);
    assert_eq!(setting_i32(&Some("99999999999".to_string()), 5), 5);
    assert_eq!(discord_notify_key("health"), "discord_notify_health");
    assert_eq!(setting_not_found("x"), "Setting x not found");
}

#[test]
fn mercury_sessions() {
    assert_eq!(xor_encode_password("a"), "33");
    assert_eq!(xor_encode_password("ab"), "3326");
    assert_eq!(xor_encode_password(""), "");
    assert_eq!(login_url("192.168.0.254"), "http://192.168.0.254/");
    assert_eq!(data_url("10.0.0.2", "tok"), "http://10.0.0.2/stok=tok/ds");
    assert_eq!(login_outcome(&Some("s1".to_string()), Some(5)), Ok("s1".to_string()));
    assert_eq!(login_outcome(&None, Some(-40401)), Err("Mercury login error code: -40401".to_string()));
    assert_eq!(login_outcome(&None, None), Err("Mercury login: no stok in response".to_string()));
    let s = mercury_status(Some("MR70X".to_string()), None);
    assert!(s.online);
    assert_eq!(s.client_count, 0);
    let hosts = vec![
        (Some("aa-bb-cc-dd-ee-ff".to_string()), Some("10.0.0.5".to_string()), None),
        (Some(String::new()), None, None),
        (None, None, Some("ghost".to_string())),
    ];
    let c = mercury_clients(&hosts);
    assert_eq!(c.len(), 1);
    assert_eq!(c[0].mac, "AABBCCDDEEFF");
    assert_eq!(c[0].ip.as_deref(), Some("10.0.0.5"));
    assert_eq!(mercury_credentials(&None, &None), ("admin".to_string(), String::new()));
}

#[test]
fn external_devices_are_registered_offline() {
    let req = RegisterDeviceRequest {
        display_name: "AP".to_string(),
        mac: "aa:bb:cc:dd:ee:ff".to_string(),
        ip: "10.0.0.9".to_string(),
        protocol: "Mercury_AC".to_string(),
        username: None,
        password: None,
    };
    let d = new_external_device(&req, "now");
    assert_eq!(d.device_id, "AABBCCDDEEFF");
    assert_eq!(d.protocol, "mercury_ac");
    assert_eq!(d.status, "offline");
    assert_eq!(d.product_type, "103");
    assert_eq!(d.network_device_type, "AccessPoint");
    assert!(DeviceProtocol::from_str("other") == DeviceProtocol::Generic);
    assert_eq!(DeviceProtocol::Generic.product_type(), "191");
    assert!(!DeviceProtocol::Deco.polls());
}

#[test]
fn common_answers_and_defaults() {
    let h = HealthResponse::ok("2.0.0");
    assert_eq!(h.status, "ok");
    assert_eq!(h.service, "LacisProxyGateway2");
    let s = SuccessResponse::with_id("Route created", 4);
    assert_eq!(s.message, "Route created");
    assert_eq!(s.id, Some(4));
    assert_eq!(SuccessResponse::new("x").id, None);
    assert_eq!(default_limit(), 50);
    assert_eq!(TopologyV2Query::default_view(), "full");
    assert!(TopologyV2Query::default_collapsed());
}

#[test]
fn configuration_fallback() {
    assert_eq!(default_host(), "0.0.0.0");
    assert_eq!(default_port(), 8081);
    let c = Config::load(None);
    assert_eq!(c.server.port, 8081);
    assert!(c.discord.is_none());
    let a = AuthConfig::default();
    assert_eq!(a.jwt_secret, "CHANGE_ME_IN_PRODUCTION");
    assert_eq!(a.session_duration_hours, 24);
    assert_eq!(a.lacisoath_required_fid, "9966");
    assert!(!a.internet_access_enabled);
    assert_eq!(default_jwt_secret(), a.jwt_secret);
    assert_eq!(default_session_hours(), 24);
    assert_eq!(default_local_email(), a.local_email);
    assert_eq!(default_required_permission(), a.lacisoath_required_permission);
    assert_eq!(default_required_fid(), "9966");
}

#[test]
fn labels_are_trimmed_and_bounded() {
    assert!(matches!(validate_label("  Core switch "), Ok(l) if l == "Core switch"));
    for bad in ["", "   ", &"x".repeat(51)] {
        match validate_label(bad) {
            Err(AppError::BadRequest(m)) => assert_eq!(m, "Label must be 1-50 characters"),
            _ => panic!("expected a bad request"),
        }
    }
    assert!(validate_label(&"y".repeat(50)).is_ok());
}
