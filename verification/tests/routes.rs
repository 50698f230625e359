use lacis_proxy::auth::{AppError, IpAddress};
use lacis_proxy::docs::{OmadaControllerDoc, OmadaDeviceDoc, OmadaSiteMapping};
use lacis_proxy::models::{CreateRouteRequest, ProxyRoute, UpdateRouteRequest};
use lacis_proxy::routes::{
    apply_route_update, extract_ip_from_url, in_subnet24, route_audit_value, route_changes, route_created_message, route_delete_confirmation,
    route_deleted_message, route_gateway, route_not_found, route_target_host, route_update_message, site_tenant,
    validate_create_route, validate_update_route,
};

fn route() -> ProxyRoute {
    ProxyRoute {
        id: 5,
        path: "/app".to_string(),
        target: "http://192.168.3.20:8080".to_string(),
        ddns_config_id: None,
        priority: 100,
        active: true,
        strip_prefix: true,
        preserve_host: false,
        timeout_ms: 30000,
        websocket_support: false,
        created_at: 1,
        updated_at: 2,
    }
}

fn no_update() -> UpdateRouteRequest {
    UpdateRouteRequest {
        path: None,
        target: None,
        ddns_config_id: None,
        priority: None,
        active: None,
        strip_prefix: None,
        preserve_host: None,
        timeout_ms: None,
        websocket_support: None,
    }
}

fn create(path: &str, target: &str) -> CreateRouteRequest {
    CreateRouteRequest {
        path: path.to_string(),
        target: target.to_string(),
        ddns_config_id: None,
        priority: 100,
        active: true,
        strip_prefix: true,
        preserve_host: false,
        timeout_ms: 30000,
        websocket_support: false,
    }
}

fn bad_request(r: Result<(), AppError>) -> String {
    match r {
        Err(AppError::BadRequest(m)) => m,
        _ => panic!("expected a bad request"),
    }
}

fn device(device_type: &str, ip: Option<&str>, controller: &str, site: &str) -> OmadaDeviceDoc {
    OmadaDeviceDoc {
        mac: "AA-BB-CC-DD-EE-FF".to_string(),
        controller_id: controller.to_string(),
        site_id: site.to_string(),
        name: "dev".to_string(),
        device_type: device_type.to_string(),
        model: None,
        ip: ip.map(|s| s.to_string()),
        status: 1,
        firmware_version: None,
        lacis_id: None,
        product_type: "101".to_string(),
        network_device_type: "Router".to_string(),
        synced_at: String::new(),
        created_at: String::new(),
        updated_at: String::new(),
    }
}

#[test]
fn new_routes_need_a_path_and_an_http_target() {
    assert!(validate_create_route(&create("/a", "http://x")).is_ok());
    assert!(validate_create_route(&create("/a", "https://x")).is_ok());
    assert_eq!(bad_request(validate_create_route(&create("a", "http://x"))), "Path must start with /");
    assert_eq!(bad_request(validate_create_route(&create("", "ftp://x"))), "Path must start with /");
    assert_eq!(bad_request(validate_create_route(&create("/a", "ftp://x"))), "Target must be a valid HTTP(S) URL");
}

#[test]
fn updates_are_checked_on_what_they_set() {
    assert!(validate_update_route(&no_update()).is_ok());
    let mut u = no_update();
    u.target = Some("tcp://x".to_string());
    assert_eq!(bad_request(validate_update_route(&u)), "Target must be a valid HTTP(S) URL");
    u.path = Some("x".to_string());
    assert_eq!(bad_request(validate_update_route(&u)), "Path must start with /");
}

#[test]
fn changes_are_listed_and_announced() {
    let old = route();
    let mut u = no_update();
    u.path = Some("/app".to_string());
    u.target = Some("http://10.0.0.2".to_string());
    u.active = Some(false);
    u.websocket_support = Some(true);
    u.priority = Some(1);
    let changes = route_changes(&old, &u);
    let fields: Vec<&str> = changes.iter().map(|c| c.field.as_str()).collect();
    assert_eq!(fields, vec!["target", "active", "websocket_support"]);
    assert_eq!(changes[1].old_value, "true");
    assert_eq!(changes[1].new_value, "false");
    let m = route_update_message(&old.path, old.id, &changes).unwrap();
    assert_eq!(
        m,
        "Route `/app` (ID: 5) modified:\ntarget: `http://192.168.3.20:8080` → `http://10.0.0.2`\nactive: `true` → `false`\nwebsocket_support: `false` → `true`"
    );
    assert_eq!(route_update_message("/app", 5, &Vec::new()), None);
}

#[test]
fn stored_updates_keep_websocket_support() {
    let old = route();
    let mut u = no_update();
    u.timeout_ms = Some(5000);
    u.websocket_support = Some(true);
    u.ddns_config_id = Some(Some(3));
    let n = apply_route_update(&old, &u);
    assert_eq!(n.timeout_ms, 5000);
    assert_eq!(n.ddns_config_id, Some(3));
    assert!(!n.websocket_support);
    assert_eq!(n.path, "/app");
    let again = apply_route_update(&n, &u);
    assert_eq!(again.timeout_ms, n.timeout_ms);
    assert_eq!(again.ddns_config_id, n.ddns_config_id);
}

#[test]
fn route_messages() {
    assert_eq!(route_audit_value("/a", "http://b"), "/a -> http://b");
    assert_eq!(route_created_message("/a", "http://b"), "New route added: `/a` → `http://b`");
    assert_eq!(route_deleted_message("/a", "http://b"), "Route removed: `/a` → `http://b`");
    let c = route_delete_confirmation(5, &Some(route()));
    assert_eq!(c.action, "delete_route");
    assert_eq!(c.target, "route #5 (/app → http://192.168.3.20:8080)");
    assert_eq!(route_delete_confirmation(6, &None).target, "route #6");
    match route_not_found(9) {
        AppError::NotFound(m) => assert_eq!(m, "Route 9 not found"),
        _ => panic!("expected not found"),
    }
}

#[test]
fn target_host_comes_from_the_url() {
    assert_eq!(route_target_host("http://192.168.3.20:8080/x"), Some("192.168.3.20".to_string()));
    assert_eq!(route_target_host("https://Example.COM/"), Some("example.com".to_string()));
    assert_eq!(route_target_host("not a url"), None);
}

#[test]
fn subnets_of_24_bits() {
    assert!(in_subnet24(&IpAddress::V4(192, 168, 3, 1), &IpAddress::V4(192, 168, 3, 200)));
    assert!(!in_subnet24(&IpAddress::V4(192, 168, 3, 1), &IpAddress::V4(192, 168, 4, 1)));
    assert!(!in_subnet24(&IpAddress::V4(10, 0, 0, 1), &IpAddress::V6([0, 0, 0, 0, 0, 0, 0, 1])));
    assert!(in_subnet24(&IpAddress::V6([0x2001, 0x0db8, 1, 0, 0, 0, 0, 1]), &IpAddress::V6([0x2001, 0x0d00, 0, 0, 0, 0, 0, 9])));
    assert!(!in_subnet24(&IpAddress::V6([0x2001, 0x0db8, 0, 0, 0, 0, 0, 1]), &IpAddress::V6([0x2001, 0x0e00, 0, 0, 0, 0, 0, 1])));
}

#[test]
fn the_first_gateway_holding_the_target_is_found() {
    let devices = vec![
        device("switch", Some("192.168.3.2"), "c1", "s1"),
        device("gateway", Some("10.0.0.1"), "c1", "s1"),
        device("gateway", Some("192.168.3.1"), "c1", "s2"),
        device("gateway", Some("192.168.3.254"), "c2", "s3"),
    ];
    let ips = vec![
        Some(IpAddress::V4(192, 168, 3, 2)),
        Some(IpAddress::V4(10, 0, 0, 1)),
        Some(IpAddress::V4(192, 168, 3, 1)),
        Some(IpAddress::V4(192, 168, 3, 254)),
    ];
    assert_eq!(route_gateway(&Some(IpAddress::V4(192, 168, 3, 20)), &devices, &ips), Some(2));
    assert_eq!(route_gateway(&Some(IpAddress::V4(172, 16, 0, 1)), &devices, &ips), None);
    assert_eq!(route_gateway(&None, &devices, &ips), None);
}

#[test]
fn sites_give_facility_and_tenant() {
    let site = OmadaSiteMapping {
        site_id: "s2".to_string(),
        name: "Second".to_string(),
        region: None,
        fid: Some("9000".to_string()),
        tid: Some("T1".to_string()),
        fid_display_name: None,
    };
    let ctrl = OmadaControllerDoc {
        controller_id: "c1".to_string(),
        display_name: "Office".to_string(),
        base_url: String::new(),
        client_id: String::new(),
        client_secret: String::new(),
        omadac_id: String::new(),
        controller_ver: String::new(),
        api_ver: String::new(),
        status: String::new(),
        last_error: None,
        sites: vec![site],
        last_synced_at: None,
        created_at: String::new(),
        updated_at: String::new(),
    };
    let ctrls = vec![ctrl];
    assert_eq!(site_tenant(&ctrls, "c1", "s2"), (Some("9000".to_string()), Some("T1".to_string())));
    assert_eq!(site_tenant(&ctrls, "c1", "s9"), (None, None));
    assert_eq!(site_tenant(&ctrls, "c2", "s2"), (None, None));
}

#[test]
fn addresses_are_read_from_targets() {
    assert_eq!(extract_ip_from_url("http://192.168.3.10:8080/app"), "192.168.3.10");
    assert_eq!(extract_ip_from_url("https://example.com/x"), "example.com");
    assert_eq!(extract_ip_from_url("10.0.0.5:3000/path"), "10.0.0.5");
    assert_eq!(extract_ip_from_url("plainhost"), "plainhost");
}
