use lacis_proxy::auth::AppError;
use lacis_proxy::nginx::{save_template_settings, template_settings_from_stored, UpdateNginxTemplateSettingsRequest};
use lacis_proxy::settings::set_setting;

fn empty_update() -> UpdateNginxTemplateSettingsRequest {
    UpdateNginxTemplateSettingsRequest {
        server_name: None,
        backend_port: None,
        gzip_enabled: None,
        gzip_comp_level: None,
        gzip_min_length: None,
        proxy_connect_timeout: None,
        proxy_send_timeout: None,
        proxy_read_timeout: None,
        header_x_frame_options: None,
        header_x_content_type: None,
        header_xss_protection: None,
        header_hsts: None,
        header_referrer_policy: None,
        header_permissions_policy: None,
        header_csp: None,
    }
}

fn seeded() -> Vec<(String, Option<String>)> {
    [
        "nginx_server_name",
        "nginx_backend_port",
        "nginx_gzip_enabled",
        "nginx_gzip_comp_level",
        "nginx_gzip_min_length",
        "nginx_proxy_connect_timeout",
        "nginx_proxy_send_timeout",
        "nginx_proxy_read_timeout",
        "nginx_header_csp",
    ]
    .iter()
    .map(|k| (k.to_string(), None))
    .collect()
}

#[test]
fn saved_template_settings_are_read_back() {
    let mut rows = seeded();
    let mut u = empty_update();
    u.server_name = Some("gw.example.com".to_string());
    u.backend_port = Some(9000);
    u.gzip_enabled = Some(true);
    u.gzip_comp_level = Some(4);
    u.gzip_min_length = Some(2048);
    u.proxy_read_timeout = Some(120);
    u.header_csp = Some("default-src 'none'".to_string());
    assert!(save_template_settings(&mut rows, &u).is_ok());
    let s = template_settings_from_stored(&rows);
    assert_eq!(s.server_name, "gw.example.com");
    assert_eq!(s.backend_port, 9000);
    assert!(s.gzip_enabled);
    assert_eq!(s.gzip_comp_level, 4);
    assert_eq!(s.gzip_min_length, 2048);
    assert_eq!(s.proxy_read_timeout, 120);
    assert_eq!(s.proxy_connect_timeout, 60);
    assert_eq!(s.header_csp, "default-src 'none'");
    assert_eq!(s.header_x_frame_options, "SAMEORIGIN");
}

#[test]
fn invalid_template_changes_store_nothing() {
    let mut rows = seeded();
    let mut u = empty_update();
    u.server_name = Some("x".to_string());
    u.gzip_comp_level = Some(10);
    match save_template_settings(&mut rows, &u) {
        Err(AppError::BadRequest(m)) => assert_eq!(m, "gzip_comp_level must be 1-9"),
        _ => panic!("expected a bad request"),
    }
    assert_eq!(template_settings_from_stored(&rows).server_name, "_");
}

#[test]
fn settings_without_a_row_are_not_stored() {
    let mut rows = vec![("a".to_string(), Some("1".to_string()))];
    assert!(!set_setting(&mut rows, "b", Some("2".to_string())));
    assert_eq!(rows.len(), 1);
    assert!(set_setting(&mut rows, "a", None));
    assert_eq!(rows[0].1, None);
    let mut u = empty_update();
    u.header_hsts = Some("max-age=1".to_string());
    let mut only_some = seeded();
    assert!(save_template_settings(&mut only_some, &u).is_ok());
    assert_eq!(template_settings_from_stored(&only_some).header_hsts, "max-age=31536000; includeSubDomains");
}

#[test]
fn a_huge_minimum_length_reads_back_as_the_default() {
    let mut rows = seeded();
    let mut u = empty_update();
    u.gzip_min_length = Some(3_000_000_000);
    assert!(save_template_settings(&mut rows, &u).is_ok());
    assert_eq!(template_settings_from_stored(&rows).gzip_min_length, 1024);
}

#[test]
fn missing_rows_read_as_the_defaults() {
    let s = template_settings_from_stored(&Vec::new());
    assert!(s.gzip_enabled);
    assert_eq!((s.server_name.as_str(), s.backend_port, s.gzip_comp_level, s.gzip_min_length), ("_", 8081, 6, 1024));
    let off = template_settings_from_stored(&vec![("nginx_gzip_enabled".to_string(), Some("false".to_string()))]);
    assert!(!off.gzip_enabled);
}
