use lacis_proxy::models::{
    default_priority, default_search_limit, default_timeout, default_true, default_update_interval, health_failure_severity, mask_option,
    DdnsConfig, DdnsConfigRow, DdnsProvider, DdnsStatus, SecurityEventType, Severity,
};

fn row(provider: &str, status: &str) -> DdnsConfigRow {
    DdnsConfigRow {
        id: 3,
        provider: provider.to_string(),
        hostname: "h.example".to_string(),
        username: Some("u".to_string()),
        password: Some("secret".to_string()),
        api_token: Some("token".to_string()),
        zone_id: None,
        update_interval_sec: 300,
        last_ip: None,
        last_update: Some(5),
        last_error: None,
        status: status.to_string(),
        omada_controller_id: None,
        omada_site_id: None,
        created_at: 1,
        updated_at: 2,
    }
}

#[test]
fn providers_read_in_any_case() {
    assert!(DdnsProvider::parse("DynDNS") == Ok(DdnsProvider::DynDns));
    assert!(DdnsProvider::parse("noip") == Ok(DdnsProvider::NoIp));
    assert!(DdnsProvider::parse("CLOUDFLARE") == Ok(DdnsProvider::Cloudflare));
    assert!(DdnsProvider::parse("route53") == Err("Unknown provider: route53".to_string()));
    let p: DdnsProvider = "Noip".parse().unwrap();
    assert!(p == DdnsProvider::NoIp);
    assert_eq!(DdnsProvider::DynDns.to_string(), "dyndns");
    assert_eq!(DdnsProvider::Cloudflare.to_string(), "cloudflare");
}

#[test]
fn statuses_read_in_any_case() {
    assert!(DdnsStatus::parse("Active") == Ok(DdnsStatus::Active));
    assert!(DdnsStatus::parse("ERROR") == Ok(DdnsStatus::Error));
    assert!(DdnsStatus::parse("disabled") == Ok(DdnsStatus::Disabled));
    assert!(DdnsStatus::parse("paused") == Err("Unknown status: paused".to_string()));
    assert_eq!(DdnsStatus::Disabled.to_string(), "disabled");
}

#[test]
fn stored_rows_become_configurations() {
    let c = DdnsConfig::from_row(row("cloudflare", "error")).ok().unwrap();
    assert!(c.provider == DdnsProvider::Cloudflare);
    assert!(c.status == DdnsStatus::Error);
    assert_eq!(c.last_update, Some(5));
    assert_eq!(DdnsConfig::from_row(row("x", "y")).err(), Some("Unknown provider: x".to_string()));
    assert_eq!(DdnsConfig::from_row(row("noip", "y")).err(), Some("Unknown status: y".to_string()));
}

#[test]
fn secrets_are_masked_for_readers() {
    let c = DdnsConfig::from_row(row("dyndns", "active")).ok().unwrap().masked();
    assert_eq!(c.password.as_deref(), Some("********"));
    assert_eq!(c.api_token.as_deref(), Some("********"));
    assert_eq!(c.username.as_deref(), Some("u"));
    assert_eq!(c.zone_id, None);
    assert_eq!(mask_option(&None), None);
}

#[test]
fn defaults_of_requests() {
    assert_eq!(default_priority(), 100);
    assert!(default_true());
    assert_eq!(default_timeout(), 30000);
    assert_eq!(default_update_interval(), 300);
    assert_eq!(default_search_limit(), 50);
}

#[test]
fn failure_severity_grows_with_the_run() {
    assert!(health_failure_severity(1) == Severity::Medium);
    assert!(health_failure_severity(2) == Severity::Medium);
    assert!(health_failure_severity(3) == Severity::High);
    assert!(health_failure_severity(4) == Severity::High);
    assert!(health_failure_severity(5) == Severity::Critical);
    assert!(health_failure_severity(50) == Severity::Critical);
    assert_eq!(Severity::Critical.as_str(), "critical");
    assert_eq!(SecurityEventType::HealthCheckFailure.as_str(), "health_check_failure");
    assert_eq!(SecurityEventType::IpBlocked.as_str(), "ip_blocked");
}
