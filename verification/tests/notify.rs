use lacis_proxy::auth::AppError;
use lacis_proxy::models::Severity;
use lacis_proxy::notify::{
    ddns_failure_embed, health_failure_embed, health_recovery_embed, ip_blocked_embed, rate_limit_embed,
    severity_to_color, test_embed, test_notice_outcome, test_webhook, webhook_payload, DiscordEmbed,
};

fn fields(e: &DiscordEmbed) -> Vec<(String, String, bool)> {
    e.fields.iter().map(|f| (f.name.clone(), f.value.clone(), f.inline)).collect()
}

#[test]
fn severities_have_colours() {
    assert_eq!(severity_to_color(Severity::Low), 0x3498db);
    assert_eq!(severity_to_color(Severity::Medium), 0xf39c12);
    assert_eq!(severity_to_color(Severity::High), 0xe74c3c);
    assert_eq!(severity_to_color(Severity::Critical), 0x9b59b6);
}

#[test]
fn blocked_and_rate_limited_addresses() {
    let e = ip_blocked_embed("1.2.3.4", "scan", Severity::High, "t".to_string());
    assert_eq!(e.title, "IP Blocked");
    assert_eq!(e.description, "An IP address has been blocked.");
    assert_eq!(e.color, 0xe74c3c);
    assert_eq!(
        fields(&e),
        vec![
            ("IP Address".to_string(), "1.2.3.4".to_string(), true),
            ("Reason".to_string(), "scan".to_string(), true),
            ("Severity".to_string(), "High".to_string(), true),
        ]
    );
    let r = rate_limit_embed("5.6.7.8", -1, "t".to_string());
    assert_eq!(r.description, "IP 5.6.7.8 exceeded rate limit");
    assert_eq!(fields(&r)[1], ("Requests".to_string(), "-1".to_string(), true));
    assert_eq!(r.color, 0xf39c12);
}

#[test]
fn ddns_and_health_notifications() {
    let d = ddns_failure_embed("h.example", "dyndns", "badauth", "2024-01-01T00:00:00Z".to_string());
    assert_eq!(d.title, "DDNS Update Failed");
    assert_eq!(d.description, "Failed to update DDNS record for h.example");
    assert_eq!(d.timestamp, "2024-01-01T00:00:00Z");
    assert!(!d.fields[2].inline);
    let h = health_failure_embed("/app", "http://x", 5, "t".to_string());
    assert_eq!(h.description, "Route /app is experiencing issues");
    assert_eq!(h.color, 0x9b59b6);
    assert_eq!(fields(&h)[2], ("Consecutive Failures".to_string(), "5".to_string(), true));
    assert_eq!(health_failure_embed("/app", "http://x", 3, "t".to_string()).color, 0xe74c3c);
    assert_eq!(health_failure_embed("/app", "http://x", 1, "t".to_string()).color, 0xf39c12);
    let ok = health_recovery_embed("/app", "http://x", "t".to_string());
    assert_eq!(ok.title, "Health Check Recovered");
    assert_eq!(ok.description, "Route /app is now healthy");
    assert_eq!(ok.color, 0x2ecc71);
    let p = webhook_payload(ok);
    assert_eq!(p.embeds.len(), 1);
}

#[test]
fn test_notices() {
    let e = test_embed("2024-01-01T00:00:00Z".to_string());
    assert_eq!((e.title.as_str(), e.description.as_str(), e.color), ("LacisProxyGateway2 Test", "Discord notification is working!", 3066993));
    assert!(e.fields.is_empty());
    match test_webhook(None) {
        Err(AppError::BadRequest(m)) => assert_eq!(m, "Discord webhook URL not configured"),
        _ => panic!("expected a bad request"),
    }
    assert!(matches!(test_webhook(Some("https://hook".to_string())), Ok(u) if u == "https://hook"));
    assert!(matches!(test_notice_outcome(&Ok((true, "204 No Content".to_string()))), Ok(s) if s.message == "Test notification sent"));
    match test_notice_outcome(&Ok((false, "404 Not Found".to_string()))) {
        Err(AppError::InternalError(m)) => assert_eq!(m, "Discord returned status: 404 Not Found"),
        _ => panic!("expected an internal error"),
    }
    match test_notice_outcome(&Err("timed out".to_string())) {
        Err(AppError::InternalError(m)) => assert_eq!(m, "Failed to send notification: timed out"),
        _ => panic!("expected an internal error"),
    }
}
