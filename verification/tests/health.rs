use lacis_proxy::health::{
    health_check_record, is_healthy_status, probe_outcome, request_error_text, route_check_status, FailureTracker,
    HealthAction,
};

#[test]
fn failures_notify_once_at_the_threshold_and_recover() {
    let mut t = FailureTracker::new();
    assert!(matches!(t.record(1, false, 3), HealthAction::Nothing));
    assert!(matches!(t.record(1, false, 3), HealthAction::Nothing));
    assert!(matches!(t.record(1, false, 3), HealthAction::NotifyFailure { count: 3 }));
    assert!(matches!(t.record(1, false, 3), HealthAction::Nothing));
    assert_eq!(t.failure_count(1), 4);
    assert_eq!(t.failure_count(2), 0);
    assert!(matches!(t.record(1, true, 3), HealthAction::NotifyRecovery));
    assert_eq!(t.failure_count(1), 0);
    assert!(matches!(t.record(1, true, 3), HealthAction::Nothing));
}

#[test]
fn a_short_failing_run_recovers_silently() {
    let mut t = FailureTracker::new();
    assert!(matches!(t.record(7, false, 3), HealthAction::Nothing));
    assert!(matches!(t.record(7, true, 3), HealthAction::Nothing));
    assert_eq!(t.failure_count(7), 0);
}

#[test]
fn probe_outcomes() {
    assert!(is_healthy_status(200));
    assert!(is_healthy_status(301));
    assert!(!is_healthy_status(404));
    assert!(!is_healthy_status(199));
    assert_eq!(probe_outcome(204, 15), Ok(15));
    assert_eq!(probe_outcome(503, 15), Err("503".to_string()));
    assert_eq!(request_error_text(true, true, "x".to_string()), "timeout");
    assert_eq!(request_error_text(false, true, "x".to_string()), "connection_failed");
    assert_eq!(request_error_text(false, false, "dns".to_string()), "dns");
}

#[test]
fn check_records() {
    let ok = health_check_record(10, 2, "http://a", &Ok(42));
    assert!(ok.healthy);
    assert_eq!(ok.response_time_ms, Some(42));
    assert_eq!(ok.status_code, None);
    assert_eq!(ok.error, None);
    let bad = health_check_record(10, 2, "http://a", &Err("502".to_string()));
    assert!(!bad.healthy);
    assert_eq!(bad.status_code, Some(502));
    assert_eq!(bad.error.as_deref(), Some("502"));
    let down = health_check_record(10, 2, "http://a", &Err("timeout".to_string()));
    assert_eq!(down.status_code, None);
    assert_eq!(down.target, "http://a");
}

#[test]
fn route_status_comes_from_its_first_check() {
    let checks = vec![
        health_check_record(30, 1, "http://a", &Ok(12)),
        health_check_record(20, 2, "http://b", &Err("503".to_string())),
        health_check_record(10, 2, "http://b", &Ok(5)),
    ];
    let s = route_check_status(2, &checks);
    assert!(!s.healthy);
    assert_eq!((s.last_check, s.response_time_ms, s.last_status_code), (Some(20), None, Some(503)));
    let s = route_check_status(1, &checks);
    assert!(s.healthy);
    assert_eq!((s.last_check, s.response_time_ms), (Some(30), Some(12)));
    let s = route_check_status(9, &checks);
    assert!(s.healthy);
    assert_eq!((s.last_check, s.response_time_ms, s.last_status_code), (None, None, None));
}
