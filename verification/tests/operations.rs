use lacis_proxy::auth::{AppError, AuthUser};
use lacis_proxy::docs::OperationLogQuery;
use lacis_proxy::operation_log::{
    complete_operation_log, fail_operation_log, operation_log_page, start_operation_log,
    start_operation_log_with_operator, update_operation_log,
};
use lacis_proxy::security::{block_reason, blocked_ip_not_found, check_not_blocked, unblock_confirmation, validate_block_ip};
use lacis_proxy::tools::{lookup_target, operator_from, ping_args, tally, validate_ping_host};

#[test]
fn block_requests_are_checked() {
    match validate_block_ip("") {
        Err(AppError::BadRequest(m)) => assert_eq!(m, "IP address is required"),
        _ => panic!("expected a bad request"),
    }
    assert!(validate_block_ip("203.0.113.9").is_ok());
    match check_not_blocked("203.0.113.9", true) {
        Err(AppError::BadRequest(m)) => assert_eq!(m, "IP 203.0.113.9 is already blocked"),
        _ => panic!("expected a bad request"),
    }
    assert!(check_not_blocked("203.0.113.9", false).is_ok());
    assert_eq!(block_reason(&None), "Manual block");
    assert_eq!(block_reason(&Some("scanner".to_string())), "scanner");
}

#[test]
fn unblocking_is_confirmed_first() {
    let c = unblock_confirmation(3, &Some("1.2.3.4".to_string()));
    assert_eq!(c.action, "unblock_ip");
    assert_eq!(c.target, "blocked IP #3 (1.2.3.4)");
    assert_eq!(c.warning, "This will unblock the IP address, allowing it to access the system again.");
    assert_eq!(unblock_confirmation(3, &None).target, "blocked IP #3");
    match blocked_ip_not_found(3) {
        AppError::NotFound(m) => assert_eq!(m, "Blocked IP 3 not found"),
        _ => panic!("expected not found"),
    }
}

#[test]
fn ping_hosts_without_shell_characters() {
    assert!(validate_ping_host("192.168.1.1").is_ok());
    assert!(validate_ping_host("example.com").is_ok());
    for bad in ["a;rm", "a|b", "a&b", "$(x)", "`x`", "a\nb"] {
        match validate_ping_host(bad) {
            Err(AppError::BadRequest(m)) => assert_eq!(m, "Invalid hostname"),
            _ => panic!("expected a bad request for {bad:?}"),
        }
    }
    assert_eq!(ping_args("h"), vec!["-c", "3", "-W", "5", "h"]);
    assert_eq!(lookup_target("example.com"), "example.com:0");
}

#[test]
fn batches_are_tallied() {
    assert_eq!(tally(&vec![true, false, true, true]), (3, 1));
    assert_eq!(tally(&Vec::new()), (0, 0));
}

#[test]
fn operators_are_recorded() {
    let u = AuthUser { sub: "a@b".to_string(), lacis_id: None, permission: 80, auth_method: "local".to_string() };
    let o = operator_from(&u);
    assert_eq!(o.sub, "a@b");
    assert_eq!(o.auth_method, "local");
    assert_eq!(o.permission, 80);
}

#[test]
fn operation_logs_run_until_they_end() {
    let mut d = start_operation_log("op1".to_string(), "sync_omada", "api", &Some("c1".to_string()), "t0".to_string());
    assert_eq!(d.status, "running");
    assert!(d.operator.is_none());
    update_operation_log(&mut d, complete_operation_log(None, 120));
    assert_eq!(d.status, "success");
    assert_eq!(d.duration_ms, Some(120));
    assert_eq!(d.target.as_deref(), Some("c1"));
    let u = AuthUser { sub: "a@b".to_string(), lacis_id: None, permission: 80, auth_method: "local".to_string() };
    let mut e = start_operation_log_with_operator("op2".to_string(), "ping", "api", &None, Some(operator_from(&u)), "t1".to_string());
    update_operation_log(&mut e, fail_operation_log("unreachable", 7));
    assert_eq!(e.status, "error");
    assert_eq!(e.error.as_deref(), Some("unreachable"));
    assert_eq!(e.duration_ms, Some(7));
    assert_eq!(e.operator.unwrap().sub, "a@b");
}

#[test]
fn operation_log_pages() {
    let q = OperationLogQuery { operation_type: None, status: None, from: None, to: None, limit: None, offset: None };
    assert_eq!(operation_log_page(&q), (100, 0));
    let q2 = OperationLogQuery { operation_type: None, status: None, from: None, to: None, limit: Some(5), offset: Some(10) };
    assert_eq!(operation_log_page(&q2), (5, 10));
}
