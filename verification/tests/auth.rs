use lacis_proxy::auth::{
    extract_bearer_token, extract_client_ip, extract_session_cookie, internet_access_allowed, is_private_address,
    jwt_payload_bytes, login_lacisoath_user, logout_cookie_header, require_permission, select_token,
    session_cookie_header, AppError, AuthUser, IpAddress, LacisOathPayload,
};

fn user(permission: i32, method: &str) -> AuthUser {
    AuthUser { sub: "test@example.com".to_string(), lacis_id: None, permission, auth_method: method.to_string() }
}

#[test]
fn test_require_permission_sufficient() {
    let user = user(100, "local");
    assert!(require_permission(&user, 80).is_ok());
    assert!(require_permission(&user, 100).is_ok());
}

#[test]
fn test_require_permission_insufficient() {
    let user = user(50, "lacisoath");
    assert!(require_permission(&user, 80).is_err());
    assert!(require_permission(&user, 100).is_err());
}

#[test]
fn test_require_permission_exact_boundary() {
    let user = user(80, "lacisoath");
    assert!(require_permission(&user, 80).is_ok());
    assert!(require_permission(&user, 81).is_err());
}

#[test]
fn forbidden_message_names_both_levels() {
    match require_permission(&user(-5, "local"), 80) {
        Err(AppError::Forbidden(m)) => assert_eq!(m, "Insufficient permission: -5 (required: 80)"),
        _ => panic!("expected a forbidden error"),
    }
}

#[test]
fn test_extract_session_cookie_present() {
    let headers = vec!["lpg_session=abc123; other=xyz".to_string()];
    assert_eq!(extract_session_cookie(&headers), Some("abc123".to_string()));
}

#[test]
fn test_extract_session_cookie_absent() {
    let headers = vec!["other=xyz".to_string()];
    assert_eq!(extract_session_cookie(&headers), None);
}

#[test]
fn test_extract_session_cookie_no_cookie_header() {
    let headers: Vec<String> = Vec::new();
    assert_eq!(extract_session_cookie(&headers), None);
}

#[test]
fn session_cookie_found_in_later_piece_and_header() {
    let headers = vec!["a=1".to_string(), "theme=dark;  lpg_session=tok ; x=y".to_string()];
    assert_eq!(extract_session_cookie(&headers), Some("tok".to_string()));
}

#[test]
fn test_extract_bearer_token_present() {
    let h = Some("Bearer eyJhbGciOiJIUzI1NiJ9.test".to_string());
    assert_eq!(extract_bearer_token(&h), Some("eyJhbGciOiJIUzI1NiJ9.test".to_string()));
}

#[test]
fn test_extract_bearer_token_absent() {
    assert_eq!(extract_bearer_token(&None), None);
}

#[test]
fn test_extract_bearer_token_wrong_scheme() {
    let h = Some("Basic dXNlcjpwYXNz".to_string());
    assert_eq!(extract_bearer_token(&h), None);
}

#[test]
fn bearer_token_wins_over_cookie() {
    assert_eq!(select_token(Some("a".to_string()), Some("b".to_string())), Some("a".to_string()));
    assert_eq!(select_token(None, Some("b".to_string())), Some("b".to_string()));
    assert_eq!(select_token(None, None), None);
}

#[test]
fn client_ip_prefers_forwarded_then_real_ip() {
    assert_eq!(extract_client_ip(&Some(" 203.0.113.9 , 10.0.0.1".to_string()), &Some("1.1.1.1".to_string()), "9.9.9.9"), "203.0.113.9");
    assert_eq!(extract_client_ip(&None, &Some("1.1.1.1".to_string()), "9.9.9.9"), "1.1.1.1");
    assert_eq!(extract_client_ip(&None, &None, "9.9.9.9"), "9.9.9.9");
}

#[test]
fn private_addresses() {
    assert!(is_private_address(&IpAddress::V4(192, 168, 1, 1)));
    assert!(is_private_address(&IpAddress::V4(10, 255, 255, 255)));
    assert!(is_private_address(&IpAddress::V4(172, 16, 0, 1)));
    assert!(is_private_address(&IpAddress::V4(172, 31, 255, 255)));
    assert!(is_private_address(&IpAddress::V4(127, 0, 0, 1)));
    assert!(!is_private_address(&IpAddress::V4(0, 0, 0, 0)));
    assert!(is_private_address(&IpAddress::V6([0, 0, 0, 0, 0, 0, 0, 1])));
    assert!(!is_private_address(&IpAddress::V4(8, 8, 8, 8)));
    assert!(!is_private_address(&IpAddress::V4(172, 32, 0, 1)));
    assert!(!is_private_address(&IpAddress::V4(11, 0, 0, 1)));
    assert!(!is_private_address(&IpAddress::V6([0, 0, 0, 0, 0, 0, 0, 2])));
}

#[test]
fn internet_access_rule() {
    assert!(internet_access_allowed(true, Some(false), false));
    assert!(!internet_access_allowed(false, Some(false), true));
    assert!(internet_access_allowed(false, None, true));
    assert!(!internet_access_allowed(false, None, false));
}

#[test]
fn jwt_payload_needs_three_parts() {
    match jwt_payload_bytes("abc.def") {
        Err(AppError::BadRequest(m)) => assert_eq!(m, "Invalid JWT format"),
        _ => panic!("expected a bad request"),
    }
    // {"a":1} in URL-safe base64 without padding
    assert_eq!(jwt_payload_bytes("x.eyJhIjoxfQ.y").ok(), Some(b"{\"a\":1}".to_vec()));
    match jwt_payload_bytes("x.!!!.y") {
        Err(AppError::BadRequest(m)) => assert!(m.starts_with("Invalid JWT payload encoding: ")),
        _ => panic!("expected a bad request"),
    }
}

fn payload(permission: Option<i32>, fid: Option<Vec<&str>>, exp: Option<u64>) -> LacisOathPayload {
    LacisOathPayload {
        lacis_id: Some("30001234".to_string()),
        permission,
        fid: fid.map(|v| v.into_iter().map(|s| s.to_string()).collect()),
        exp,
    }
}

#[test]
fn lacisoath_login_rules() {
    let ok = login_lacisoath_user(&payload(Some(80), Some(vec!["9966"]), Some(2000)), 1000, 50, "9966");
    match ok {
        Ok(u) => {
            assert_eq!(u.sub, "30001234");
            assert_eq!(u.lacis_id, Some("30001234".to_string()));
            assert_eq!(u.permission, 80);
            assert_eq!(u.auth_method, "lacisoath");
        },
        _ => panic!("expected a login"),
    }
    assert!(login_lacisoath_user(&payload(Some(80), Some(vec!["0000"]), None), 1000, 50, "9966").is_ok());
    match login_lacisoath_user(&payload(Some(80), Some(vec!["9966"]), Some(10)), 1000, 50, "9966") {
        Err(AppError::BadRequest(m)) => assert_eq!(m, "Token has expired"),
        _ => panic!("expected an expired token"),
    }
    match login_lacisoath_user(&payload(None, Some(vec!["9966"]), None), 1000, 50, "9966") {
        Err(AppError::BadRequest(m)) => assert_eq!(m, "Insufficient permission: 0 (required: 50)"),
        _ => panic!("expected a permission error"),
    }
    match login_lacisoath_user(&payload(Some(90), Some(vec!["1234"]), None), 1000, 50, "9966") {
        Err(AppError::BadRequest(m)) => assert_eq!(m, "Access not authorized for this facility"),
        _ => panic!("expected a facility error"),
    }
}

#[test]
fn session_cookies() {
    assert_eq!(
        session_cookie_header("tok", 24),
        "lpg_session=tok; Path=/LacisProxyGateway2; HttpOnly; SameSite=Lax; Max-Age=86400"
    );
    assert_eq!(logout_cookie_header(), "lpg_session=; Path=/LacisProxyGateway2; HttpOnly; SameSite=Lax; Max-Age=0");
}
