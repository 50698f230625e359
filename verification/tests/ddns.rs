use lacis_proxy::ddns::{
    apply_ddns_update, basic_credentials, bearer_header, cloudflare_credentials, cloudflare_error, cloudflare_record,
    cloudflare_record_url, cloudflare_records_url, cloudflare_update_outcome, configs_to_update, ddns_config_not_found,
    dyndns_update_url, dyndns_verdict, is_valid_ip, needs_update, noip_update_url, noip_verdict, provider_display_name,
    public_ip_services, public_ip_step, record_ddns_error, record_ddns_ip, record_id_from_listing, user_agent,
    PublicIpStep,
};
use lacis_proxy::ddns_api::{
    check_link_controller, ddns_delete_confirmation, ddns_not_found, ddns_update_failed, ip_mismatch,
    linked_controller_name, omada_client_not_found, port_forward_controller, validate_create_ddns,
};
use lacis_proxy::auth::AppError;
use lacis_proxy::docs::OmadaControllerDoc;
use lacis_proxy::models::{CreateDdnsRequest, DdnsConfig, DdnsProvider, DdnsStatus, UpdateDdnsRequest};

fn config(provider: DdnsProvider, last_ip: Option<&str>) -> DdnsConfig {
    DdnsConfig {
        id: 7,
        provider,
        hostname: "home.example.net".to_string(),
        username: Some("user".to_string()),
        password: Some("pw".to_string()),
        api_token: None,
        zone_id: None,
        update_interval_sec: 300,
        last_ip: last_ip.map(|s| s.to_string()),
        last_update: None,
        last_error: None,
        status: DdnsStatus::Active,
        omada_controller_id: None,
        omada_site_id: None,
        created_at: 1,
        updated_at: 2,
    }
}

fn controller(id: &str, name: &str) -> OmadaControllerDoc {
    OmadaControllerDoc {
        controller_id: id.to_string(),
        display_name: name.to_string(),
        base_url: String::new(),
        client_id: String::new(),
        client_secret: String::new(),
        omadac_id: String::new(),
        controller_ver: String::new(),
        api_ver: String::new(),
        status: "connected".to_string(),
        last_error: None,
        sites: Vec::new(),
        last_synced_at: None,
        created_at: String::new(),
        updated_at: String::new(),
    }
}

#[test]
fn valid_ip_accepts_dotted_quads_and_colons() {
    assert!(is_valid_ip("203.0.113.7"));
    assert!(is_valid_ip("0.0.0.0"));
    assert!(is_valid_ip("2001:db8::1"));
    assert!(!is_valid_ip("256.1.1.1"));
    assert!(!is_valid_ip("1.2.3"));
    assert!(!is_valid_ip("a.b.c.d"));
    assert!(!is_valid_ip("<html>"));
    assert!(!is_valid_ip(""));
}

#[test]
fn public_ip_search_asks_each_service_then_gives_up() {
    let services = public_ip_services();
    assert_eq!(services, vec!["https://api.ipify.org", "https://ifconfig.me/ip", "https://icanhazip.com"]);
    match public_ip_step(0, &None) {
        PublicIpStep::Ask(u) => assert_eq!(u, "https://api.ipify.org"),
        _ => panic!("expected the first service"),
    }
    match public_ip_step(1, &Some("not an address".to_string())) {
        PublicIpStep::Ask(u) => assert_eq!(u, "https://ifconfig.me/ip"),
        _ => panic!("expected the second service"),
    }
    match public_ip_step(2, &Some(" 198.51.100.4\n".to_string())) {
        PublicIpStep::Found(ip) => assert_eq!(ip, "198.51.100.4"),
        _ => panic!("expected the address"),
    }
    match public_ip_step(3, &None) {
        PublicIpStep::GaveUp(e) => assert_eq!(e, "Failed to get public IP from all services"),
        _ => panic!("expected to give up"),
    }
}

#[test]
fn dyndns_answers_are_read_by_their_first_word() {
    assert!(dyndns_verdict("good 1.2.3.4").is_ok());
    assert!(dyndns_verdict("nochg 1.2.3.4").is_ok());
    assert_eq!(dyndns_verdict("badauth"), Err("Bad authentication credentials".to_string()));
    assert_eq!(dyndns_verdict("notfqdn"), Err("Hostname is not a fully qualified domain name".to_string()));
    assert_eq!(dyndns_verdict("nohost"), Err("Hostname does not exist in your account".to_string()));
    assert_eq!(dyndns_verdict("numhost"), Err("Too many hosts or aliases".to_string()));
    assert_eq!(dyndns_verdict("abuse"), Err("Hostname has been blocked due to abuse".to_string()));
    assert_eq!(dyndns_verdict("dnserr"), Err("DNS error on server side".to_string()));
    assert_eq!(dyndns_verdict("911"), Err("DynDNS server error".to_string()));
    assert_eq!(dyndns_verdict("weird reply"), Err("Unknown response: weird reply".to_string()));
    assert_eq!(dyndns_verdict(""), Err("Unknown response: ".to_string()));
}

#[test]
fn noip_answers_are_read_by_their_first_word() {
    assert!(noip_verdict("  good 1.2.3.4").is_ok());
    assert_eq!(noip_verdict("nohost"), Err("Hostname does not exist".to_string()));
    assert_eq!(noip_verdict("badagent"), Err("Bad user agent - update client".to_string()));
    assert_eq!(noip_verdict("!donator"), Err("Feature not available for free accounts".to_string()));
    assert_eq!(noip_verdict("911"), Err("No-IP server error".to_string()));
    assert_eq!(noip_verdict("notfqdn"), Err("Unknown response: notfqdn".to_string()));
}

#[test]
fn update_requests_and_credentials() {
    assert_eq!(
        dyndns_update_url("home.example.net", "1.2.3.4"),
        "https://members.dyndns.org/nic/update?hostname=home.example.net&myip=1.2.3.4"
    );
    assert_eq!(
        noip_update_url("h.ddns.net", "1.2.3.4"),
        "https://dynupdate.no-ip.com/nic/update?hostname=h.ddns.net&myip=1.2.3.4"
    );
    assert_eq!(user_agent(DdnsProvider::DynDns), "LacisProxyGateway2/1.0");
    assert_eq!(user_agent(DdnsProvider::NoIp), "LacisProxyGateway2/1.0 hideaki@example.com");
    assert_eq!(provider_display_name(DdnsProvider::NoIp), "No-IP");
    let c = config(DdnsProvider::DynDns, None);
    assert_eq!(basic_credentials(&c), Ok(("user".to_string(), "pw".to_string())));
    let mut c2 = config(DdnsProvider::NoIp, None);
    c2.password = None;
    assert_eq!(basic_credentials(&c2), Err("Password required for No-IP".to_string()));
    c2.username = None;
    assert_eq!(basic_credentials(&c2), Err("Username required for No-IP".to_string()));
}

#[test]
fn cloudflare_requests() {
    let mut c = config(DdnsProvider::Cloudflare, None);
    assert_eq!(cloudflare_credentials(&c), Err("API token required for Cloudflare".to_string()));
    c.api_token = Some("tok".to_string());
    assert_eq!(cloudflare_credentials(&c), Err("Zone ID required for Cloudflare".to_string()));
    c.zone_id = Some("z1".to_string());
    assert_eq!(cloudflare_credentials(&c), Ok(("tok".to_string(), "z1".to_string())));
    let r4 = cloudflare_record("home.example.net", "1.2.3.4");
    assert_eq!(r4.record_type, "A");
    assert_eq!(r4.ttl, 1);
    assert!(!r4.proxied);
    assert_eq!(cloudflare_record("h", "2001:db8::1").record_type, "AAAA");
    assert_eq!(
        cloudflare_records_url("z1", "h.example"),
        "https://api.cloudflare.com/client/v4/zones/z1/dns_records?name=h.example"
    );
    assert_eq!(cloudflare_record_url("z1", "r9"), "https://api.cloudflare.com/client/v4/zones/z1/dns_records/r9");
    assert_eq!(bearer_header("tok"), "Bearer tok");
    let errs = vec!["bad zone".to_string(), "no auth".to_string()];
    assert_eq!(cloudflare_error(&errs), "Cloudflare error: bad zone, no auth");
    assert_eq!(record_id_from_listing(false, &errs, &None, "h"), Err("Cloudflare error: bad zone, no auth".to_string()));
    assert_eq!(
        record_id_from_listing(true, &Vec::new(), &Some(vec!["r1".to_string(), "r2".to_string()]), "h"),
        Ok("r1".to_string())
    );
    assert_eq!(record_id_from_listing(true, &Vec::new(), &Some(Vec::new()), "h"), Err("DNS record not found for h".to_string()));
    assert!(cloudflare_update_outcome(true, &errs).is_ok());
    assert_eq!(cloudflare_update_outcome(false, &Vec::new()), Err("Cloudflare error: ".to_string()));
}

#[test]
fn only_changed_addresses_are_updated() {
    assert!(needs_update(&None, "1.2.3.4"));
    assert!(needs_update(&Some("1.2.3.3".to_string()), "1.2.3.4"));
    assert!(!needs_update(&Some("1.2.3.4".to_string()), "1.2.3.4"));
    let configs = vec![
        config(DdnsProvider::DynDns, Some("1.2.3.4")),
        config(DdnsProvider::NoIp, None),
        config(DdnsProvider::Cloudflare, Some("9.9.9.9")),
    ];
    assert_eq!(configs_to_update(&configs, "1.2.3.4"), vec![1, 2]);
}

#[test]
fn a_recorded_address_needs_no_new_update() {
    let c = config(DdnsProvider::DynDns, Some("1.1.1.1"));
    let r = record_ddns_ip(&c, "2.2.2.2", DdnsStatus::Active, &None, 99);
    assert_eq!(r.last_ip.as_deref(), Some("2.2.2.2"));
    assert_eq!(r.last_update, Some(99));
    assert!(!needs_update(&r.last_ip, "2.2.2.2"));
    assert!(needs_update(&r.last_ip, "3.3.3.3"));
    let e = record_ddns_error(&c, "boom");
    assert!(e.status == DdnsStatus::Error);
    assert_eq!(e.last_error.as_deref(), Some("boom"));
    assert_eq!(e.last_ip.as_deref(), Some("1.1.1.1"));
}

#[test]
fn stored_updates_replace_named_fields() {
    let c = config(DdnsProvider::DynDns, None);
    let u = UpdateDdnsRequest {
        hostname: Some("new.example.net".to_string()),
        username: None,
        password: Some("pw2".to_string()),
        api_token: None,
        zone_id: None,
        update_interval_sec: Some(60),
        status: Some(DdnsStatus::Disabled),
    };
    let r = apply_ddns_update(&c, &u);
    assert_eq!(r.hostname, "new.example.net");
    assert_eq!(r.username.as_deref(), Some("user"));
    assert_eq!(r.password.as_deref(), Some("pw2"));
    assert_eq!(r.update_interval_sec, 60);
    assert!(r.status == DdnsStatus::Disabled);
    assert!(r.provider == DdnsProvider::DynDns);
}

#[test]
fn ddns_requests_need_their_provider_credentials() {
    let mut req = CreateDdnsRequest {
        provider: DdnsProvider::DynDns,
        hostname: "h".to_string(),
        username: Some("u".to_string()),
        password: None,
        api_token: None,
        zone_id: None,
        update_interval_sec: 300,
    };
    match validate_create_ddns(&req) {
        Err(AppError::BadRequest(m)) => assert_eq!(m, "Username and password required for DynDNS/No-IP"),
        _ => panic!("expected a bad request"),
    }
    req.password = Some("p".to_string());
    assert!(validate_create_ddns(&req).is_ok());
    req.provider = DdnsProvider::Cloudflare;
    match validate_create_ddns(&req) {
        Err(AppError::BadRequest(m)) => assert_eq!(m, "API token and zone ID required for Cloudflare"),
        _ => panic!("expected a bad request"),
    }
    req.api_token = Some("t".to_string());
    req.zone_id = Some("z".to_string());
    assert!(validate_create_ddns(&req).is_ok());
}

#[test]
fn ddns_endpoint_answers() {
    match ddns_not_found(12) {
        AppError::NotFound(m) => assert_eq!(m, "DDNS config 12 not found"),
        _ => panic!("expected not found"),
    }
    assert_eq!(ddns_config_not_found(-3), "DDNS config -3 not found");
    let c = ddns_delete_confirmation(4, &Some("home.example.net".to_string()));
    assert_eq!(c.action, "delete_ddns");
    assert_eq!(c.target, "DDNS #4 (home.example.net)");
    assert_eq!(c.warning, "This will remove the DDNS configuration. DNS updates will stop.");
    assert!(c.confirm_required);
    assert_eq!(ddns_delete_confirmation(4, &None).target, "DDNS #4");
    assert!(ip_mismatch(&Some("1.1.1.1".to_string()), &Some("2.2.2.2".to_string())));
    assert!(!ip_mismatch(&Some("1.1.1.1".to_string()), &Some("1.1.1.1".to_string())));
    assert!(!ip_mismatch(&None, &Some("1.1.1.1".to_string())));
    let ctrls = vec![controller("c1", "Office"), controller("c2", "Lab")];
    assert_eq!(linked_controller_name(&ctrls, "c2"), Some("Lab".to_string()));
    assert_eq!(linked_controller_name(&ctrls, "c3"), None);
    assert!(check_link_controller(&None, &ctrls).is_ok());
    assert!(check_link_controller(&Some("c1".to_string()), &ctrls).is_ok());
    match check_link_controller(&Some("c9".to_string()), &ctrls) {
        Err(AppError::NotFound(m)) => assert_eq!(m, "Omada controller c9 not found"),
        _ => panic!("expected not found"),
    }
    match port_forward_controller(&None) {
        Err(AppError::BadRequest(m)) => assert_eq!(m, "DDNS config is not linked to an Omada controller"),
        _ => panic!("expected a bad request"),
    }
    assert!(matches!(port_forward_controller(&Some("c1".to_string())), Ok(c) if c == "c1"));
    match omada_client_not_found("c1") {
        AppError::NotFound(m) => assert_eq!(m, "Omada client for controller c1 not found"),
        _ => panic!("expected not found"),
    }
    match ddns_update_failed("timeout") {
        AppError::InternalError(m) => assert_eq!(m, "DDNS update failed: timeout"),
        _ => panic!("expected an internal error"),
    }
}
