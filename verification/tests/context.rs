use lacis_proxy::agent::{agent_context, build_endpoint_list, AgentSources};
use lacis_proxy::auth::AuthUser;
use lacis_proxy::diagnostics::{diagnostics_report, finding, omada_findings, DiagnosticCheck};
use lacis_proxy::external::DeviceProtocol;
use lacis_proxy::models::{DdnsConfig, DdnsProvider, DdnsStatus, Setting};
use lacis_proxy::topology::{apply_reparent, build_raw_topology, collect_descendants, ReparentError, UserObjectDetail};

fn user(permission: i32) -> AuthUser {
    AuthUser { sub: "agent@example.com".to_string(), lacis_id: None, permission, auth_method: "local".to_string() }
}

fn ddns() -> DdnsConfig {
    DdnsConfig {
        id: 1,
        provider: DdnsProvider::Cloudflare,
        hostname: "h.example".to_string(),
        username: Some("u".to_string()),
        password: Some("secret".to_string()),
        api_token: Some("token".to_string()),
        zone_id: None,
        update_interval_sec: 300,
        last_ip: None,
        last_update: None,
        last_error: None,
        status: DdnsStatus::Active,
        omada_controller_id: None,
        omada_site_id: None,
        created_at: 1,
        updated_at: 2,
    }
}

fn setting(id: i32, key: &str, value: Option<&str>) -> Setting {
    Setting {
        id,
        setting_key: key.to_string(),
        setting_value: value.map(|v| v.to_string()),
        description: Some(format!("about {key}")),
        updated_at: 1700000000,
    }
}

fn sources() -> AgentSources {
    AgentSources {
        routes: Vec::new(),
        ddns: vec![ddns()],
        omada_controllers: Vec::new(),
        omada_devices: 4,
        omada_clients: 9,
        openwrt_routers: Vec::new(),
        openwrt_clients: 0,
        external_devices: Vec::new(),
        external_clients: 0,
        blocked_ips: Vec::new(),
        recent_events: Vec::new(),
        settings: vec![
            setting(3, "discord_webhook_url", Some("https://hook")),
            setting(4, "rate_limit_enabled", Some("true")),
        ],
    }
}

#[test]
fn agent_context_masks_secrets_and_serves_what_is_asked() {
    let c = agent_context(&None, user(80), "0.1.0".to_string(), 42, sources());
    assert_eq!(c.system.available_endpoints.len(), build_endpoint_list(80).len());
    assert_eq!((c.system.server_health.as_str(), c.system.uptime_seconds), ("ok", 42));
    let d = c.ddns.unwrap();
    assert_eq!(d[0].password.as_deref(), Some("********"));
    assert_eq!(d[0].api_token.as_deref(), Some("********"));
    assert_eq!(d[0].username.as_deref(), Some("u"));
    let s = c.settings.unwrap();
    assert_eq!(s[0].setting_value.as_deref(), Some("********"));
    assert_eq!((s[0].id, s[0].setting_key.as_str(), s[0].description.as_deref(), s[0].updated_at), (3, "discord_webhook_url", Some("about discord_webhook_url"), 1700000000));
    assert_eq!(s[1].setting_value.as_deref(), Some("true"));
    assert_eq!(s[1].id, 4);
    let o = c.omada.unwrap();
    assert_eq!((o.controllers, o.devices, o.clients), (0, 4, 9));
    assert!(c.routes.is_some() && c.security.is_some() && c.openwrt.is_some() && c.external.is_some());

    let only = agent_context(&Some(" Routes , settings".to_string()), user(0), "0.1.0".to_string(), 0, sources());
    assert!(only.routes.is_some() && only.settings.is_some());
    assert!(only.ddns.is_none() && only.omada.is_none() && only.security.is_none());
}

#[test]
fn omada_findings_count_devices_and_judge_controllers() {
    let ids = vec!["c1".to_string(), "c2".to_string(), "c3".to_string()];
    let lookups = vec![
        ("c1".to_string(), Ok(Some(("Main".to_string(), "connected".to_string(), None, Some("2024-01-01".to_string())))), 5),
        ("c2".to_string(), Ok(None), 6),
        ("c3".to_string(), Err("timeout".to_string()), 7),
    ];
    let r = omada_findings(&ids, 1, &Ok(vec![1, 0, 1]), 2, &lookups, true);
    assert_eq!(r.len(), 5);
    assert_eq!((r[0].status.as_str(), r[0].message.as_str()), ("ok", "3 Omada controllers registered"));
    assert_eq!((r[1].status.as_str(), r[1].message.as_str()), ("ok", "3 devices (2 online)"));
    let d0 = r[0].details.as_ref().unwrap();
    assert!(d0["count"] == 3 && d0["ids"][2] == "c3");
    let d1 = r[1].details.as_ref().unwrap();
    assert!(d1["total"] == 3 && d1["online"] == 2);
    let d2 = r[2].details.as_ref().unwrap();
    assert!(d2["controller_id"] == "c1" && d2["display_name"] == "Main" && d2["last_synced_at"] == "2024-01-01");
    assert!(r[3].details.is_none());
    assert_eq!((r[2].name.as_str(), r[2].status.as_str(), r[2].message.as_str()), ("omada_connectivity_c1", "ok", "Controller 'Main' connected"));
    assert_eq!((r[3].status.as_str(), r[3].message.as_str()), ("warning", "Controller 'c2' not found in DB"));
    assert_eq!((r[4].status.as_str(), r[4].message.as_str(), r[4].duration_ms), ("error", "Query failed: timeout", 7));
    let r = omada_findings(&Vec::new(), 1, &Err("down".to_string()), 2, &lookups, false);
    assert_eq!(r.len(), 2);
    assert_eq!(r[0].status, "warning");
    assert_eq!((r[1].status.as_str(), r[1].message.as_str()), ("error", "Failed to query Omada devices: down"));
}

fn check(status: &str) -> DiagnosticCheck {
    finding("system", "x".to_string(), status, "m".to_string(), 0)
}

#[test]
fn diagnostics_reports_join_and_count() {
    let (checks, summary) = diagnostics_report(vec![vec![check("ok"), check("error")], vec![], vec![check("warning"), check("ok")]]);
    let st: Vec<&str> = checks.iter().map(|c| c.status.as_str()).collect();
    assert_eq!(st, vec!["ok", "error", "warning", "ok"]);
    assert_eq!((summary.total, summary.ok, summary.warning, summary.error), (4, 2, 1, 1));
}

fn node(id: &str, parent: &str) -> UserObjectDetail {
    UserObjectDetail {
        id: id.to_string(),
        mac: "AABBCCDDEEFF".to_string(),
        lacis_id: None,
        device_type: "NetworkDevice".to_string(),
        parent_id: parent.to_string(),
        sort_order: 0,
        node_type: "switch".to_string(),
        state_type: "online".to_string(),
        label: id.to_string(),
        label_customized: false,
        ip: None,
        hostname: None,
        source: "omada".to_string(),
        source_ref_id: None,
        connection_type: "wired".to_string(),
        product_type: None,
        product_code: None,
        network_device_type: None,
        candidate_lacis_id: None,
        fid: None,
        facility_name: None,
        ssid: None,
        metadata: serde_json::Value::Null,
        aranea_lacis_id: None,
        created_at: "c".to_string(),
        updated_at: "u".to_string(),
    }
}

#[test]
fn reparenting_moves_only_the_node() {
    let a = "4101AAAAAAAAAAAA0000";
    let b = "4101BBBBBBBBBBBB0000";
    let c = "4101CCCCCCCCCCCC0000";
    let mut es = vec![node(a, "INTERNET"), node(b, a), node(c, b)];
    assert!(apply_reparent(&mut es, a, c) == Err(ReparentError::Circular));
    assert_eq!(es[0].parent_id, "INTERNET");
    assert!(apply_reparent(&mut es, c, a).is_ok());
    assert_eq!((es[0].parent_id.as_str(), es[1].parent_id.as_str(), es[2].parent_id.as_str()), ("INTERNET", a, a));
    assert_eq!(es[2].label, c);
}

#[test]
fn stored_names_read_back() {
    for p in [DdnsProvider::DynDns, DdnsProvider::NoIp, DdnsProvider::Cloudflare] {
        assert!(DdnsProvider::parse(&p.to_string()) == Ok(p));
    }
    for s in [DdnsStatus::Active, DdnsStatus::Error, DdnsStatus::Disabled] {
        assert!(DdnsStatus::parse(&s.to_string()) == Ok(s));
    }
    for p in [DeviceProtocol::MercuryAC, DeviceProtocol::Deco, DeviceProtocol::Generic] {
        assert!(DeviceProtocol::from_str(p.as_str()) == p);
    }
}

#[test]
fn descendants_are_the_nodes_below() {
    let a = "4101AAAAAAAAAAAA0000";
    let b = "4101BBBBBBBBBBBB0000";
    let c = "4101CCCCCCCCCCCC0000";
    let d = "4101DDDDDDDDDDDD0000";
    let t = build_raw_topology(&vec![node(a, "INTERNET"), node(b, a), node(c, b), node(d, a)]);
    let at = |id: &str| t.nodes.iter().position(|n| n.id == id).unwrap();
    let mut below: Vec<String> = collect_descendants(&t.nodes, at(a)).iter().map(|&j| t.nodes[j].id.clone()).collect();
    below.sort();
    assert_eq!(below, vec![b.to_string(), c.to_string(), d.to_string()]);
    let under_b: Vec<String> = collect_descendants(&t.nodes, at(b)).iter().map(|&j| t.nodes[j].id.clone()).collect();
    assert_eq!(under_b, vec![c.to_string()]);
    assert!(collect_descendants(&t.nodes, at(c)).is_empty());
}
