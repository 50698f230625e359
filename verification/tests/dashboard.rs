use lacis_proxy::agent::{build_endpoint_list, mask_secret, mask_setting_value, requested_sections, wants_section};
use lacis_proxy::auth::AppError;
use lacis_proxy::dashboard::{
    connection_count, csv_escape, csv_header, csv_row, days_remaining, disk_rows, export_limit, next_renewal_text,
    process_info, root_disk_rows, server_health, unit_active, uptime_text,
};
use lacis_proxy::diagnostics::{database_findings, geoip_finding, join_with, nginx_findings, reachability, summarize};
use lacis_proxy::nginx::{client_max_body_size_in, normalize_body_size, proxy_mode_of, set_body_size};

#[test]
fn endpoint_lists_grow_with_permission() {
    assert_eq!(build_endpoint_list(0).len(), 67);
    assert_eq!(build_endpoint_list(50).len(), 78);
    assert_eq!(build_endpoint_list(80).len(), 100);
    assert_eq!(build_endpoint_list(100).len(), 109);
    assert_eq!(build_endpoint_list(-1).len(), 0);
    assert!(build_endpoint_list(50).iter().all(|e| e.required_permission <= 50));
    let first = &build_endpoint_list(0)[0];
    assert_eq!(first.method, "GET");
    assert_eq!(first.path, "/api/auth/me");
}

#[test]
fn agent_context_sections_and_masks() {
    let s = requested_sections(&Some(" Routes ,DDNS".to_string()));
    assert_eq!(s, vec!["routes", "ddns"]);
    let all = requested_sections(&None);
    assert_eq!(all, vec!["routes", "ddns", "omada", "openwrt", "external", "security", "settings"]);
    assert!(wants_section(&all, "omada"));
    assert!(!wants_section(&s, "omada"));
    assert_eq!(mask_secret(&Some("abc".to_string())), Some("********".to_string()));
    assert_eq!(mask_secret(&None), None);
    assert_eq!(mask_setting_value("discord_webhook_url", &Some("https://hook".to_string())), Some("********".to_string()));
    assert_eq!(mask_setting_value("rate_limit_enabled", &Some("true".to_string())), Some("true".to_string()));
}

#[test]
fn server_health_from_route_checks() {
    assert_eq!(server_health(&vec![true, true]), "healthy");
    assert_eq!(server_health(&Vec::new()), "healthy");
    assert_eq!(server_health(&vec![true, true, true, true, false]), "degraded");
    assert_eq!(server_health(&vec![true, false]), "unhealthy");
}

#[test]
fn csv_export() {
    assert_eq!(csv_escape("plain"), "plain");
    assert_eq!(csv_escape("a,b"), "\"a,b\"");
    assert_eq!(csv_escape("say \"hi\""), "\"say \"\"hi\"\"\"");
    assert_eq!(csv_header(), "timestamp,ip,method,path,status,response_time_ms,user_agent,referer\n");
    assert_eq!(
        csv_row("t", "1.2.3.4", "GET", "/a,b", 200, 12, &Some("curl".to_string()), &None),
        "t,1.2.3.4,GET,\"/a,b\",200,12,curl,\n"
    );
    assert_eq!(export_limit(0), 10000);
    assert_eq!(export_limit(500), 500);
    assert_eq!(export_limit(20000), 10000);
}

#[test]
fn system_readings() {
    assert_eq!(uptime_text(59), "0m");
    assert_eq!(uptime_text(3 * 3600 + 120), "3h 2m");
    assert_eq!(uptime_text(2 * 86400 + 3600 + 60), "2d 1h 1m");
    let p = process_info("USER PID STAT\nroot 1 S \nroot 2 R \nme 3 R+ \n");
    assert_eq!((p.total, p.running, p.sleeping), (3, 2, 1));
    assert_eq!(connection_count("Netid State\ntcp ESTAB\nudp UNCONN\n"), 2);
    assert_eq!(connection_count(""), 0);
    assert_eq!(days_remaining(86400 * 10 + 5, 5), Some(10));
    assert_eq!(days_remaining(5, 86400 * 2 + 5), Some(-2));
    assert_eq!(days_remaining(0, 5), None);
    assert_eq!(next_renewal_text(45), "15 days until renewal window");
    assert_eq!(next_renewal_text(30), "In renewal window (will renew on next check)");
    assert!(unit_active("active\n"));
    assert!(!unit_active("inactive"));
}

#[test]
fn disks_of_df_reports() {
    let df = "Mounted on Type 1G-blocks Used Avail Use%\n/ ext4 98G 40G 53G 43%\n/run tmpfs 2G 0G 2G 1%\n/dev/sdb1 xfs 500G 10G 490G 2%\n/home ext4 20G\n";
    let d = disk_rows(df);
    assert_eq!(d.len(), 2);
    assert_eq!(
        (d[0].mount_point.as_str(), d[0].filesystem.as_str(), d[0].total_gb.as_str(), d[0].used_gb.as_str()),
        ("/", "ext4", "98", "40")
    );
    assert_eq!((d[0].free_gb.as_str(), d[0].usage_percent.as_str()), ("53", "43"));
    assert_eq!(d[1].mount_point, "/dev/sdb1");
    assert!(disk_rows("Mounted on Type\n").is_empty());
    let r = root_disk_rows("Filesystem Size Used Avail Use% Mounted\n/dev/root 29G 12G 17G 42% /\n");
    assert_eq!(r.len(), 1);
    assert_eq!((r[0].mount_point.as_str(), r[0].filesystem.as_str(), r[0].usage_percent.as_str()), ("/", "/dev/root", "42"));
    assert_eq!(r[0].total_gb, "");
}

#[test]
fn diagnostics_summaries() {
    let st: Vec<String> = ["ok", "warning", "ok", "error", "skipped"].iter().map(|s| s.to_string()).collect();
    let s = summarize(&st);
    assert_eq!((s.total, s.ok, s.warning, s.error), (5, 2, 1, 1));
    assert_eq!(reachability(Some(200), ""), ("ok".to_string(), "Reachable (HTTP 200)".to_string()));
    assert_eq!(reachability(Some(502), ""), ("warning".to_string(), "Server error (HTTP 502)".to_string()));
    assert_eq!(reachability(None, "refused"), ("error".to_string(), "Unreachable: refused".to_string()));
    assert_eq!(join_with(&vec!["a".to_string(), "b".to_string()], ", "), "a, b");
}

#[test]
fn body_size_is_normalized_set_and_read_back() {
    assert!(matches!(normalize_body_size(" 50m "), Ok(s) if s == "50M"));
    match normalize_body_size("50") {
        Err(AppError::BadRequest(m)) => assert_eq!(m, "Size must end with K, M, or G (e.g., 50M, 1G)"),
        _ => panic!("expected a bad request"),
    }
    match normalize_body_size("xM") {
        Err(AppError::BadRequest(m)) => assert_eq!(m, "Invalid size format"),
        _ => panic!("expected a bad request"),
    }
    let conf = "server {\n    client_max_body_size 10M;\n    location / {\n        proxy_pass http://x;\n    }\n}\n";
    assert_eq!(client_max_body_size_in(conf), Some("10M".to_string()));
    let updated = set_body_size(conf, "100M");
    assert_eq!(client_max_body_size_in(&updated), Some("100M".to_string()));
    assert!(updated.contains("location / {\n        client_max_body_size 100M;\n"));
    assert_eq!(proxy_mode_of(&Some(conf.to_string())), "full_proxy");
    assert_eq!(proxy_mode_of(&None), "selective");
}

#[test]
fn service_findings() {
    let d = database_findings(&Ok(()), 3, &Err("no route".to_string()), 7);
    assert_eq!((d[0].status.as_str(), d[0].message.as_str()), ("ok", "MySQL connection acquired successfully"));
    assert_eq!((d[1].status.as_str(), d[1].message.as_str()), ("error", "MongoDB ping failed: no route"));
    assert_eq!((d[1].name.as_str(), d[1].duration_ms), ("mongodb_connection", 7));
    let n = nginx_findings(false, 1, false, &Some("bad directive".to_string()), 2);
    assert_eq!((n[0].status.as_str(), n[0].message.as_str()), ("error", "nginx is NOT running"));
    assert_eq!(n[1].message, "nginx config test failed: bad directive");
    let n = nginx_findings(true, 1, true, &None, 2);
    assert_eq!((n[0].message.as_str(), n[1].message.as_str()), ("nginx is running", "nginx config test passed"));
    let g = geoip_finding(false, 0);
    assert_eq!((g.status.as_str(), g.message.as_str()), ("warning", "GeoIP database not loaded (optional feature)"));
    assert_eq!(geoip_finding(true, 0).status, "ok");
}
