use lacis_proxy::access_log::{
    access_log_filter, count_consecutive_failures, geo_lookup_skipped, ip_exclusion, lan_ip_pattern, listed_ips,
};
use lacis_proxy::auth::IpAddress;

#[test]
fn excluded_addresses_are_trimmed_and_non_empty() {
    assert_eq!(listed_ips(" 1.2.3.4, ,5.6.7.8 ,"), vec!["1.2.3.4", "5.6.7.8"]);
    assert!(listed_ips("").is_empty());
    let e = ip_exclusion(&Some("9.9.9.9".to_string()), Some(true));
    assert_eq!(e.ips, vec!["9.9.9.9"]);
    assert!(e.exclude_lan);
    let none = ip_exclusion(&None, None);
    assert!(none.ips.is_empty());
    assert!(!none.exclude_lan);
    assert!(!ip_exclusion(&None, Some(false)).exclude_lan);
    assert_eq!(lan_ip_pattern(), "^(10\\.|172\\.(1[6-9]|2[0-9]|3[01])\\.|192\\.168\\.|127\\.)");
}

#[test]
fn search_filters() {
    let f = access_log_filter(
        Some("2024-01-01T00:00:00Z".to_string()),
        None,
        &Some("get".to_string()),
        Some(400),
        None,
        &Some(String::new()),
        &Some("^/api".to_string()),
        &None,
        None,
    );
    assert_eq!(f.method.as_deref(), Some("GET"));
    assert_eq!(f.ip, None);
    assert_eq!(f.path_pattern.as_deref(), Some("^/api"));
    assert_eq!(f.status_min, Some(400));
    assert_eq!(f.from.as_deref(), Some("2024-01-01T00:00:00Z"));
    let g = access_log_filter(None, None, &Some(String::new()), None, None, &None, &None, &Some("1.1.1.1".to_string()), Some(true));
    assert_eq!(g.method, None);
    assert_eq!(g.exclusion.ips, vec!["1.1.1.1"]);
}

#[test]
fn failing_runs_stop_at_the_first_healthy_check() {
    assert_eq!(count_consecutive_failures(&vec![Some(false), None, Some(false), Some(true), Some(false)]), 2);
    assert_eq!(count_consecutive_failures(&vec![Some(true), Some(false)]), 0);
    assert_eq!(count_consecutive_failures(&vec![Some(false), Some(false)]), 2);
    assert_eq!(count_consecutive_failures(&Vec::new()), 0);
}

#[test]
fn geo_lookup_passes_over_local_addresses() {
    assert!(geo_lookup_skipped(&IpAddress::V4(192, 168, 1, 1)));
    assert!(geo_lookup_skipped(&IpAddress::V4(127, 0, 0, 1)));
    assert!(geo_lookup_skipped(&IpAddress::V4(169, 254, 3, 4)));
    assert!(geo_lookup_skipped(&IpAddress::V4(172, 20, 0, 1)));
    assert!(!geo_lookup_skipped(&IpAddress::V4(8, 8, 8, 8)));
    assert!(!geo_lookup_skipped(&IpAddress::V4(172, 32, 0, 1)));
    assert!(geo_lookup_skipped(&IpAddress::V6([0, 0, 0, 0, 0, 0, 0, 1])));
    assert!(!geo_lookup_skipped(&IpAddress::V6([0x2001, 0xdb8, 0, 0, 0, 0, 0, 1])));
}
