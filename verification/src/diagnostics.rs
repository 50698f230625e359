//! Diagnostics: which categories to check, how each finding is judged and
//! worded, and the summary of a run.

use vstd::prelude::*;
use crate::json::{json_object, json_of};
use crate::node_order::{clone_opt, clone_strings, opt_view};
use crate::seqs::{count_where, keep_where, lemma_count_step, lemma_keep_step};
use crate::text::{
    append_str, decimal_nat, decimal_u64, lines_of, owned, parse_u32, parsed_in_range, str_eq, strip_trailing,
    strip_trailing_char, text_lines, words, words_of,
};

verus! {

/// A diagnostics run request.
pub struct DiagnosticsRequest {
    /// The categories to check (all when absent).
    pub categories: Option<Vec<String>>,
    /// Whether to test the connectivity of devices and routes too.
    pub include_device_tests: Option<bool>,
}

/// One finding of a diagnostics run.
pub struct DiagnosticCheck {
    pub category: String,
    pub name: String,
    /// `ok`, `warning` or `error`.
    pub status: String,
    pub message: String,
    pub details: Option<serde_json::Value>,
    pub duration_ms: u64,
}

/// How many findings there are, by status.
pub struct DiagnosticSummary {
    pub total: usize,
    pub ok: usize,
    pub warning: usize,
    pub error: usize,
}

/// Every category, in the order they are run.
pub open spec fn all_categories() -> Seq<Seq<char>> {
    seq!["database"@, "nginx"@, "proxy_routes"@, "ddns"@, "omada"@, "openwrt"@, "external"@, "aranea"@, "geoip"@, "system"@]
}

pub fn all_category_names() -> (r: Vec<String>)
    ensures
        r@.map_values(|c: String| c@) == all_categories(),
{
    let mut r: Vec<String> = Vec::new();
    r.push(owned("database"));
    r.push(owned("nginx"));
    r.push(owned("proxy_routes"));
    r.push(owned("ddns"));
    r.push(owned("omada"));
    r.push(owned("openwrt"));
    r.push(owned("external"));
    r.push(owned("aranea"));
    r.push(owned("geoip"));
    r.push(owned("system"));
    assert(r@.map_values(|c: String| c@) =~= all_categories());
    r
}

pub open spec fn is_category() -> spec_fn(Seq<char>) -> bool {
    |c: Seq<char>| all_categories().contains(c)
}

/// The categories a run checks: the requested names that are categories, in
/// the order given; all categories when none are named.
pub open spec fn spec_selected(requested: Option<Seq<Seq<char>>>) -> Seq<Seq<char>> {
    match requested {
        Some(cs) => keep_where(cs, is_category()),
        None => all_categories(),
    }
}

fn known_category(c: &String, all: &Vec<String>) -> (r: bool)
    requires
        all@.map_values(|x: String| x@) == all_categories(),
    ensures
        r == all_categories().contains(c@),
{
    let ghost av = all@.map_values(|x: String| x@);
    let mut i: usize = 0;
    while i < all.len()
        invariant
            i <= all.len(),
            av == all@.map_values(|x: String| x@),
            av == all_categories(),
            forall|k: int| 0 <= k < i ==> av[k] != c@,
        decreases all.len() - i,
    {
        assert(av[i as int] == all@[i as int]@);
        if str_eq(all[i].as_str(), c.as_str()) {
            assert(av[i as int] == c@);
            return true;
        }
        i = i + 1;
    }
    false
}

pub fn selected_categories(requested: &Option<Vec<String>>) -> (r: Vec<String>)
    ensures
        r@.map_values(|c: String| c@) == spec_selected(match requested {
            Some(v) => Some(v@.map_values(|c: String| c@)),
            None => None,
        }),
{
    let all = all_category_names();
    match requested {
        None => all,
        Some(cs) => {
            let ghost cv = cs@.map_values(|c: String| c@);
            let ghost p = is_category();
            let mut r: Vec<String> = Vec::new();
            let mut i: usize = 0;
            while i < cs.len()
                invariant
                    i <= cs.len(),
                    cv == cs@.map_values(|c: String| c@),
                    p == is_category(),
                    all@.map_values(|x: String| x@) == all_categories(),
                    r@.map_values(|c: String| c@) == keep_where(cv.take(i as int), p),
                decreases cs.len() - i,
            {
                proof {
                    lemma_keep_step(cv, p, i as int);
                }
                assert(cv[i as int] == cs@[i as int]@);
                let ghost before = r@.map_values(|c: String| c@);
                if known_category(&cs[i], &all) {
                    r.push(cs[i].clone());
                    assert(r@.map_values(|c: String| c@) =~= before.push(cv[i as int]));
                }
                i = i + 1;
            }
            assert(cv.take(cs.len() as int) =~= cv);
            r
        },
    }
}

pub open spec fn has_status(s: Seq<char>) -> spec_fn(Seq<char>) -> bool {
    |x: Seq<char>| x == s
}

/// The summary of a run: all findings, and how many are `ok`, `warning` and
/// `error`.
pub fn summarize(statuses: &Vec<String>) -> (r: DiagnosticSummary)
    ensures
        r.total == statuses.len(),
        r.ok == count_where(statuses@.map_values(|s: String| s@), has_status("ok"@)),
        r.warning == count_where(statuses@.map_values(|s: String| s@), has_status("warning"@)),
        r.error == count_where(statuses@.map_values(|s: String| s@), has_status("error"@)),
{
    let ghost sv = statuses@.map_values(|s: String| s@);
    let mut ok: usize = 0;
    let mut warning: usize = 0;
    let mut error: usize = 0;
    let mut i: usize = 0;
    while i < statuses.len()
        invariant
            i <= statuses.len(),
            sv == statuses@.map_values(|s: String| s@),
            ok == count_where(sv.take(i as int), has_status("ok"@)),
            warning == count_where(sv.take(i as int), has_status("warning"@)),
            error == count_where(sv.take(i as int), has_status("error"@)),
        decreases statuses.len() - i,
    {
        proof {
            lemma_count_step(sv, has_status("ok"@), i as int);
            lemma_count_step(sv, has_status("warning"@), i as int);
            lemma_count_step(sv, has_status("error"@), i as int);
        }
        assert(sv[i as int] == statuses@[i as int]@);
        let s = statuses[i].as_str();
        if str_eq(s, "ok") {
            ok = ok + 1;
        }
        if str_eq(s, "warning") {
            warning = warning + 1;
        }
        if str_eq(s, "error") {
            error = error + 1;
        }
        i = i + 1;
    }
    assert(sv.take(statuses.len() as int) =~= sv);
    DiagnosticSummary { total: statuses.len(), ok, warning, error }
}

/// No finding is counted twice: the `ok`, `warning` and `error` counts of a
/// run add up to at most its number of findings.
pub proof fn lemma_summary_partition(statuses: Seq<Seq<char>>)
    ensures
        count_where(statuses, has_status("ok"@)) + count_where(statuses, has_status("warning"@))
            + count_where(statuses, has_status("error"@)) <= statuses.len(),
    decreases statuses.len(),
{
    if statuses.len() > 0 {
        reveal_strlit("ok");
        reveal_strlit("warning");
        reveal_strlit("error");
        lemma_summary_partition(statuses.drop_last());
        let x = statuses.last();
        assert("ok"@.len() == 2 && "warning"@.len() == 7 && "error"@.len() == 5);
        assert(has_status("ok"@)(x) ==> x.len() == 2);
        assert(has_status("warning"@)(x) ==> x.len() == 7);
        assert(has_status("error"@)(x) ==> x.len() == 5);
    }
}

/// A finding with no details.
pub fn finding(category: &str, name: String, status: &str, message: String, duration_ms: u64) -> (c: DiagnosticCheck)
    ensures
        c.category@ == category@,
        c.name == name,
        c.status@ == status@,
        c.message == message,
        c.details is None,
        c.duration_ms == duration_ms,
{
    DiagnosticCheck { category: owned(category), name, status: owned(status), message, details: None, duration_ms }
}

/// `ok` when something is configured, `warning` when nothing is.
pub open spec fn spec_count_status(count: nat) -> Seq<char> {
    if count > 0 { "ok"@ } else { "warning"@ }
}

/// A count finding: `{count}{noun}` (such as ` active routes configured`),
/// `ok` when the count is positive, else `warning`.
pub fn count_finding(category: &str, name: &str, count: usize, noun: &str, duration_ms: u64) -> (c: DiagnosticCheck)
    ensures
        c.category@ == category@,
        c.name@ == name@,
        c.status@ == spec_count_status(count as nat),
        c.message@ == decimal_nat(count as nat) + noun@,
        c.duration_ms == duration_ms,
{
    let mut m = decimal_u64(count as u64);
    append_str(&mut m, noun);
    let details = json_object(vec![(owned("count"), json_of(count as u64))]);
    DiagnosticCheck {
        category: owned(category),
        name: owned(name),
        status: if count > 0 { owned("ok") } else { owned("warning") },
        message: m,
        details: Some(details),
        duration_ms,
    }
}

/// A failed query: an `error` finding with `{what}: {error}`.
pub fn failure_finding(category: &str, name: &str, what: &str, error: &str, duration_ms: u64) -> (c: DiagnosticCheck)
    ensures
        c.category@ == category@,
        c.name@ == name@,
        c.status@ == "error"@,
        c.message@ == what@ + ": "@ + error@,
        c.details is None,
        c.duration_ms == duration_ms,
{
    let mut m = owned(what);
    append_str(&mut m, ": ");
    append_str(&mut m, error);
    DiagnosticCheck { category: owned(category), name: owned(name), status: owned("error"), message: m, details: None, duration_ms }
}

/// The database findings: the MySQL connection, then the MongoDB ping,
/// each `ok` when it worked, else `error` with what failed.
pub fn database_findings(mysql: &Result<(), String>, mysql_ms: u64, mongo: &Result<(), String>, mongo_ms: u64) -> (r: Vec<DiagnosticCheck>)
    ensures
        r@.len() == 2,
        r@[0].category@ == "database"@ && r@[0].name@ == "mysql_connection"@ && r@[0].details is None
            && r@[0].duration_ms == mysql_ms,
        match mysql {
            Ok(_) => r@[0].status@ == "ok"@ && r@[0].message@ == "MySQL connection acquired successfully"@,
            Err(e) => r@[0].status@ == "error"@ && r@[0].message@ == "MySQL connection failed: "@ + e@,
        },
        r@[1].category@ == "database"@ && r@[1].name@ == "mongodb_connection"@ && r@[1].details is None
            && r@[1].duration_ms == mongo_ms,
        match mongo {
            Ok(_) => r@[1].status@ == "ok"@ && r@[1].message@ == "MongoDB ping successful"@,
            Err(e) => r@[1].status@ == "error"@ && r@[1].message@ == "MongoDB ping failed: "@ + e@,
        },
{
    let first = match mysql {
        Ok(_) => finding("database", owned("mysql_connection"), "ok", owned("MySQL connection acquired successfully"), mysql_ms),
        Err(e) => failure_finding("database", "mysql_connection", "MySQL connection failed", e.as_str(), mysql_ms),
    };
    let second = match mongo {
        Ok(_) => finding("database", owned("mongodb_connection"), "ok", owned("MongoDB ping successful"), mongo_ms),
        Err(e) => failure_finding("database", "mongodb_connection", "MongoDB ping failed", e.as_str(), mongo_ms),
    };
    proof {
        reveal_strlit("MySQL connection failed");
        reveal_strlit("MongoDB ping failed");
        reveal_strlit(": ");
        reveal_strlit("MySQL connection failed: ");
        reveal_strlit("MongoDB ping failed: ");
    }
    vec![first, second]
}

/// The nginx findings: whether it runs (`ok`, else `error`), then whether
/// its configuration passes the test (`ok`, else `error` with the test's
/// error, empty when it gave none).
pub fn nginx_findings(running: bool, running_ms: u64, config_valid: bool, config_error: &Option<String>, config_ms: u64) -> (r: Vec<DiagnosticCheck>)
    ensures
        r@.len() == 2,
        r@[0].category@ == "nginx"@ && r@[0].name@ == "nginx_running"@ && r@[0].details is None
            && r@[0].duration_ms == running_ms,
        r@[0].status@ == (if running { "ok"@ } else { "error"@ }),
        r@[0].message@ == (if running { "nginx is running"@ } else { "nginx is NOT running"@ }),
        r@[1].category@ == "nginx"@ && r@[1].name@ == "nginx_config_valid"@ && r@[1].details is None
            && r@[1].duration_ms == config_ms,
        r@[1].status@ == (if config_valid { "ok"@ } else { "error"@ }),
        r@[1].message@ == (if config_valid {
            "nginx config test passed"@
        } else {
            "nginx config test failed: "@ + match config_error { Some(e) => e@, None => Seq::empty() }
        }),
{
    let first = if running {
        finding("nginx", owned("nginx_running"), "ok", owned("nginx is running"), running_ms)
    } else {
        finding("nginx", owned("nginx_running"), "error", owned("nginx is NOT running"), running_ms)
    };
    let second = if config_valid {
        finding("nginx", owned("nginx_config_valid"), "ok", owned("nginx config test passed"), config_ms)
    } else {
        let mut m = owned("nginx config test failed: ");
        match config_error {
            Some(e) => append_str(&mut m, e.as_str()),
            None => {},
        }
        finding("nginx", owned("nginx_config_valid"), "error", m, config_ms)
    };
    vec![first, second]
}

/// The GeoIP finding: `ok` when its database is loaded, else `warning`, as
/// the lookup is optional.
pub fn geoip_finding(loaded: bool, duration_ms: u64) -> (c: DiagnosticCheck)
    ensures
        c.category@ == "geoip"@ && c.name@ == "geoip_db_loaded"@ && c.details is None && c.duration_ms == duration_ms,
        c.status@ == (if loaded { "ok"@ } else { "warning"@ }),
        c.message@ == (if loaded { "GeoIP database loaded"@ } else { "GeoIP database not loaded (optional feature)"@ }),
{
    if loaded {
        finding("geoip", owned("geoip_db_loaded"), "ok", owned("GeoIP database loaded"), duration_ms)
    } else {
        finding("geoip", owned("geoip_db_loaded"), "warning", owned("GeoIP database not loaded (optional feature)"), duration_ms)
    }
}

/// How many devices are online (status 1).
fn online_count(statuses: &Vec<i32>) -> (r: usize)
    ensures
        r == count_where(statuses@, |s: i32| s == 1),
{
    let ghost p = |s: i32| s == 1;
    let mut online: usize = 0;
    let mut i: usize = 0;
    while i < statuses.len()
        invariant
            i <= statuses.len(),
            p == (|s: i32| s == 1),
            online == count_where(statuses@.take(i as int), p),
            online <= i,
        decreases statuses.len() - i,
    {
        proof {
            lemma_count_step(statuses@, p, i as int);
        }
        if statuses[i] == 1 {
            online = online + 1;
        }
        i = i + 1;
    }
    assert(statuses@.take(statuses.len() as int) =~= statuses@);
    online
}

/// The finding on one Omada controller, by what its lookup gave: the
/// controller (display name, status, last error) judged by
/// `spec_connection_status`; a warning when it is not stored; an error when
/// the lookup failed.
pub open spec fn spec_controller_check(id: Seq<char>, lookup: Result<Option<(String, String, Option<String>, Option<String>)>, String>) -> (Seq<char>, Seq<char>) {
    match lookup {
        Ok(Some(c)) => spec_connection_status("Controller"@, c.0@, c.1@, opt_view(c.2), " has error"@),
        Ok(None) => ("warning"@, "Controller '"@ + id + "' not found in DB"@),
        Err(e) => ("error"@, "Query failed: "@ + e@),
    }
}

/// The Omada findings: how many controllers are registered (`ok` when
/// any, else `warning`); the stored devices with how many are online
/// (status 1), or the failed query as an `error`; and, when device tests
/// are asked for, one connectivity finding per controller lookup, in order.
/// `devices` holds the stored devices' statuses; each lookup comes with its
/// controller id and how long it took, and a found controller with its
/// display name, status, last error and last sync. As details the findings
/// carry the count and the ids, the device total and online count, and a
/// found controller's id, name and last sync.
pub fn omada_findings(
    controller_ids: &Vec<String>,
    count_ms: u64,
    devices: &Result<Vec<i32>, String>,
    devices_ms: u64,
    lookups: &Vec<(String, Result<Option<(String, String, Option<String>, Option<String>)>, String>, u64)>,
    include_device_tests: bool,
) -> (r: Vec<DiagnosticCheck>)
    ensures
        r@.len() == 2 + (if include_device_tests { lookups@.len() } else { 0 }),
        r@[0].category@ == "omada"@ && r@[0].name@ == "omada_controllers_count"@ && r@[0].duration_ms == count_ms,
        r@[0].status@ == spec_count_status(controller_ids@.len()),
        r@[0].message@ == decimal_nat(controller_ids@.len()) + " Omada controllers registered"@,
        r@[1].category@ == "omada"@ && r@[1].name@ == "omada_device_count"@ && r@[1].duration_ms == devices_ms,
        match devices {
            Ok(st) => r@[1].status@ == "ok"@ && r@[1].message@ == decimal_nat(st@.len()) + " devices ("@
                + decimal_nat(count_where(st@, |s: i32| s == 1)) + " online)"@,
            Err(e) => r@[1].status@ == "error"@ && r@[1].message@ == "Failed to query Omada devices: "@ + e@
                && r@[1].details is None,
        },
        include_device_tests ==> forall|j: int| 0 <= j < lookups@.len() ==> {
            let c = #[trigger] r@[2 + j];
            let l = lookups@[j];
            &&& c.category@ == "omada"@
            &&& c.name@ == "omada_connectivity_"@ + l.0@
            &&& c.duration_ms == l.2
            &&& (c.status@, c.message@) == spec_controller_check(l.0@, l.1)
        },
{
    let mut r: Vec<DiagnosticCheck> = Vec::new();
    let mut first = count_finding("omada", "omada_controllers_count", controller_ids.len(), " Omada controllers registered", count_ms);
    first.details = Some(json_object(vec![
        (owned("count"), json_of(controller_ids.len() as u64)),
        (owned("ids"), json_of(clone_strings(controller_ids))),
    ]));
    r.push(first);
    let second = match devices {
        Ok(st) => {
            let mut c = finding("omada", owned("omada_device_count"), "ok", device_count_message(st), devices_ms);
            let online = online_count(st);
            c.details = Some(json_object(vec![
                (owned("total"), json_of(st.len() as u64)),
                (owned("online"), json_of(online as u64)),
            ]));
            c
        },
        Err(e) => failure_finding("omada", "omada_device_count", "Failed to query Omada devices", e.as_str(), devices_ms),
    };
    proof {
        reveal_strlit("Failed to query Omada devices");
        reveal_strlit(": ");
        reveal_strlit("Failed to query Omada devices: ");
    }
    r.push(second);
    if include_device_tests {
        let mut j: usize = 0;
        while j < lookups.len()
            invariant
                j <= lookups.len(),
                r@.len() == 2 + j,
                forall|k: int| 0 <= k < j ==> {
                    let c = #[trigger] r@[2 + k];
                    let l = lookups@[k];
                    &&& c.category@ == "omada"@
                    &&& c.name@ == "omada_connectivity_"@ + l.0@
                    &&& c.duration_ms == l.2
                    &&& (c.status@, c.message@) == spec_controller_check(l.0@, l.1)
                },
                r@[0].category@ == "omada"@ && r@[0].name@ == "omada_controllers_count"@ && r@[0].duration_ms == count_ms,
                r@[0].status@ == spec_count_status(controller_ids@.len()),
                r@[0].message@ == decimal_nat(controller_ids@.len()) + " Omada controllers registered"@,
                r@[1].category@ == "omada"@ && r@[1].name@ == "omada_device_count"@ && r@[1].duration_ms == devices_ms,
                match devices {
                    Ok(st) => r@[1].status@ == "ok"@ && r@[1].message@ == decimal_nat(st@.len()) + " devices ("@
                        + decimal_nat(count_where(st@, |s: i32| s == 1)) + " online)"@,
                    Err(e) => r@[1].status@ == "error"@ && r@[1].message@ == "Failed to query Omada devices: "@ + e@
                        && r@[1].details is None,
                },
            decreases lookups.len() - j,
        {
            let l = &lookups[j];
            let mut name = owned("omada_connectivity_");
            append_str(&mut name, l.0.as_str());
            let (status, message) = match &l.1 {
                Ok(Some(c)) => connection_status("Controller", c.0.as_str(), c.1.as_str(), &c.2, " has error"),
                Ok(None) => {
                    let mut m = owned("Controller '");
                    append_str(&mut m, l.0.as_str());
                    append_str(&mut m, "' not found in DB");
                    (owned("warning"), m)
                },
                Err(e) => {
                    let mut m = owned("Query failed: ");
                    append_str(&mut m, e.as_str());
                    (owned("error"), m)
                },
            };
            let details = match &l.1 {
                Ok(Some(c)) => Some(json_object(vec![
                    (owned("controller_id"), json_of(l.0.clone())),
                    (owned("display_name"), json_of(c.0.clone())),
                    (owned("last_synced_at"), json_of(clone_opt(&c.3))),
                ])),
                _ => None,
            };
            r.push(DiagnosticCheck { category: owned("omada"), name, status, message, details, duration_ms: l.2 });
            j = j + 1;
        }
    }
    r
}

/// The statuses of some findings.
pub open spec fn status_views(cs: Seq<DiagnosticCheck>) -> Seq<Seq<char>> {
    cs.map_values(|c: DiagnosticCheck| c.status@)
}

/// The findings of several categories, one after the other.
pub open spec fn joined_findings(per_category: Seq<Vec<DiagnosticCheck>>) -> Seq<DiagnosticCheck>
    decreases per_category.len(),
{
    if per_category.len() == 0 {
        Seq::empty()
    } else {
        per_category[0]@ + joined_findings(per_category.drop_first())
    }
}

/// The report of a run: the findings of the categories in the order they
/// were run, and the summary of their statuses (see `summarize`).
pub fn diagnostics_report(per_category: Vec<Vec<DiagnosticCheck>>) -> (r: (Vec<DiagnosticCheck>, DiagnosticSummary))
    ensures
        r.0@ == joined_findings(per_category@),
        r.1.total == r.0@.len(),
        r.1.ok == count_where(status_views(r.0@), has_status("ok"@)),
        r.1.warning == count_where(status_views(r.0@), has_status("warning"@)),
        r.1.error == count_where(status_views(r.0@), has_status("error"@)),
{
    let ghost all = per_category@;
    let mut rest = per_category;
    let mut checks: Vec<DiagnosticCheck> = Vec::new();
    while rest.len() > 0
        invariant
            checks@ + joined_findings(rest@) == joined_findings(all),
        decreases rest@.len(),
    {
        let ghost before = rest@;
        let mut v = rest.remove(0);
        assert(rest@ =~= before.drop_first());
        let ghost cv = checks@;
        checks.append(&mut v);
        assert(checks@ + joined_findings(rest@) =~= cv + joined_findings(before));
    }
    assert(checks@ + joined_findings(rest@) =~= checks@);
    let mut statuses: Vec<String> = Vec::new();
    let mut i: usize = 0;
    while i < checks.len()
        invariant
            i <= checks.len(),
            statuses@.map_values(|s: String| s@) == status_views(checks@).take(i as int),
        decreases checks.len() - i,
    {
        let ghost b = statuses@.map_values(|s: String| s@);
        statuses.push(owned(checks[i].status.as_str()));
        assert(statuses@.map_values(|s: String| s@) =~= b.push(checks@[i as int].status@));
        assert(status_views(checks@).take(i + 1) =~= status_views(checks@).take(i as int).push(checks@[i as int].status@));
        i = i + 1;
    }
    assert(status_views(checks@).take(checks.len() as int) =~= status_views(checks@));
    let summary = summarize(&statuses);
    (checks, summary)
}

/// How a route answered a reachability probe: below 500 it is reachable,
/// from 500 on the server fails; no answer is unreachable.
pub open spec fn spec_reachability(code: Option<u16>, error: Seq<char>) -> (Seq<char>, Seq<char>) {
    match code {
        Some(c) => if c < 500 {
            ("ok"@, "Reachable (HTTP "@ + decimal_nat(c as nat) + ")"@)
        } else {
            ("warning"@, "Server error (HTTP "@ + decimal_nat(c as nat) + ")"@)
        },
        None => ("error"@, "Unreachable: "@ + error),
    }
}

pub fn reachability(code: Option<u16>, error: &str) -> (r: (String, String))
    ensures
        (r.0@, r.1@) == spec_reachability(code, error@),
{
    match code {
        Some(c) => {
            let (st, pre) = if c < 500 { (owned("ok"), "Reachable (HTTP ") } else { (owned("warning"), "Server error (HTTP ") };
            let mut m = owned(pre);
            append_str(&mut m, decimal_u64(c as u64).as_str());
            append_str(&mut m, ")");
            (st, m)
        },
        None => {
            let mut m = owned("Unreachable: ");
            append_str(&mut m, error);
            (owned("error"), m)
        },
    }
}

/// The judgement of a registered device by its stored status: `connected`
/// is fine, `error` is an error (with the stored error, or `unknown`), any
/// other status is a warning.
pub open spec fn spec_connection_status(kind: Seq<char>, name: Seq<char>, status: Seq<char>, last_error: Option<Seq<char>>,
    error_word: Seq<char>) -> (Seq<char>, Seq<char>) {
    let subject = kind + " '"@ + name + "'"@;
    if status == "connected"@ {
        ("ok"@, subject + " connected"@)
    } else if status == "error"@ {
        ("error"@, subject + error_word + ": "@ + match last_error { Some(e) => e, None => "unknown"@ })
    } else {
        ("warning"@, subject + " status: "@ + status)
    }
}

/// The judgement of a registered controller, router or device (see
/// `spec_connection_status`); `error_word` is how the error is introduced
/// (` has error` for controllers, ` error` otherwise).
pub fn connection_status(kind: &str, name: &str, status: &str, last_error: &Option<String>, error_word: &str) -> (r: (String, String))
    ensures
        (r.0@, r.1@) == spec_connection_status(kind@, name@, status@, opt_view(*last_error), error_word@),
{
    let mut m = owned(kind);
    append_str(&mut m, " '");
    append_str(&mut m, name);
    append_str(&mut m, "'");
    if str_eq(status, "connected") {
        append_str(&mut m, " connected");
        (owned("ok"), m)
    } else if str_eq(status, "error") {
        append_str(&mut m, error_word);
        append_str(&mut m, ": ");
        match last_error {
            Some(e) => append_str(&mut m, e.as_str()),
            None => append_str(&mut m, "unknown"),
        }
        (owned("error"), m)
    } else {
        append_str(&mut m, " status: ");
        append_str(&mut m, status);
        (owned("warning"), m)
    }
}

/// The Omada device finding's message: `{total} devices ({online} online)`,
/// where online devices have status 1.
pub fn device_count_message(statuses: &Vec<i32>) -> (r: String)
    ensures
        r@ == decimal_nat(statuses.len() as nat) + " devices ("@
            + decimal_nat(count_where(statuses@, |s: i32| s == 1)) + " online)"@,
{
    let ghost p = |s: i32| s == 1;
    let mut online: usize = 0;
    let mut i: usize = 0;
    while i < statuses.len()
        invariant
            i <= statuses.len(),
            p == (|s: i32| s == 1),
            online == count_where(statuses@.take(i as int), p),
            online <= i,
        decreases statuses.len() - i,
    {
        proof {
            lemma_count_step(statuses@, p, i as int);
        }
        if statuses[i] == 1 {
            online = online + 1;
        }
        i = i + 1;
    }
    assert(statuses@.take(statuses.len() as int) =~= statuses@);
    let mut m = decimal_u64(statuses.len() as u64);
    append_str(&mut m, " devices (");
    append_str(&mut m, decimal_u64(online as u64).as_str());
    append_str(&mut m, " online)");
    m
}

/// The result of resolving a DDNS hostname: its addresses (`ok`), none
/// (`warning`), or the resolver's error (`error`).
pub open spec fn spec_resolution(addresses: Option<Seq<Seq<char>>>, error: Seq<char>) -> (Seq<char>, Seq<char>) {
    match addresses {
        Some(a) => if a.len() == 0 {
            ("warning"@, "Resolved but no addresses returned"@)
        } else {
            ("ok"@, "Resolved to: "@ + joined(a, ", "@))
        },
        None => ("error"@, "DNS resolution failed: "@ + error),
    }
}

/// Items joined with a separator.
pub open spec fn joined(items: Seq<Seq<char>>, sep: Seq<char>) -> Seq<char>
    decreases items.len(),
{
    if items.len() == 0 {
        Seq::empty()
    } else if items.len() == 1 {
        items[0]
    } else {
        joined(items.drop_last(), sep) + sep + items.last()
    }
}

pub fn join_with(items: &Vec<String>, sep: &str) -> (r: String)
    ensures
        r@ == joined(items@.map_values(|s: String| s@), sep@),
{
    let ghost v = items@.map_values(|s: String| s@);
    let mut r = String::new();
    let mut i: usize = 0;
    while i < items.len()
        invariant
            i <= items.len(),
            v == items@.map_values(|s: String| s@),
            r@ == joined(v.take(i as int), sep@),
        decreases items.len() - i,
    {
        assert(v.take(i + 1).drop_last() =~= v.take(i as int));
        assert(v.take(i + 1).last() == items@[i as int]@);
        if i > 0 {
            append_str(&mut r, sep);
        }
        append_str(&mut r, items[i].as_str());
        proof {
            if i == 0 {
                assert(r@ =~= v.take(1)[0]);
            }
        }
        i = i + 1;
    }
    assert(v.take(v.len() as int) =~= v);
    r
}

pub fn resolution(addresses: &Option<Vec<String>>, error: &str) -> (r: (String, String))
    ensures
        (r.0@, r.1@) == spec_resolution(match addresses { Some(a) => Some(a@.map_values(|s: String| s@)), None => None }, error@),
{
    match addresses {
        Some(a) => {
            if a.len() == 0 {
                (owned("warning"), owned("Resolved but no addresses returned"))
            } else {
                let mut m = owned("Resolved to: ");
                append_str(&mut m, join_with(a, ", ").as_str());
                (owned("ok"), m)
            }
        },
        None => {
            let mut m = owned("DNS resolution failed: ");
            append_str(&mut m, error);
            (owned("error"), m)
        },
    }
}

/// The Aranea configuration check: fine when the tenant id and the tenant
/// LacisID are both set; else a warning naming what is missing.
pub open spec fn spec_aranea_check(tid: Seq<char>, tenant_lacis_id: Seq<char>) -> (Seq<char>, Seq<char>) {
    if tid.len() > 0 && tenant_lacis_id.len() > 0 {
        ("ok"@, "Aranea config valid (tid="@ + tid + ", tenant_lacis_id="@ + tenant_lacis_id + ")"@)
    } else {
        ("warning"@, "Aranea config incomplete, missing: "@ + joined(
            (if tid.len() == 0 { seq!["tid"@] } else { seq![] }) + (if tenant_lacis_id.len() == 0 { seq!["tenant_lacis_id"@] } else { seq![] }),
            ", "@))
    }
}

pub fn aranea_check(tid: &str, tenant_lacis_id: &str) -> (r: (String, String))
    ensures
        (r.0@, r.1@) == spec_aranea_check(tid@, tenant_lacis_id@),
{
    let tid_ok = !tid.is_empty();
    let lacis_ok = !tenant_lacis_id.is_empty();
    if tid_ok && lacis_ok {
        let mut m = owned("Aranea config valid (tid=");
        append_str(&mut m, tid);
        append_str(&mut m, ", tenant_lacis_id=");
        append_str(&mut m, tenant_lacis_id);
        append_str(&mut m, ")");
        (owned("ok"), m)
    } else {
        let mut missing: Vec<String> = Vec::new();
        if !tid_ok {
            missing.push(owned("tid"));
        }
        if !lacis_ok {
            missing.push(owned("tenant_lacis_id"));
        }
        assert(missing@.map_values(|s: String| s@) =~= (if tid@.len() == 0 { seq!["tid"@] } else { seq![] })
            + (if tenant_lacis_id@.len() == 0 { seq!["tenant_lacis_id"@] } else { seq![] }));
        let mut m = owned("Aranea config incomplete, missing: ");
        append_str(&mut m, join_with(&missing, ", ").as_str());
        (owned("warning"), m)
    }
}

/// `LPG2 uptime: {h}h {m}m`.
pub fn uptime_message(uptime_secs: u64) -> (r: String)
    ensures
        r@ == "LPG2 uptime: "@ + decimal_nat((uptime_secs / 3600) as nat) + "h "@
            + decimal_nat(((uptime_secs % 3600) / 60) as nat) + "m"@,
{
    let mut m = owned("LPG2 uptime: ");
    append_str(&mut m, decimal_u64(uptime_secs / 3600).as_str());
    append_str(&mut m, "h ");
    append_str(&mut m, decimal_u64((uptime_secs % 3600) / 60).as_str());
    append_str(&mut m, "m");
    m
}

/// The disk finding from `df -h /`: on its second line (at least five
/// words), the use percentage (the fifth word without `%`, 0 when unreadable)
/// is an error from 90, a warning from 75, else fine.
pub open spec fn spec_disk_check(df_output: Seq<char>) -> (Seq<char>, Seq<char>) {
    let ls = text_lines(df_output);
    if ls.len() >= 2 {
        let w = words(ls[1]);
        if w.len() >= 5 {
            let pct: u32 = match parsed_in_range(strip_trailing(w[4], '%'), false, 0, 4294967295) {
                Some(v) => v as u32,
                None => 0u32,
            };
            (if pct >= 90 { "error"@ } else if pct >= 75 { "warning"@ } else { "ok"@ },
                "Disk usage: "@ + w[2] + " ("@ + decimal_nat(pct as nat) + "% used)"@)
        } else {
            ("warning"@, "Could not parse df output"@)
        }
    } else {
        ("warning"@, "Unexpected df output"@)
    }
}

pub fn disk_check(df_output: &str) -> (r: (String, String))
    ensures
        (r.0@, r.1@) == spec_disk_check(df_output@),
{
    let lines = lines_of(df_output);
    if lines.len() >= 2 {
        let w = words_of(lines[1].as_str());
        assert(lines@.map_values(|l: String| l@)[1] == lines@[1]@);
        if w.len() >= 5 {
            assert(w@.map_values(|x: String| x@)[4] == w@[4]@);
            assert(w@.map_values(|x: String| x@)[2] == w@[2]@);
            let p = strip_trailing_char(w[4].as_str(), '%');
            let pct: u32 = match parse_u32(p.as_str()) {
                Some(v) => v,
                None => 0,
            };
            let st = if pct >= 90 { owned("error") } else if pct >= 75 { owned("warning") } else { owned("ok") };
            let mut m = owned("Disk usage: ");
            append_str(&mut m, w[2].as_str());
            append_str(&mut m, " (");
            append_str(&mut m, decimal_u64(pct as u64).as_str());
            append_str(&mut m, "% used)");
            (st, m)
        } else {
            (owned("warning"), owned("Could not parse df output"))
        }
    } else {
        (owned("warning"), owned("Unexpected df output"))
    }
}

} // verus!
