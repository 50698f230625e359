//! Dashboard figures: server health read from system reports, the SSL
//! certificate status, overall route health, and access log export.

use vstd::prelude::*;
use crate::node_order::opt_view;
use crate::seqs::{count_where, first_index, lemma_count_le, lemma_count_step, lemma_first_is, lemma_first_none};
use crate::text::{
    append_str, chars_of, contains_char, contains_str, decimal_i64, decimal_int, decimal_nat, decimal_u64,
    has_substring, is_prefix, lines_of, opt_piece, owned, parse_u64, parsed_in_range, remove_all, remove_all_of,
    second_piece, second_piece_of, split_on, split_str, starts_with, str_eq, strip_both, strip_both_char,
    strip_trailing, strip_trailing_char, text_lines, trim_str, trimmed, words, words_of,
};

verus! {

/// Counts for the dashboard.
pub struct DashboardStats {
    pub total_requests_today: u64,
    pub active_routes: u32,
    pub active_ddns: u32,
    pub blocked_ips: u32,
    pub server_health: String,
    pub uptime_seconds: u64,
}

/// Dashboard query with the IPs to leave out.
pub struct DashboardStatsQuery {
    pub exclude_ips: Option<String>,
    pub exclude_lan: Option<bool>,
}

/// Dashboard page query with the IPs to leave out.
pub struct DashboardPaginationQuery {
    pub limit: i64,
    pub offset: i64,
    pub exclude_ips: Option<String>,
    pub exclude_lan: Option<bool>,
}

/// How many of today's requests ended with one status code.
pub struct StatusDistribution {
    pub status: i32,
    pub count: u64,
}

/// Access log filter by path or client.
pub struct LogFilterQuery {
    pub limit: i64,
    pub path: Option<String>,
    pub ip: Option<String>,
}

/// A time window for the analytics endpoints.
pub struct TimeRangeQuery {
    pub from: Option<String>,
    pub to: Option<String>,
    pub limit: Option<i64>,
    pub exclude_ips: Option<String>,
    pub exclude_lan: Option<bool>,
}

/// Which IPs to leave out of the statistics.
pub struct IpExclusionParams {
    pub exclude_ips: Option<String>,
    pub exclude_lan: Option<bool>,
}

/// A key (IP or path) with its request and error counts.
pub struct TopEntry {
    pub key: String,
    pub count: u64,
    pub error_count: u64,
}

/// Errors of one status code and the paths they came from.
pub struct ErrorSummary {
    pub status: i32,
    pub count: u64,
    pub paths: Vec<String>,
}

// ----------------------------------------------------------------------------
// Overall route health
// ----------------------------------------------------------------------------

/// `healthy` with no failing route, `degraded` while fewer than half of the
/// checked routes fail, `unhealthy` otherwise.
pub open spec fn spec_server_health(unhealthy: nat, checked: nat) -> Seq<char> {
    if unhealthy == 0 {
        "healthy"@
    } else if unhealthy < checked / 2 {
        "degraded"@
    } else {
        "unhealthy"@
    }
}

/// The overall health from the latest check of each route (`true` healthy).
pub fn server_health(checks: &Vec<bool>) -> (r: String)
    ensures
        r@ == spec_server_health(checks@.filter(|h: bool| !h).len(), checks@.len()),
{
    let mut unhealthy: usize = 0;
    let mut i: usize = 0;
    while i < checks.len()
        invariant
            i <= checks.len(),
            unhealthy <= i,
            unhealthy == checks@.take(i as int).filter(|h: bool| !h).len(),
        decreases checks.len() - i,
    {
        proof {
            reveal_with_fuel(Seq::filter, 1);
            assert(checks@.take(i + 1).drop_last() =~= checks@.take(i as int));
        }
        if !checks[i] {
            unhealthy = unhealthy + 1;
        }
        i = i + 1;
    }
    assert(checks@.take(checks.len() as int) =~= checks@);
    if unhealthy == 0 {
        owned("healthy")
    } else if unhealthy < checks.len() / 2 {
        owned("degraded")
    } else {
        owned("unhealthy")
    }
}

// ----------------------------------------------------------------------------
// Access log export
// ----------------------------------------------------------------------------

/// A CSV field: wrapped in quotes, with its quotes doubled, when it holds a
/// comma, a quote or a newline; else as it is.
pub open spec fn spec_csv_escape(s: Seq<char>) -> Seq<char> {
    if s.contains(',') || s.contains('"') || s.contains('\n') {
        seq!['"'] + double_quotes(s) + seq!['"']
    } else {
        s
    }
}

/// `s` with every `"` doubled.
pub open spec fn double_quotes(s: Seq<char>) -> Seq<char>
    decreases s.len(),
{
    if s.len() == 0 {
        s
    } else if s.last() == '"' {
        double_quotes(s.drop_last()) + seq!['"', '"']
    } else {
        double_quotes(s.drop_last()).push(s.last())
    }
}

pub fn csv_escape(s: &str) -> (r: String)
    ensures
        r@ == spec_csv_escape(s@),
{
    let cs = chars_of(s);
    if contains_char(&cs, ',') || contains_char(&cs, '"') || contains_char(&cs, '\n') {
        let mut out = String::new();
        crate::text::push_char(&mut out, '"');
        let mut i: usize = 0;
        while i < cs.len()
            invariant
                i <= cs.len(),
                cs@ == s@,
                out@ == seq!['"'] + double_quotes(s@.take(i as int)),
            decreases cs.len() - i,
        {
            assert(s@.take(i + 1).drop_last() =~= s@.take(i as int));
            assert(s@.take(i + 1).last() == cs@[i as int]);
            let ghost before = out@;
            crate::text::push_char(&mut out, cs[i]);
            if cs[i] == '"' {
                crate::text::push_char(&mut out, '"');
                assert(out@ =~= seq!['"'] + double_quotes(s@.take(i + 1)));
            } else {
                assert(out@ =~= seq!['"'] + double_quotes(s@.take(i + 1)));
            }
            i = i + 1;
        }
        assert(s@.take(cs.len() as int) =~= s@);
        crate::text::push_char(&mut out, '"');
        out
    } else {
        owned(s)
    }
}

/// The header line of the access log export.
pub fn csv_header() -> (r: String)
    ensures
        r@ == "timestamp,ip,method,path,status,response_time_ms,user_agent,referer\n"@,
{
    owned("timestamp,ip,method,path,status,response_time_ms,user_agent,referer\n")
}

/// One access log record as a CSV line; the text fields are escaped, an
/// absent user agent or referer is empty.
pub open spec fn spec_csv_row(timestamp: Seq<char>, ip: Seq<char>, method: Seq<char>, path: Seq<char>, status: i32,
    response_time_ms: i32, user_agent: Option<Seq<char>>, referer: Option<Seq<char>>) -> Seq<char> {
    timestamp + ","@ + spec_csv_escape(ip) + ","@ + spec_csv_escape(method) + ","@ + spec_csv_escape(path) + ","@
        + decimal_int(status as int) + ","@ + decimal_int(response_time_ms as int) + ","@
        + spec_csv_escape(match user_agent { Some(u) => u, None => Seq::empty() }) + ","@
        + spec_csv_escape(match referer { Some(r) => r, None => Seq::empty() }) + "\n"@
}

pub fn csv_row(timestamp: &str, ip: &str, method: &str, path: &str, status: i32, response_time_ms: i32,
    user_agent: &Option<String>, referer: &Option<String>) -> (r: String)
    ensures
        r@ == spec_csv_row(timestamp@, ip@, method@, path@, status, response_time_ms, opt_view(*user_agent), opt_view(*referer)),
{
    let mut r = owned(timestamp);
    append_str(&mut r, ",");
    append_str(&mut r, csv_escape(ip).as_str());
    append_str(&mut r, ",");
    append_str(&mut r, csv_escape(method).as_str());
    append_str(&mut r, ",");
    append_str(&mut r, csv_escape(path).as_str());
    append_str(&mut r, ",");
    append_str(&mut r, decimal_i64(status as i64).as_str());
    append_str(&mut r, ",");
    append_str(&mut r, decimal_i64(response_time_ms as i64).as_str());
    append_str(&mut r, ",");
    let ua = match user_agent {
        Some(u) => csv_escape(u.as_str()),
        None => csv_escape(String::new().as_str()),
    };
    append_str(&mut r, ua.as_str());
    append_str(&mut r, ",");
    let rf = match referer {
        Some(x) => csv_escape(x.as_str()),
        None => csv_escape(String::new().as_str()),
    };
    append_str(&mut r, rf.as_str());
    append_str(&mut r, "\n");
    r
}

/// How many records an export asks for: at most 10000, and 10000 when the
/// request says 0.
pub fn export_limit(limit: i64) -> (r: i64)
    ensures
        r == (if limit >= 10000 || limit == 0 { 10000 } else { limit }),
{
    let l = if limit < 10000 { limit } else { 10000 };
    if l == 0 { 10000 } else { l }
}

// ----------------------------------------------------------------------------
// Server health, read from system reports
// ----------------------------------------------------------------------------

/// Uptime as text: `{d}d {h}h {m}m` from one day on, `{h}h {m}m` from one
/// hour on, else `{m}m`.
pub open spec fn spec_uptime_text(seconds: u64) -> Seq<char> {
    let days = seconds / 86400;
    let hours = (seconds % 86400) / 3600;
    let mins = (seconds % 3600) / 60;
    if days > 0 {
        decimal_nat(days as nat) + "d "@ + decimal_nat(hours as nat) + "h "@ + decimal_nat(mins as nat) + "m"@
    } else if hours > 0 {
        decimal_nat(hours as nat) + "h "@ + decimal_nat(mins as nat) + "m"@
    } else {
        decimal_nat(mins as nat) + "m"@
    }
}

pub fn uptime_text(seconds: u64) -> (r: String)
    ensures
        r@ == spec_uptime_text(seconds),
{
    let days = seconds / 86400;
    let hours = (seconds % 86400) / 3600;
    let mins = (seconds % 3600) / 60;
    let mut r = String::new();
    if days > 0 {
        append_str(&mut r, decimal_u64(days).as_str());
        append_str(&mut r, "d ");
        append_str(&mut r, decimal_u64(hours).as_str());
        append_str(&mut r, "h ");
    } else if hours > 0 {
        append_str(&mut r, decimal_u64(hours).as_str());
        append_str(&mut r, "h ");
    }
    append_str(&mut r, decimal_u64(mins).as_str());
    append_str(&mut r, "m");
    assert(r@ =~= spec_uptime_text(seconds));
    r
}

/// Process counts.
pub struct ProcessInfo {
    pub total: u32,
    pub running: u32,
    pub sleeping: u32,
}

pub open spec fn is_running_line() -> spec_fn(Seq<char>) -> bool {
    |l: Seq<char>| has_substring(l, " R "@) || has_substring(l, " R+ "@)
}

/// Process counts from `ps aux`: every line but the header is a process; a
/// line with ` R ` or ` R+ ` is a running one; the rest sleep.
pub open spec fn spec_process_info(ps_output: Seq<char>) -> (u32, u32, u32) {
    let ls = text_lines(ps_output);
    let total = (if ls.len() >= 1 { ls.len() - 1 } else { 0 }) as u32;
    let running = count_where(ls, is_running_line()) as u32;
    (total, running, if total >= running { (total - running) as u32 } else { 0u32 })
}

pub fn process_info(ps_output: &str) -> (p: ProcessInfo)
    ensures
        (p.total, p.running, p.sleeping) == spec_process_info(ps_output@),
{
    let lines = lines_of(ps_output);
    let ghost lv = lines@.map_values(|l: String| l@);
    let ghost pred = is_running_line();
    let mut running: usize = 0;
    let mut i: usize = 0;
    while i < lines.len()
        invariant
            i <= lines.len(),
            lv == lines@.map_values(|l: String| l@),
            pred == is_running_line(),
            running == count_where(lv.take(i as int), pred),
            running <= i,
        decreases lines.len() - i,
    {
        proof {
            lemma_count_step(lv, pred, i as int);
        }
        assert(lv[i as int] == lines@[i as int]@);
        if contains_str(lines[i].as_str(), " R ") || contains_str(lines[i].as_str(), " R+ ") {
            running = running + 1;
        }
        i = i + 1;
    }
    assert(lv.take(lines.len() as int) =~= lv);
    let total_lines = lines.len();
    let total: u32 = (if total_lines >= 1 { total_lines - 1 } else { 0 }) as u32;
    let run: u32 = running as u32;
    ProcessInfo { total, running: run, sleeping: if total >= run { total - run } else { 0 } }
}

/// Open connections from `ss -tun`: its lines but the header.
pub fn connection_count(ss_output: &str) -> (r: u32)
    ensures
        r == (if text_lines(ss_output@).len() >= 1 { text_lines(ss_output@).len() - 1 } else { 0 }) as u32,
{
    let lines = lines_of(ss_output);
    let n = lines.len();
    (if n >= 1 { n - 1 } else { 0 }) as u32
}

pub open spec fn starts_with_text(p: Seq<char>) -> spec_fn(Seq<char>) -> bool {
    |l: Seq<char>| is_prefix(p, l)
}

fn first_line_with_prefix(lines: &Vec<String>, p: &str) -> (r: Option<usize>)
    ensures
        opt_index(r) == first_index(lines@.map_values(|l: String| l@), starts_with_text(p@)),
        r matches Some(i) ==> i < lines.len(),
{
    let ghost lv = lines@.map_values(|l: String| l@);
    let ghost pred = starts_with_text(p@);
    let pc = chars_of(p);
    let mut i: usize = 0;
    while i < lines.len()
        invariant
            i <= lines.len(),
            lv == lines@.map_values(|l: String| l@),
            pred == starts_with_text(p@),
            pc@ == p@,
            forall|k: int| 0 <= k < i ==> !pred(#[trigger] lv[k]),
        decreases lines.len() - i,
    {
        assert(lv[i as int] == lines@[i as int]@);
        if starts_with(&chars_of(lines[i].as_str()), &pc) {
            proof {
                lemma_first_is(lv, pred, i as int);
            }
            return Some(i);
        }
        i = i + 1;
    }
    proof {
        lemma_first_none(lv, pred);
    }
    None
}

pub open spec fn opt_index(o: Option<usize>) -> Option<int> {
    match o {
        Some(i) => Some(i as int),
        None => None,
    }
}

/// The CPU model from `/proc/cpuinfo`: after the `:` of the first line that
/// starts with `model name`, trimmed; `Unknown` without such a line.
pub open spec fn spec_cpu_model(cpuinfo: Seq<char>) -> Seq<char> {
    let ls = text_lines(cpuinfo);
    match first_index(ls, starts_with_text("model name"@)) {
        Some(i) => {
            let ps = split_on(ls[i], ':');
            trimmed(if ps.len() > 1 { ps[1] } else { Seq::empty() })
        },
        None => "Unknown"@,
    }
}

pub fn cpu_model(cpuinfo: &str) -> (r: String)
    ensures
        r@ == spec_cpu_model(cpuinfo@),
{
    let lines = lines_of(cpuinfo);
    match first_line_with_prefix(&lines, "model name") {
        Some(i) => {
            let ps = split_str(lines[i].as_str(), ':');
            assert(lines@.map_values(|l: String| l@)[i as int] == lines@[i as int]@);
            if ps.len() > 1 {
                assert(ps@[1]@ == split_on(lines@[i as int]@, ':')[1]);
                trim_str(ps[1].as_str())
            } else {
                trim_str(String::new().as_str())
            }
        },
        None => owned("Unknown"),
    }
}

/// The number of CPU cores: the lines of `/proc/cpuinfo` that start with
/// `processor`.
pub fn cpu_cores(cpuinfo: &str) -> (r: u32)
    ensures
        r == count_where(text_lines(cpuinfo@), starts_with_text("processor"@)) as u32,
{
    let lines = lines_of(cpuinfo);
    let ghost lv = lines@.map_values(|l: String| l@);
    let ghost pred = starts_with_text("processor"@);
    let pc = chars_of("processor");
    let mut n: usize = 0;
    let mut i: usize = 0;
    while i < lines.len()
        invariant
            i <= lines.len(),
            lv == lines@.map_values(|l: String| l@),
            pred == starts_with_text("processor"@),
            pc@ == "processor"@,
            n == count_where(lv.take(i as int), pred),
            n <= i,
        decreases lines.len() - i,
    {
        proof {
            lemma_count_step(lv, pred, i as int);
        }
        assert(lv[i as int] == lines@[i as int]@);
        if starts_with(&chars_of(lines[i].as_str()), &pc) {
            n = n + 1;
        }
        i = i + 1;
    }
    assert(lv.take(lines.len() as int) =~= lv);
    n as u32
}

/// The operating system name: the `lsb_release -ds` output without its
/// quotes; when that is empty, the `PRETTY_NAME=` line of `/etc/os-release`
/// without the key and its quotes; else `Linux`.
pub open spec fn spec_os_name(lsb: Seq<char>, os_release: Option<Seq<char>>) -> Seq<char> {
    let l = strip_both(lsb, '"');
    if l.len() > 0 {
        l
    } else {
        match os_release {
            Some(c) => match first_index(text_lines(c), starts_with_text("PRETTY_NAME="@)) {
                Some(i) => strip_both(remove_all(text_lines(c)[i], "PRETTY_NAME="@), '"'),
                None => "Linux"@,
            },
            None => "Linux"@,
        }
    }
}

pub fn os_name(lsb: &str, os_release: &Option<String>) -> (r: String)
    ensures
        r@ == spec_os_name(lsb@, opt_view(*os_release)),
{
    let l = strip_both_char(lsb, '"');
    if !l.as_str().is_empty() {
        return l;
    }
    match os_release {
        Some(c) => {
            let lines = lines_of(c.as_str());
            match first_line_with_prefix(&lines, "PRETTY_NAME=") {
                Some(i) => {
                    assert(lines@.map_values(|l: String| l@)[i as int] == lines@[i as int]@);
                    proof { reveal_strlit("PRETTY_NAME="); }
                    let v = remove_all_of(lines[i].as_str(), "PRETTY_NAME=");
                    strip_both_char(v.as_str(), '"')
                },
                None => owned("Linux"),
            }
        },
        None => owned("Linux"),
    }
}

// ----------------------------------------------------------------------------
// Network, memory
// ----------------------------------------------------------------------------

/// A network interface with its traffic counters.
pub struct NetworkInterface {
    pub name: String,
    pub ip: Option<String>,
    pub rx_bytes: u64,
    pub tx_bytes: u64,
}

/// The network part of the server health.
pub struct NetworkInfo {
    pub interfaces: Vec<NetworkInterface>,
    pub connections: u32,
}

/// A counter as read from a report: its number, or 0 when it is none.
pub open spec fn counter(s: Seq<char>) -> u64 {
    match parsed_in_range(s, false, 0, 18446744073709551615) {
        Some(v) => v as u64,
        None => 0u64,
    }
}

fn counter_of(s: &str) -> (r: u64)
    ensures
        r == counter(s@),
{
    match parse_u64(s) {
        Some(v) => v,
        None => 0,
    }
}

/// An interface line of `/proc/net/dev`: at least ten words; the name (the
/// first word without its `:`), received bytes (second word) and sent bytes
/// (tenth word); the loopback `lo` is left out.
pub open spec fn net_dev_entry(line: Seq<char>) -> Option<(Seq<char>, u64, u64)> {
    let w = words(line);
    if w.len() >= 10 && strip_trailing(w[0], ':') != "lo"@ {
        Some((strip_trailing(w[0], ':'), counter(w[1]), counter(w[9])))
    } else {
        None
    }
}

/// The interfaces of some lines of `/proc/net/dev`, in order.
pub open spec fn net_dev_entries(ls: Seq<Seq<char>>) -> Seq<(Seq<char>, u64, u64)>
    decreases ls.len(),
{
    if ls.len() == 0 {
        Seq::empty()
    } else {
        match net_dev_entry(ls.last()) {
            Some(e) => net_dev_entries(ls.drop_last()).push(e),
            None => net_dev_entries(ls.drop_last()),
        }
    }
}

pub open spec fn interface_views(v: Seq<NetworkInterface>) -> Seq<(Seq<char>, u64, u64)> {
    v.map_values(|n: NetworkInterface| (n.name@, n.rx_bytes, n.tx_bytes))
}

/// The lines after the first `n` (none when there are no more).
pub open spec fn after_lines(ls: Seq<Seq<char>>, n: int) -> Seq<Seq<char>> {
    if ls.len() <= n { Seq::empty() } else { ls.skip(n) }
}

/// The interfaces of `/proc/net/dev` (its two header lines skipped), with
/// no address yet.
pub fn parse_net_dev(content: &str) -> (r: Vec<NetworkInterface>)
    ensures
        interface_views(r@) == net_dev_entries(after_lines(text_lines(content@), 2)),
        forall|k: int| 0 <= k < r@.len() ==> (#[trigger] r@[k]).ip is None,
{
    let lines = lines_of(content);
    let ghost lv = lines@.map_values(|l: String| l@);
    let ghost body = after_lines(lv, 2);
    let mut r: Vec<NetworkInterface> = Vec::new();
    if lines.len() <= 2 {
        return r;
    }
    let mut i: usize = 2;
    assert(body.take(0) =~= Seq::<Seq<char>>::empty());
    while i < lines.len()
        invariant
            2 <= i <= lines.len(),
            lv == lines@.map_values(|l: String| l@),
            lv.len() > 2,
            body == lv.skip(2),
            interface_views(r@) == net_dev_entries(body.take(i - 2)),
            forall|k: int| 0 <= k < r@.len() ==> (#[trigger] r@[k]).ip is None,
        decreases lines.len() - i,
    {
        assert(body.take(i - 1).drop_last() =~= body.take(i - 2));
        assert(body.take(i - 1).last() == lines@[i as int]@);
        let w = words_of(lines[i].as_str());
        let ghost before = interface_views(r@);
        if w.len() >= 10 {
            let name = strip_trailing_char(w[0].as_str(), ':');
            if !str_eq(name.as_str(), "lo") {
                let rx = counter_of(w[1].as_str());
                let tx = counter_of(w[9].as_str());
                r.push(NetworkInterface { name, ip: None, rx_bytes: rx, tx_bytes: tx });
                assert(interface_views(r@) =~= before.push(net_dev_entry(lines@[i as int]@)->0));
            }
        }
        i = i + 1;
    }
    assert(body.take(lines.len() - 2) =~= body);
    r
}

/// A disk of the server, as `df -BG --output=target,fstype,size,used,avail,pcent`
/// reports it: sizes in gigabytes and the usage in percent, as the texts `df`
/// wrote without their unit (an empty text where `df` gave none).
pub struct DiskRow {
    pub mount_point: String,
    pub filesystem: String,
    pub total_gb: String,
    pub used_gb: String,
    pub free_gb: String,
    pub usage_percent: String,
}

pub open spec fn disk_view(d: DiskRow) -> Seq<Seq<char>> {
    seq![d.mount_point@, d.filesystem@, d.total_gb@, d.used_gb@, d.free_gb@, d.usage_percent@]
}

pub open spec fn disk_views(v: Seq<DiskRow>) -> Seq<Seq<Seq<char>>> {
    v.map_values(|d: DiskRow| disk_view(d))
}

/// The mounts the disk report shows: `/`, and those under `/dev`, `/home`
/// or `/var`; the virtual file systems are left out.
pub open spec fn kept_mount(m: Seq<char>) -> bool {
    is_prefix("/dev"@, m) || m == "/"@ || is_prefix("/home"@, m) || is_prefix("/var"@, m)
}

/// The disk a `df` row describes, when it has at least six words and a
/// mount that the report shows.
pub open spec fn disk_entry(line: Seq<char>) -> Option<Seq<Seq<char>>> {
    let w = words(line);
    if w.len() >= 6 && kept_mount(w[0]) {
        Some(seq![w[0], w[1], strip_trailing(w[2], 'G'), strip_trailing(w[3], 'G'), strip_trailing(w[4], 'G'),
            strip_trailing(w[5], '%')])
    } else {
        None
    }
}

pub open spec fn disk_entries(ls: Seq<Seq<char>>) -> Seq<Seq<Seq<char>>>
    decreases ls.len(),
{
    if ls.len() == 0 {
        Seq::empty()
    } else {
        match disk_entry(ls.last()) {
            Some(e) => disk_entries(ls.drop_last()).push(e),
            None => disk_entries(ls.drop_last()),
        }
    }
}

/// The disk of a `df -h /` row with at least six words: mounted at `/`, its
/// file system the first word, its usage the fifth without `%`, no sizes.
pub open spec fn root_disk_entry(line: Seq<char>) -> Option<Seq<Seq<char>>> {
    let w = words(line);
    if w.len() >= 6 {
        Some(seq!["/"@, w[0], Seq::empty(), Seq::empty(), Seq::empty(), strip_trailing(w[4], '%')])
    } else {
        None
    }
}

pub open spec fn root_disk_entries(ls: Seq<Seq<char>>) -> Seq<Seq<Seq<char>>>
    decreases ls.len(),
{
    if ls.len() == 0 {
        Seq::empty()
    } else {
        match root_disk_entry(ls.last()) {
            Some(e) => root_disk_entries(ls.drop_last()).push(e),
            None => root_disk_entries(ls.drop_last()),
        }
    }
}

fn has_text_prefix(s: &str, p: &str) -> (r: bool)
    ensures
        r == is_prefix(p@, s@),
{
    let sc = chars_of(s);
    let pc = chars_of(p);
    starts_with(sc.as_slice(), pc.as_slice())
}

fn is_kept_mount(m: &str) -> (r: bool)
    ensures
        r == kept_mount(m@),
{
    proof {
        reveal_strlit("/dev");
        reveal_strlit("/");
        reveal_strlit("/home");
        reveal_strlit("/var");
    }
    has_text_prefix(m, "/dev") || str_eq(m, "/") || has_text_prefix(m, "/home") || has_text_prefix(m, "/var")
}

/// The disks of a `df -BG --output=target,fstype,size,used,avail,pcent`
/// report (its header line skipped), in order.
pub fn disk_rows(df_output: &str) -> (r: Vec<DiskRow>)
    ensures
        disk_views(r@) == disk_entries(after_lines(text_lines(df_output@), 1)),
{
    let lines = lines_of(df_output);
    let ghost lv = lines@.map_values(|l: String| l@);
    let ghost body = after_lines(lv, 1);
    let mut r: Vec<DiskRow> = Vec::new();
    if lines.len() <= 1 {
        return r;
    }
    let mut i: usize = 1;
    assert(body.take(0) =~= Seq::<Seq<char>>::empty());
    while i < lines.len()
        invariant
            1 <= i <= lines.len(),
            lv == lines@.map_values(|l: String| l@),
            lv.len() > 1,
            body == lv.skip(1),
            disk_views(r@) == disk_entries(body.take(i - 1)),
        decreases lines.len() - i,
    {
        assert(body.take(i as int).drop_last() =~= body.take(i - 1));
        assert(body.take(i as int).last() == lines@[i as int]@);
        let w = words_of(lines[i].as_str());
        let ghost before = disk_views(r@);
        let ghost wv = w@.map_values(|x: String| x@);
        if w.len() >= 6 {
            assert(wv[0] == w@[0]@);
            if is_kept_mount(w[0].as_str()) {
                let d = DiskRow {
                    mount_point: w[0].clone(),
                    filesystem: w[1].clone(),
                    total_gb: strip_trailing_char(w[2].as_str(), 'G'),
                    used_gb: strip_trailing_char(w[3].as_str(), 'G'),
                    free_gb: strip_trailing_char(w[4].as_str(), 'G'),
                    usage_percent: strip_trailing_char(w[5].as_str(), '%'),
                };
                r.push(d);
                assert(disk_view(d) =~= disk_entry(lines@[i as int]@)->0);
                assert(disk_views(r@) =~= before.push(disk_entry(lines@[i as int]@)->0));
            }
        }
        i = i + 1;
    }
    assert(body.take(lines.len() - 1) =~= body);
    r
}

/// The disks of a `df -h /` report (its header line skipped), in order:
/// what the disk report shows when the first report gave no disk.
pub fn root_disk_rows(df_output: &str) -> (r: Vec<DiskRow>)
    ensures
        disk_views(r@) == root_disk_entries(after_lines(text_lines(df_output@), 1)),
{
    let lines = lines_of(df_output);
    let ghost lv = lines@.map_values(|l: String| l@);
    let ghost body = after_lines(lv, 1);
    let mut r: Vec<DiskRow> = Vec::new();
    if lines.len() <= 1 {
        return r;
    }
    let mut i: usize = 1;
    assert(body.take(0) =~= Seq::<Seq<char>>::empty());
    while i < lines.len()
        invariant
            1 <= i <= lines.len(),
            lv == lines@.map_values(|l: String| l@),
            lv.len() > 1,
            body == lv.skip(1),
            disk_views(r@) == root_disk_entries(body.take(i - 1)),
        decreases lines.len() - i,
    {
        assert(body.take(i as int).drop_last() =~= body.take(i - 1));
        assert(body.take(i as int).last() == lines@[i as int]@);
        let w = words_of(lines[i].as_str());
        let ghost before = disk_views(r@);
        let ghost wv = w@.map_values(|x: String| x@);
        if w.len() >= 6 {
            proof {
                reveal_strlit("/");
            }
            let d = DiskRow {
                mount_point: owned("/"),
                filesystem: w[0].clone(),
                total_gb: String::new(),
                used_gb: String::new(),
                free_gb: String::new(),
                usage_percent: strip_trailing_char(w[4].as_str(), '%'),
            };
            r.push(d);
            assert(disk_view(d) =~= root_disk_entry(lines@[i as int]@)->0);
            assert(disk_views(r@) =~= before.push(root_disk_entry(lines@[i as int]@)->0));
        }
        i = i + 1;
    }
    assert(body.take(lines.len() - 1) =~= body);
    r
}

pub open spec fn mentions_inet() -> spec_fn(Seq<char>) -> bool {
    |l: Seq<char>| has_substring(l, "inet "@)
}

/// The IPv4 address in `ip -4 addr show` output: on the first line with
/// `inet `, its second word up to any `/`.
pub open spec fn spec_interface_ip(output: Seq<char>) -> Option<Seq<char>> {
    let ls = text_lines(output);
    match first_index(ls, mentions_inet()) {
        Some(i) => if words(ls[i]).len() >= 2 { Some(split_on(words(ls[i])[1], '/')[0]) } else { None },
        None => None,
    }
}

pub fn interface_ip(output: &str) -> (r: Option<String>)
    ensures
        opt_view(r) == spec_interface_ip(output@),
{
    let lines = lines_of(output);
    let ghost lv = lines@.map_values(|l: String| l@);
    let ghost pred = mentions_inet();
    let mut i: usize = 0;
    while i < lines.len()
        invariant
            i <= lines.len(),
            lv == lines@.map_values(|l: String| l@),
            lv == text_lines(output@),
            pred == mentions_inet(),
            forall|k: int| 0 <= k < i ==> !pred(#[trigger] lv[k]),
        decreases lines.len() - i,
    {
        assert(lv[i as int] == lines@[i as int]@);
        if contains_str(lines[i].as_str(), "inet ") {
            proof {
                lemma_first_is(lv, pred, i as int);
            }
            let w = words_of(lines[i].as_str());
            assert(words(lv[i as int]) == w@.map_values(|x: String| x@));
            if w.len() >= 2 {
                assert(w@.map_values(|x: String| x@)[1] == w@[1]@);
                let parts = split_str(w[1].as_str(), '/');
                proof {
                    crate::text::lemma_split_nonempty(w@[1]@, '/');
                }
                assert(parts@[0]@ == split_on(w@[1]@, '/')[0]);
                return Some(parts[0].clone());
            }
            return None;
        }
        i = i + 1;
    }
    proof {
        lemma_first_none(lv, pred);
    }
    None
}

/// The figures of `/proc/meminfo` that the health report reads, in kB.
pub struct MemoryFigures {
    pub mem_total: u64,
    pub mem_free: u64,
    pub mem_available: u64,
    pub buffers: u64,
    pub cached: u64,
    pub swap_total: u64,
    pub swap_free: u64,
}

/// The value a `/proc/meminfo` line gives a key: its second word as a
/// number (0 when it is none), when its first word is the key.
pub open spec fn meminfo_line(line: Seq<char>, key: Seq<char>) -> Option<u64> {
    let w = words(line);
    if w.len() >= 2 && w[0] == key { Some(counter(w[1])) } else { None }
}

/// A key's value in `/proc/meminfo`: from the last line that gives it; 0
/// when none does.
pub open spec fn meminfo_value(ls: Seq<Seq<char>>, key: Seq<char>) -> u64
    decreases ls.len(),
{
    if ls.len() == 0 {
        0
    } else {
        match meminfo_line(ls.last(), key) {
            Some(v) => v,
            None => meminfo_value(ls.drop_last(), key),
        }
    }
}

pub open spec fn spec_memory_figures(content: Seq<char>, f: MemoryFigures) -> bool {
    let ls = text_lines(content);
    &&& f.mem_total == meminfo_value(ls, "MemTotal:"@)
    &&& f.mem_free == meminfo_value(ls, "MemFree:"@)
    &&& f.mem_available == meminfo_value(ls, "MemAvailable:"@)
    &&& f.buffers == meminfo_value(ls, "Buffers:"@)
    &&& f.cached == meminfo_value(ls, "Cached:"@)
    &&& f.swap_total == meminfo_value(ls, "SwapTotal:"@)
    &&& f.swap_free == meminfo_value(ls, "SwapFree:"@)
}

fn line_value(line: &String, key: &str) -> (r: Option<u64>)
    ensures
        r == meminfo_line(line@, key@),
{
    let w = words_of(line.as_str());
    assert(words(line@) == w@.map_values(|x: String| x@));
    if w.len() >= 2 {
        assert(w@.map_values(|x: String| x@)[0] == w@[0]@);
        assert(w@.map_values(|x: String| x@)[1] == w@[1]@);
        if str_eq(w[0].as_str(), key) {
            return Some(counter_of(w[1].as_str()));
        }
    }
    None
}

fn updated(current: u64, line: &String, key: &str) -> (r: u64)
    ensures
        r == match meminfo_line(line@, key@) { Some(v) => v, None => current },
{
    match line_value(line, key) {
        Some(v) => v,
        None => current,
    }
}

/// The memory figures of `/proc/meminfo`.
pub fn parse_meminfo(content: &str) -> (f: MemoryFigures)
    ensures
        spec_memory_figures(content@, f),
{
    let lines = lines_of(content);
    let ghost lv = lines@.map_values(|l: String| l@);
    let mut f = MemoryFigures { mem_total: 0, mem_free: 0, mem_available: 0, buffers: 0, cached: 0, swap_total: 0, swap_free: 0 };
    let mut i: usize = 0;
    while i < lines.len()
        invariant
            i <= lines.len(),
            lv == lines@.map_values(|l: String| l@),
            spec_memory_figures_of(lv.take(i as int), f),
        decreases lines.len() - i,
    {
        assert(lv.take(i + 1).drop_last() =~= lv.take(i as int));
        assert(lv.take(i + 1).last() == lines@[i as int]@);
        let line = &lines[i];
        f.mem_total = updated(f.mem_total, line, "MemTotal:");
        f.mem_free = updated(f.mem_free, line, "MemFree:");
        f.mem_available = updated(f.mem_available, line, "MemAvailable:");
        f.buffers = updated(f.buffers, line, "Buffers:");
        f.cached = updated(f.cached, line, "Cached:");
        f.swap_total = updated(f.swap_total, line, "SwapTotal:");
        f.swap_free = updated(f.swap_free, line, "SwapFree:");
        i = i + 1;
    }
    assert(lv.take(lines.len() as int) =~= lv);
    f
}

pub open spec fn spec_memory_figures_of(ls: Seq<Seq<char>>, f: MemoryFigures) -> bool {
    &&& f.mem_total == meminfo_value(ls, "MemTotal:"@)
    &&& f.mem_free == meminfo_value(ls, "MemFree:"@)
    &&& f.mem_available == meminfo_value(ls, "MemAvailable:"@)
    &&& f.buffers == meminfo_value(ls, "Buffers:"@)
    &&& f.cached == meminfo_value(ls, "Cached:"@)
    &&& f.swap_total == meminfo_value(ls, "SwapTotal:"@)
    &&& f.swap_free == meminfo_value(ls, "SwapFree:"@)
}

/// Memory in MB: used is the total less free, buffers and cache (never
/// below 0); used swap is the swap total less the free swap (never below 0).
/// The used amounts are also given in kB, from which usage shares are taken.
pub struct MemorySizes {
    pub used_kb: u64,
    pub swap_used_kb: u64,
    pub total_mb: u64,
    pub used_mb: u64,
    pub free_mb: u64,
    pub available_mb: u64,
    pub swap_total_mb: u64,
    pub swap_used_mb: u64,
    pub swap_free_mb: u64,
}

pub fn memory_sizes(f: &MemoryFigures) -> (m: MemorySizes)
    requires
        f.mem_free + f.buffers + f.cached <= u64::MAX,
    ensures
        m.used_kb == (if f.mem_total >= f.mem_free + f.buffers + f.cached { f.mem_total - (f.mem_free + f.buffers + f.cached) } else { 0 }),
        m.swap_used_kb == (if f.swap_total >= f.swap_free { f.swap_total - f.swap_free } else { 0 }),
        m.total_mb == f.mem_total / 1024,
        m.used_mb == (if f.mem_total >= f.mem_free + f.buffers + f.cached { f.mem_total - (f.mem_free + f.buffers + f.cached) } else { 0 }) / 1024,
        m.free_mb == f.mem_free / 1024,
        m.available_mb == f.mem_available / 1024,
        m.swap_total_mb == f.swap_total / 1024,
        m.swap_used_mb == (if f.swap_total >= f.swap_free { f.swap_total - f.swap_free } else { 0 }) / 1024,
        m.swap_free_mb == f.swap_free / 1024,
{
    let spent = f.mem_free + f.buffers + f.cached;
    let used = if f.mem_total >= spent { f.mem_total - spent } else { 0 };
    let swap_used = if f.swap_total >= f.swap_free { f.swap_total - f.swap_free } else { 0 };
    MemorySizes {
        used_kb: used,
        swap_used_kb: swap_used,
        total_mb: f.mem_total / 1024,
        used_mb: used / 1024,
        free_mb: f.mem_free / 1024,
        available_mb: f.mem_available / 1024,
        swap_total_mb: f.swap_total / 1024,
        swap_used_mb: swap_used / 1024,
        swap_free_mb: f.swap_free / 1024,
    }
}

// ----------------------------------------------------------------------------
// SSL certificate
// ----------------------------------------------------------------------------

/// The state of the site's SSL certificate.
pub struct SslStatus {
    pub enabled: bool,
    pub domain: Option<String>,
    pub issuer: Option<String>,
    pub valid_from: Option<String>,
    pub valid_until: Option<String>,
    pub days_remaining: Option<i64>,
    pub auto_renew: bool,
    pub last_renewal: Option<String>,
    pub next_renewal_attempt: Option<String>,
}

/// The status without a certificate: nothing known, no renewal.
pub fn ssl_disabled() -> (s: SslStatus)
    ensures
        !s.enabled && s.domain is None && s.issuer is None && s.valid_from is None && s.valid_until is None
            && s.days_remaining is None && !s.auto_renew && s.last_renewal is None && s.next_renewal_attempt is None,
{
    SslStatus {
        enabled: false,
        domain: None,
        issuer: None,
        valid_from: None,
        valid_until: None,
        days_remaining: None,
        auto_renew: false,
        last_renewal: None,
        next_renewal_attempt: None,
    }
}

/// What the certificate report tells: domain, issuer, start and end of
/// validity.
pub type CertFacts = (Option<Seq<char>>, Option<Seq<char>>, Option<Seq<char>>, Option<Seq<char>>);

/// The common name after `CN = ` in a subject or issuer line, up to any `,`.
pub open spec fn common_name(line: Seq<char>) -> Option<Seq<char>> {
    match second_piece(line, "CN = "@) {
        Some(p) => Some(split_on(p, ',')[0]),
        None => None,
    }
}

/// One line of `openssl x509 -dates -issuer -subject`: `notBefore=` and
/// `notAfter=` give the validity (the line without the key), `issuer=` the
/// issuer's common name and `subject=` the domain (when they have one).
pub open spec fn cert_step(f: CertFacts, line: Seq<char>) -> CertFacts {
    if is_prefix("notBefore="@, line) {
        (f.0, f.1, Some(remove_all(line, "notBefore="@)), f.3)
    } else if is_prefix("notAfter="@, line) {
        (f.0, f.1, f.2, Some(remove_all(line, "notAfter="@)))
    } else if is_prefix("issuer="@, line) {
        match common_name(line) {
            Some(cn) => (f.0, Some(cn), f.2, f.3),
            None => f,
        }
    } else if is_prefix("subject="@, line) {
        match common_name(line) {
            Some(cn) => (Some(cn), f.1, f.2, f.3),
            None => f,
        }
    } else {
        f
    }
}

/// The facts of a certificate report, read line by line; the domain is
/// `akbdevs.dnsalias.com` unless the subject names another.
pub open spec fn cert_facts(ls: Seq<Seq<char>>) -> CertFacts
    decreases ls.len(),
{
    if ls.len() == 0 {
        (Some("akbdevs.dnsalias.com"@), None, None, None)
    } else {
        cert_step(cert_facts(ls.drop_last()), ls.last())
    }
}

fn common_name_of(line: &str) -> (r: Option<String>)
    ensures
        opt_view(r) == common_name(line@),
{
    proof {
        reveal_strlit("CN = ");
    }
    match second_piece_of(line, "CN = ") {
        Some(p) => {
            let parts = split_str(p.as_str(), ',');
            proof {
                crate::text::lemma_split_nonempty(p@, ',');
            }
            assert(parts@[0]@ == split_on(p@, ',')[0]);
            Some(parts[0].clone())
        },
        None => None,
    }
}

/// Domain, issuer, start and end of validity from the certificate report.
pub fn parse_certificate_report(report: &str) -> (r: (Option<String>, Option<String>, Option<String>, Option<String>))
    ensures
        (opt_view(r.0), opt_view(r.1), opt_view(r.2), opt_view(r.3)) == cert_facts(text_lines(report@)),
{
    let lines = lines_of(report);
    let ghost lv = lines@.map_values(|l: String| l@);
    let mut domain: Option<String> = Some(owned("akbdevs.dnsalias.com"));
    let mut issuer: Option<String> = None;
    let mut valid_from: Option<String> = None;
    let mut valid_until: Option<String> = None;
    let mut i: usize = 0;
    while i < lines.len()
        invariant
            i <= lines.len(),
            lv == lines@.map_values(|l: String| l@),
            (opt_view(domain), opt_view(issuer), opt_view(valid_from), opt_view(valid_until)) == cert_facts(lv.take(i as int)),
        decreases lines.len() - i,
    {
        assert(lv.take(i + 1).drop_last() =~= lv.take(i as int));
        assert(lv.take(i + 1).last() == lines@[i as int]@);
        let line = lines[i].as_str();
        let cs = chars_of(line);
        proof {
            reveal_strlit("notBefore=");
            reveal_strlit("notAfter=");
        }
        if starts_with(&cs, &chars_of("notBefore=")) {
            valid_from = Some(remove_all_of(line, "notBefore="));
        } else if starts_with(&cs, &chars_of("notAfter=")) {
            valid_until = Some(remove_all_of(line, "notAfter="));
        } else if starts_with(&cs, &chars_of("issuer=")) {
            if let Some(cn) = common_name_of(line) {
                issuer = Some(cn);
            }
        } else if starts_with(&cs, &chars_of("subject=")) {
            if let Some(cn) = common_name_of(line) {
                domain = Some(cn);
            }
        }
        i = i + 1;
    }
    assert(lv.take(lines.len() as int) =~= lv);
    (domain, issuer, valid_from, valid_until)
}

/// Whole days from `now` to `end` (both in seconds since the Unix epoch),
/// rounded toward zero; unknown unless both times are positive.
pub open spec fn spec_days_remaining(end_secs: i64, now_secs: i64) -> Option<i64> {
    if end_secs > 0 && now_secs > 0 {
        let d = end_secs - now_secs;
        Some((if d >= 0 { d / 86400 } else { -((-d) / 86400) }) as i64)
    } else {
        None
    }
}

pub fn days_remaining(end_secs: i64, now_secs: i64) -> (r: Option<i64>)
    ensures
        r == spec_days_remaining(end_secs, now_secs),
{
    if end_secs > 0 && now_secs > 0 {
        let d = end_secs - now_secs;
        if d >= 0 {
            Some(d / 86400)
        } else {
            let m = -d;
            Some(-(m / 86400))
        }
    } else {
        None
    }
}

/// When certbot will try to renew (30 days before expiry).
pub open spec fn spec_next_renewal(days: i64) -> Seq<char> {
    if days > 30 {
        decimal_int(days - 30) + " days until renewal window"@
    } else {
        "In renewal window (will renew on next check)"@
    }
}

pub fn next_renewal_text(days: i64) -> (r: String)
    ensures
        r@ == spec_next_renewal(days),
{
    if days > 30 {
        let mut r = decimal_i64(days - 30);
        append_str(&mut r, " days until renewal window");
        r
    } else {
        owned("In renewal window (will renew on next check)")
    }
}

/// Whether `systemctl is-active` reports the unit active.
pub fn unit_active(output: &str) -> (r: bool)
    ensures
        r == (trimmed(output@) == "active"@),
{
    let t = trim_str(output);
    str_eq(t.as_str(), "active")
}

} // verus!
