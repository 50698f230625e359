//! Access log queries: which addresses a report leaves out, what a search
//! filters on, and how long a route has been failing.

use vstd::prelude::*;
use crate::auth::IpAddress;
use crate::node_order::opt_view;
use crate::seqs::keep_where;
use crate::text::{owned, split_on, split_str, trim_str, trimmed, uppercase, uppercased};

verus! {

/// The addresses named in a comma-separated list, trimmed, empty names
/// dropped.
pub open spec fn spec_listed_ips(s: Seq<char>) -> Seq<Seq<char>> {
    keep_where(split_on(s, ',').map_values(|p: Seq<char>| trimmed(p)), |p: Seq<char>| p.len() > 0)
}

pub fn listed_ips(s: &str) -> (r: Vec<String>)
    ensures
        r@.map_values(|x: String| x@) == spec_listed_ips(s@),
{
    let parts = split_str(s, ',');
    let ghost pv = parts@.map_values(|p: String| p@);
    let ghost tv = pv.map_values(|p: Seq<char>| trimmed(p));
    let ghost keep = |p: Seq<char>| p.len() > 0;
    let mut r: Vec<String> = Vec::new();
    let mut i: usize = 0;
    while i < parts.len()
        invariant
            i <= parts.len(),
            pv == parts@.map_values(|p: String| p@),
            tv == pv.map_values(|p: Seq<char>| trimmed(p)),
            keep == (|p: Seq<char>| p.len() > 0),
            r@.map_values(|x: String| x@) == keep_where(tv.take(i as int), keep),
        decreases parts.len() - i,
    {
        let t = trim_str(parts[i].as_str());
        proof {
            assert(pv[i as int] == parts@[i as int]@);
            assert(tv[i as int] == t@);
            assert(tv.take(i + 1).drop_last() =~= tv.take(i as int));
            assert(tv.take(i + 1).last() == tv[i as int]);
        }
        let ghost before = r@.map_values(|x: String| x@);
        if t.unicode_len() > 0 {
            r.push(t);
            assert(r@.map_values(|x: String| x@) =~= before.push(tv[i as int]));
        }
        i = i + 1;
    }
    assert(tv.take(parts.len() as int) =~= tv);
    r
}

/// The LAN addresses a report can leave out: those starting with `10.`,
/// `172.16.` to `172.31.`, `192.168.` or `127.`.
pub fn lan_ip_pattern() -> (r: &'static str)
    ensures
        r@ == "^(10\\.|172\\.(1[6-9]|2[0-9]|3[01])\\.|192\\.168\\.|127\\.)"@,
{
    "^(10\\.|172\\.(1[6-9]|2[0-9]|3[01])\\.|192\\.168\\.|127\\.)"
}

/// What a report leaves out: the listed addresses, and LAN addresses when
/// asked to.
pub struct IpExclusion {
    pub ips: Vec<String>,
    pub exclude_lan: bool,
}

impl IpExclusion {
    /// Nothing is left out.
    pub open spec fn is_empty(&self) -> bool {
        self.ips.len() == 0 && !self.exclude_lan
    }
}

/// The exclusion a report's parameters ask for: the listed addresses when a
/// list is given, and LAN addresses only when that is asked for explicitly.
pub fn ip_exclusion(exclude_ips: &Option<String>, exclude_lan: Option<bool>) -> (r: IpExclusion)
    ensures
        r.ips@.map_values(|x: String| x@) == match opt_view(*exclude_ips) {
            Some(s) => spec_listed_ips(s),
            None => Seq::<Seq<char>>::empty(),
        },
        r.exclude_lan == (exclude_lan == Some(true)),
{
    let ips = match exclude_ips {
        Some(s) => listed_ips(s.as_str()),
        None => {
            let v: Vec<String> = Vec::new();
            assert(v@.map_values(|x: String| x@) =~= Seq::<Seq<char>>::empty());
            v
        },
    };
    let lan = match exclude_lan {
        Some(b) => b,
        None => false,
    };
    IpExclusion { ips, exclude_lan: lan }
}

/// A search of the access log, as filters: each is applied when present.
/// Times are RFC 3339 texts.
pub struct AccessLogFilter {
    pub from: Option<String>,
    pub to: Option<String>,
    pub method: Option<String>,
    pub status_min: Option<i32>,
    pub status_max: Option<i32>,
    pub ip: Option<String>,
    pub path_pattern: Option<String>,
    pub exclusion: IpExclusion,
}

/// A text filter applies only when it is not empty.
pub open spec fn non_empty(o: Option<Seq<char>>) -> Option<Seq<char>> {
    match o {
        Some(s) => if s.len() > 0 { Some(s) } else { None },
        None => None,
    }
}

fn keep_non_empty(o: &Option<String>) -> (r: Option<String>)
    ensures
        opt_view(r) == non_empty(opt_view(*o)),
{
    match o {
        Some(s) => if s.unicode_len() > 0 { Some(s.clone()) } else { None },
        None => None,
    }
}

/// The filter of a search: the time range and status range as given, the
/// method upper-cased, and method, address and path pattern only when not
/// empty.
pub fn access_log_filter(
    from: Option<String>,
    to: Option<String>,
    method: &Option<String>,
    status_min: Option<i32>,
    status_max: Option<i32>,
    ip: &Option<String>,
    path: &Option<String>,
    exclude_ips: &Option<String>,
    exclude_lan: Option<bool>,
) -> (f: AccessLogFilter)
    ensures
        f.from == from,
        f.to == to,
        opt_view(f.method) == match non_empty(opt_view(*method)) { Some(m) => Some(uppercased(m)), None => None },
        f.status_min == status_min,
        f.status_max == status_max,
        opt_view(f.ip) == non_empty(opt_view(*ip)),
        opt_view(f.path_pattern) == non_empty(opt_view(*path)),
        f.exclusion.ips@.map_values(|x: String| x@) == match opt_view(*exclude_ips) {
            Some(s) => spec_listed_ips(s),
            None => Seq::<Seq<char>>::empty(),
        },
        f.exclusion.exclude_lan == (exclude_lan == Some(true)),
{
    let m = match keep_non_empty(method) {
        Some(x) => Some(uppercase(x.as_str())),
        None => None,
    };
    AccessLogFilter {
        from,
        to,
        method: m,
        status_min,
        status_max,
        ip: keep_non_empty(ip),
        path_pattern: keep_non_empty(path),
        exclusion: ip_exclusion(exclude_ips, exclude_lan),
    }
}

/// The length of the failing run at the head of a route's check history
/// (newest first): failed checks are counted until the first healthy one;
/// entries without a result are passed over.
pub open spec fn failing_run(history: Seq<Option<bool>>) -> nat
    decreases history.len(),
{
    if history.len() == 0 {
        0
    } else {
        match history[0] {
            Some(true) => 0,
            Some(false) => 1 + failing_run(history.skip(1)),
            None => failing_run(history.skip(1)),
        }
    }
}

proof fn lemma_failing_run_le(history: Seq<Option<bool>>)
    ensures
        failing_run(history) <= history.len(),
    decreases history.len(),
{
    if history.len() > 0 {
        lemma_failing_run_le(history.skip(1));
    }
}

proof fn lemma_failing_run_split(history: Seq<Option<bool>>, i: int)
    requires
        0 <= i < history.len(),
        forall|k: int| 0 <= k < i ==> history[k] != Some(true),
    ensures
        failing_run(history) == failing_run(history.take(i)) + failing_run(history.skip(i)),
    decreases i,
{
    if i > 0 {
        assert(history.take(i).skip(1) =~= history.skip(1).take(i - 1));
        assert(history.skip(1).skip(i - 1) =~= history.skip(i));
        lemma_failing_run_split(history.skip(1), i - 1);
    } else {
        assert(history.take(0) =~= Seq::<Option<bool>>::empty());
        assert(history.skip(0) =~= history);
    }
}

proof fn lemma_failing_run_no_healthy(history: Seq<Option<bool>>)
    requires
        history.len() > 0,
        forall|k: int| 0 <= k < history.len() ==> history[k] != Some(true),
    ensures
        failing_run(history) == failing_run(history.drop_last()) + if history.last() == Some(false) { 1nat } else { 0nat },
    decreases history.len(),
{
    if history.len() > 1 {
        let t = history.skip(1);
        assert(t.drop_last() =~= history.drop_last().skip(1));
        assert forall|k: int| 0 <= k < t.len() implies t[k] != Some(true) by {
            assert(t[k] == history[k + 1]);
        }
        lemma_failing_run_no_healthy(t);
        assert(t.last() == history.last());
        assert(history.drop_last()[0] == history[0]);
        assert(history[0] != Some(true));
    } else {
        assert(history.skip(1) =~= Seq::<Option<bool>>::empty());
        assert(history.drop_last() =~= Seq::<Option<bool>>::empty());
    }
}

/// The consecutive failures of a route from its check history, newest
/// first (see `failing_run`).
pub fn count_consecutive_failures(history: &Vec<Option<bool>>) -> (r: u32)
    requires
        history.len() <= u32::MAX,
    ensures
        r == failing_run(history@),
{
    let mut count: u32 = 0;
    let mut i: usize = 0;
    while i < history.len()
        invariant
            i <= history.len() <= u32::MAX,
            forall|k: int| 0 <= k < i ==> history@[k] != Some(true),
            count == failing_run(history@.take(i as int)),
            count <= i,
        decreases history.len() - i,
    {
        proof {
            assert(history@.take(i + 1).drop_last() =~= history@.take(i as int));
        }
        match history[i] {
            Some(true) => {
                proof {
                    lemma_failing_run_split(history@, i as int);
                    assert(history@.skip(i as int)[0] == Some(true));
                }
                return count;
            },
            Some(false) => {
                proof {
                    lemma_failing_run_no_healthy(history@.take(i + 1));
                }
                count = count + 1;
            },
            None => {
                proof {
                    lemma_failing_run_no_healthy(history@.take(i + 1));
                }
            },
        }
        i = i + 1;
    }
    assert(history@.take(history.len() as int) =~= history@);
    count
}

/// Addresses the GeoIP lookup passes over: IPv4 private, loopback and
/// link-local (169.254.0.0/16) addresses, and the IPv6 loopback.
pub open spec fn spec_geo_skipped(addr: IpAddress) -> bool {
    match addr {
        IpAddress::V4(a, b, _, _) => a == 10 || (a == 172 && 16 <= b && b <= 31) || (a == 192 && b == 168)
            || a == 127 || (a == 169 && b == 254),
        IpAddress::V6(s) => s[0] == 0 && s[1] == 0 && s[2] == 0 && s[3] == 0 && s[4] == 0 && s[5] == 0
            && s[6] == 0 && s[7] == 1,
    }
}

pub fn geo_lookup_skipped(addr: &IpAddress) -> (r: bool)
    ensures
        r == spec_geo_skipped(*addr),
{
    match addr {
        IpAddress::V4(a, b, _, _) => *a == 10 || (*a == 172 && 16 <= *b && *b <= 31) || (*a == 192 && *b == 168)
            || *a == 127 || (*a == 169 && *b == 254),
        IpAddress::V6(s) => s[0] == 0 && s[1] == 0 && s[2] == 0 && s[3] == 0 && s[4] == 0 && s[5] == 0
            && s[6] == 0 && s[7] == 1,
    }
}

} // verus!
