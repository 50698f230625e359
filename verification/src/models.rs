//! Proxy routes, DDNS configurations and security event kinds, as plain
//! values. Points in time are seconds since the Unix epoch.

use vstd::prelude::*;
use crate::node_order::clone_opt;
use crate::text::{append_str, keeps_lower_case, lowercase, lowercased, owned, str_eq};

verus! {

/// A proxy route: requests under `path` go to `target`.
pub struct ProxyRoute {
    pub id: i32,
    pub path: String,
    pub target: String,
    pub ddns_config_id: Option<i32>,
    pub priority: i32,
    pub active: bool,
    pub strip_prefix: bool,
    pub preserve_host: bool,
    pub timeout_ms: i32,
    pub websocket_support: bool,
    pub created_at: i64,
    pub updated_at: i64,
}

/// A new proxy route.
pub struct CreateRouteRequest {
    pub path: String,
    pub target: String,
    pub ddns_config_id: Option<i32>,
    pub priority: i32,
    pub active: bool,
    pub strip_prefix: bool,
    pub preserve_host: bool,
    pub timeout_ms: i32,
    pub websocket_support: bool,
}

/// Changes to a proxy route; `None` leaves a field as it is.
pub struct UpdateRouteRequest {
    pub path: Option<String>,
    pub target: Option<String>,
    pub ddns_config_id: Option<Option<i32>>,
    pub priority: Option<i32>,
    pub active: Option<bool>,
    pub strip_prefix: Option<bool>,
    pub preserve_host: Option<bool>,
    pub timeout_ms: Option<i32>,
    pub websocket_support: Option<bool>,
}

/// The priority of a route that names none.
pub fn default_priority() -> (r: i32)
    ensures
        r == 100,
{
    100
}

/// The default of the switches that are on unless said otherwise.
pub fn default_true() -> (r: bool)
    ensures
        r,
{
    true
}

/// The upstream timeout of a route that names none, in milliseconds.
pub fn default_timeout() -> (r: i32)
    ensures
        r == 30000,
{
    30000
}

/// The service a DDNS name is kept up to date with.
#[derive(PartialEq, Eq, Structural, Clone, Copy, Debug)]
pub enum DdnsProvider {
    DynDns,
    NoIp,
    Cloudflare,
}

/// The stored name of a provider.
pub open spec fn provider_name(p: DdnsProvider) -> Seq<char> {
    match p {
        DdnsProvider::DynDns => "dyndns"@,
        DdnsProvider::NoIp => "noip"@,
        DdnsProvider::Cloudflare => "cloudflare"@,
    }
}

/// The provider a name stands for, case-insensitively.
pub open spec fn provider_named(s: Seq<char>) -> Option<DdnsProvider> {
    let l = lowercased(s);
    if l == "dyndns"@ {
        Some(DdnsProvider::DynDns)
    } else if l == "noip"@ {
        Some(DdnsProvider::NoIp)
    } else if l == "cloudflare"@ {
        Some(DdnsProvider::Cloudflare)
    } else {
        None
    }
}

proof fn lemma_provider_names_keep_case(s: Seq<char>)
    ensures
        (s == "dyndns"@ || s == "noip"@ || s == "cloudflare"@)
            ==> forall|i: int| 0 <= i < s.len() ==> keeps_lower_case(#[trigger] s[i]),
{
    reveal_strlit("dyndns");
    reveal_strlit("noip");
    reveal_strlit("cloudflare");
}

impl DdnsProvider {
    /// The stored name: `dyndns`, `noip` or `cloudflare`.
    pub fn to_string(&self) -> (r: String)
        ensures
            r@ == provider_name(*self),
    {
        match self {
            DdnsProvider::DynDns => owned("dyndns"),
            DdnsProvider::NoIp => owned("noip"),
            DdnsProvider::Cloudflare => owned("cloudflare"),
        }
    }

    /// Reads a provider name in any case; any other text is refused with
    /// `Unknown provider: {s}`.
    pub fn parse(s: &str) -> (r: Result<DdnsProvider, String>)
        ensures
            match r {
                Ok(p) => provider_named(s@) == Some(p),
                Err(e) => provider_named(s@) is None && e@ == "Unknown provider: "@ + s@,
            },
            forall|p: DdnsProvider| s@ == provider_name(p) ==> r == Ok::<DdnsProvider, String>(p),
    {
        proof {
            reveal_strlit("dyndns");
            reveal_strlit("noip");
            reveal_strlit("cloudflare");
            lemma_provider_names_keep_case(s@);
        }
        let l = lowercase(s);
        if str_eq(l.as_str(), "dyndns") {
            Ok(DdnsProvider::DynDns)
        } else if str_eq(l.as_str(), "noip") {
            Ok(DdnsProvider::NoIp)
        } else if str_eq(l.as_str(), "cloudflare") {
            Ok(DdnsProvider::Cloudflare)
        } else {
            let mut e = owned("Unknown provider: ");
            append_str(&mut e, s);
            Err(e)
        }
    }
}

impl std::str::FromStr for DdnsProvider {
    type Err = String;

    fn from_str(s: &str) -> (r: Result<DdnsProvider, String>)
        ensures
            match r {
                Ok(p) => provider_named(s@) == Some(p),
                Err(e) => provider_named(s@) is None && e@ == "Unknown provider: "@ + s@,
            },
            forall|p: DdnsProvider| s@ == provider_name(p) ==> r == Ok::<DdnsProvider, String>(p),
    {
        DdnsProvider::parse(s)
    }
}

/// Whether a DDNS name is being kept up to date.
#[derive(PartialEq, Eq, Structural, Clone, Copy, Debug)]
pub enum DdnsStatus {
    Active,
    Error,
    Disabled,
}

/// The stored name of a status.
pub open spec fn status_name(s: DdnsStatus) -> Seq<char> {
    match s {
        DdnsStatus::Active => "active"@,
        DdnsStatus::Error => "error"@,
        DdnsStatus::Disabled => "disabled"@,
    }
}

/// The status a name stands for, case-insensitively.
pub open spec fn status_named(s: Seq<char>) -> Option<DdnsStatus> {
    let l = lowercased(s);
    if l == "active"@ {
        Some(DdnsStatus::Active)
    } else if l == "error"@ {
        Some(DdnsStatus::Error)
    } else if l == "disabled"@ {
        Some(DdnsStatus::Disabled)
    } else {
        None
    }
}

proof fn lemma_status_names_keep_case(s: Seq<char>)
    ensures
        (s == "active"@ || s == "error"@ || s == "disabled"@)
            ==> forall|i: int| 0 <= i < s.len() ==> keeps_lower_case(#[trigger] s[i]),
{
    reveal_strlit("active");
    reveal_strlit("error");
    reveal_strlit("disabled");
}

impl DdnsStatus {
    /// The stored name: `active`, `error` or `disabled`.
    pub fn to_string(&self) -> (r: String)
        ensures
            r@ == status_name(*self),
    {
        match self {
            DdnsStatus::Active => owned("active"),
            DdnsStatus::Error => owned("error"),
            DdnsStatus::Disabled => owned("disabled"),
        }
    }

    /// Reads a status name in any case; any other text is refused with
    /// `Unknown status: {s}`.
    pub fn parse(s: &str) -> (r: Result<DdnsStatus, String>)
        ensures
            match r {
                Ok(v) => status_named(s@) == Some(v),
                Err(e) => status_named(s@) is None && e@ == "Unknown status: "@ + s@,
            },
            forall|v: DdnsStatus| s@ == status_name(v) ==> r == Ok::<DdnsStatus, String>(v),
    {
        proof {
            reveal_strlit("active");
            reveal_strlit("error");
            reveal_strlit("disabled");
            lemma_status_names_keep_case(s@);
        }
        let l = lowercase(s);
        if str_eq(l.as_str(), "active") {
            Ok(DdnsStatus::Active)
        } else if str_eq(l.as_str(), "error") {
            Ok(DdnsStatus::Error)
        } else if str_eq(l.as_str(), "disabled") {
            Ok(DdnsStatus::Disabled)
        } else {
            let mut e = owned("Unknown status: ");
            append_str(&mut e, s);
            Err(e)
        }
    }
}

impl std::str::FromStr for DdnsStatus {
    type Err = String;

    fn from_str(s: &str) -> (r: Result<DdnsStatus, String>)
        ensures
            match r {
                Ok(v) => status_named(s@) == Some(v),
                Err(e) => status_named(s@) is None && e@ == "Unknown status: "@ + s@,
            },
            forall|v: DdnsStatus| s@ == status_name(v) ==> r == Ok::<DdnsStatus, String>(v),
    {
        DdnsStatus::parse(s)
    }
}

/// A DDNS configuration as stored, with the provider and status as text.
pub struct DdnsConfigRow {
    pub id: i32,
    pub provider: String,
    pub hostname: String,
    pub username: Option<String>,
    pub password: Option<String>,
    pub api_token: Option<String>,
    pub zone_id: Option<String>,
    pub update_interval_sec: i32,
    pub last_ip: Option<String>,
    pub last_update: Option<i64>,
    pub last_error: Option<String>,
    pub status: String,
    pub omada_controller_id: Option<String>,
    pub omada_site_id: Option<String>,
    pub created_at: i64,
    pub updated_at: i64,
}

/// A DDNS configuration.
pub struct DdnsConfig {
    pub id: i32,
    pub provider: DdnsProvider,
    pub hostname: String,
    pub username: Option<String>,
    pub password: Option<String>,
    pub api_token: Option<String>,
    pub zone_id: Option<String>,
    pub update_interval_sec: i32,
    pub last_ip: Option<String>,
    pub last_update: Option<i64>,
    pub last_error: Option<String>,
    pub status: DdnsStatus,
    pub omada_controller_id: Option<String>,
    pub omada_site_id: Option<String>,
    pub created_at: i64,
    pub updated_at: i64,
}

/// The configuration is the row with its provider and status read.
pub open spec fn row_matches(c: DdnsConfig, row: DdnsConfigRow) -> bool {
    &&& c.id == row.id
    &&& provider_named(row.provider@) == Some(c.provider)
    &&& status_named(row.status@) == Some(c.status)
    &&& c.hostname == row.hostname
    &&& c.username == row.username
    &&& c.password == row.password
    &&& c.api_token == row.api_token
    &&& c.zone_id == row.zone_id
    &&& c.update_interval_sec == row.update_interval_sec
    &&& c.last_ip == row.last_ip
    &&& c.last_update == row.last_update
    &&& c.last_error == row.last_error
    &&& c.omada_controller_id == row.omada_controller_id
    &&& c.omada_site_id == row.omada_site_id
    &&& c.created_at == row.created_at
    &&& c.updated_at == row.updated_at
}

impl DdnsConfig {
    /// Reads a stored row: fails with the provider's error when its provider
    /// is unknown, else with the status's error when its status is unknown.
    pub fn from_row(row: DdnsConfigRow) -> (r: Result<DdnsConfig, String>)
        ensures
            match r {
                Ok(c) => row_matches(c, row),
                Err(e) => match provider_named(row.provider@) {
                    None => e@ == "Unknown provider: "@ + row.provider@,
                    Some(_) => status_named(row.status@) is None && e@ == "Unknown status: "@ + row.status@,
                },
            },
    {
        let provider = match DdnsProvider::parse(row.provider.as_str()) {
            Ok(p) => p,
            Err(e) => return Err(e),
        };
        let status = match DdnsStatus::parse(row.status.as_str()) {
            Ok(s) => s,
            Err(e) => return Err(e),
        };
        Ok(DdnsConfig {
            id: row.id,
            provider,
            hostname: row.hostname,
            username: row.username,
            password: row.password,
            api_token: row.api_token,
            zone_id: row.zone_id,
            update_interval_sec: row.update_interval_sec,
            last_ip: row.last_ip,
            last_update: row.last_update,
            last_error: row.last_error,
            status,
            omada_controller_id: row.omada_controller_id,
            omada_site_id: row.omada_site_id,
            created_at: row.created_at,
            updated_at: row.updated_at,
        })
    }
}

/// A new DDNS configuration.
pub struct CreateDdnsRequest {
    pub provider: DdnsProvider,
    pub hostname: String,
    pub username: Option<String>,
    pub password: Option<String>,
    pub api_token: Option<String>,
    pub zone_id: Option<String>,
    pub update_interval_sec: i32,
}

/// Changes to a DDNS configuration; `None` leaves a field as it is.
pub struct UpdateDdnsRequest {
    pub hostname: Option<String>,
    pub username: Option<String>,
    pub password: Option<String>,
    pub api_token: Option<String>,
    pub zone_id: Option<String>,
    pub update_interval_sec: Option<i32>,
    pub status: Option<DdnsStatus>,
}

/// Links a DDNS configuration to an Omada controller and site, or unlinks
/// it.
pub struct LinkOmadaRequest {
    pub omada_controller_id: Option<String>,
    pub omada_site_id: Option<String>,
}

/// How often a DDNS name is refreshed when the request names no interval,
/// in seconds.
pub fn default_update_interval() -> (r: i32)
    ensures
        r == 300,
{
    300
}

/// How many entries a search returns when it names no limit.
pub fn default_search_limit() -> (r: i64)
    ensures
        r == 50,
{
    50
}

/// A stored setting.
pub struct Setting {
    pub id: i32,
    pub setting_key: String,
    pub setting_value: Option<String>,
    pub description: Option<String>,
    /// When it was last changed, in seconds since the epoch.
    pub updated_at: i64,
}

/// An address that is kept out, for a while or for good.
pub struct BlockedIp {
    pub id: i32,
    pub ip: String,
    pub reason: Option<String>,
    pub blocked_by: String,
    pub expires_at: Option<i64>,
    pub created_at: i64,
}

/// A request to keep an address out.
pub struct BlockIpRequest {
    pub ip: String,
    pub reason: Option<String>,
    pub expires_at: Option<i64>,
}

/// What a security event is about.
#[derive(PartialEq, Eq, Structural, Clone, Copy, Debug)]
pub enum SecurityEventType {
    IpBlocked,
    RateLimitExceeded,
    SuspiciousActivity,
    DdnsFailure,
    HealthCheckFailure,
}

pub open spec fn event_type_name(t: SecurityEventType) -> Seq<char> {
    match t {
        SecurityEventType::IpBlocked => "ip_blocked"@,
        SecurityEventType::RateLimitExceeded => "rate_limit_exceeded"@,
        SecurityEventType::SuspiciousActivity => "suspicious_activity"@,
        SecurityEventType::DdnsFailure => "ddns_failure"@,
        SecurityEventType::HealthCheckFailure => "health_check_failure"@,
    }
}

impl SecurityEventType {
    /// The stored name of the kind, in snake case.
    pub fn as_str(&self) -> (r: &'static str)
        ensures
            r@ == event_type_name(*self),
    {
        match self {
            SecurityEventType::IpBlocked => "ip_blocked",
            SecurityEventType::RateLimitExceeded => "rate_limit_exceeded",
            SecurityEventType::SuspiciousActivity => "suspicious_activity",
            SecurityEventType::DdnsFailure => "ddns_failure",
            SecurityEventType::HealthCheckFailure => "health_check_failure",
        }
    }
}

/// How serious a security event is.
#[derive(PartialEq, Eq, Structural, Clone, Copy, Debug)]
pub enum Severity {
    Low,
    Medium,
    High,
    Critical,
}

pub open spec fn severity_name(s: Severity) -> Seq<char> {
    match s {
        Severity::Low => "low"@,
        Severity::Medium => "medium"@,
        Severity::High => "high"@,
        Severity::Critical => "critical"@,
    }
}

impl Severity {
    /// The stored name of the severity, in lower case.
    pub fn as_str(&self) -> (r: &'static str)
        ensures
            r@ == severity_name(*self),
    {
        match self {
            Severity::Low => "low",
            Severity::Medium => "medium",
            Severity::High => "high",
            Severity::Critical => "critical",
        }
    }
}

/// The severity of a run of failed health checks: critical from five on,
/// high from three on, medium below.
pub open spec fn spec_failure_severity(n: u32) -> Severity {
    if n >= 5 {
        Severity::Critical
    } else if n >= 3 {
        Severity::High
    } else {
        Severity::Medium
    }
}

pub fn health_failure_severity(consecutive_failures: u32) -> (s: Severity)
    ensures
        s == spec_failure_severity(consecutive_failures),
{
    if consecutive_failures >= 5 {
        Severity::Critical
    } else if consecutive_failures >= 3 {
        Severity::High
    } else {
        Severity::Medium
    }
}

/// The severity of failed health checks never falls as the run grows.
pub proof fn lemma_failure_severity_grows(a: u32, b: u32)
    requires
        a <= b,
    ensures
        severity_rank(spec_failure_severity(a)) <= severity_rank(spec_failure_severity(b)),
{
}

/// The order of the severities, lowest first.
pub open spec fn severity_rank(s: Severity) -> int {
    match s {
        Severity::Low => 0,
        Severity::Medium => 1,
        Severity::High => 2,
        Severity::Critical => 3,
    }
}

/// `********` in place of a secret that is set.
pub fn mask_option(o: &Option<String>) -> (r: Option<String>)
    ensures
        r.is_some() == o.is_some(),
        r matches Some(m) ==> m@ == "********"@,
{
    match o {
        Some(_) => Some(owned("********")),
        None => None,
    }
}

impl DdnsConfig {
    /// The configuration as readers see it: password and API token masked,
    /// everything else as stored.
    pub fn masked(self) -> (r: DdnsConfig)
        ensures
            r.password.is_some() == self.password.is_some(),
            r.password matches Some(m) ==> m@ == "********"@,
            r.api_token.is_some() == self.api_token.is_some(),
            r.api_token matches Some(m) ==> m@ == "********"@,
            r.id == self.id,
            r.provider == self.provider,
            r.hostname == self.hostname,
            r.username == self.username,
            r.zone_id == self.zone_id,
            r.update_interval_sec == self.update_interval_sec,
            r.last_ip == self.last_ip,
            r.last_update == self.last_update,
            r.last_error == self.last_error,
            r.status == self.status,
            r.omada_controller_id == self.omada_controller_id,
            r.omada_site_id == self.omada_site_id,
            r.created_at == self.created_at,
            r.updated_at == self.updated_at,
    {
        let password = mask_option(&self.password);
        let api_token = mask_option(&self.api_token);
        DdnsConfig { password, api_token, ..self }
    }

    /// A copy of the configuration.
    pub fn copy(&self) -> (r: DdnsConfig)
        ensures
            r == *self,
    {
        DdnsConfig {
            id: self.id,
            provider: self.provider,
            hostname: self.hostname.clone(),
            username: clone_opt(&self.username),
            password: clone_opt(&self.password),
            api_token: clone_opt(&self.api_token),
            zone_id: clone_opt(&self.zone_id),
            update_interval_sec: self.update_interval_sec,
            last_ip: clone_opt(&self.last_ip),
            last_update: self.last_update,
            last_error: clone_opt(&self.last_error),
            status: self.status,
            omada_controller_id: clone_opt(&self.omada_controller_id),
            omada_site_id: clone_opt(&self.omada_site_id),
            created_at: self.created_at,
            updated_at: self.updated_at,
        }
    }
}

} // verus!
