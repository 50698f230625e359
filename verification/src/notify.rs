//! Discord notifications: the embeds sent for security, DDNS and health
//! events, and their colours.

use vstd::prelude::*;
use crate::api::SuccessResponse;
use crate::auth::AppError;
use crate::models::{health_failure_severity, spec_failure_severity, Severity};
use crate::text::{append_str, decimal_i64, decimal_int, decimal_nat, decimal_u64, owned};

verus! {

/// A field of an embed.
pub struct DiscordField {
    pub name: String,
    pub value: String,
    pub inline: bool,
}

/// A Discord embed. `timestamp` is when the event happened (RFC 3339).
pub struct DiscordEmbed {
    pub title: String,
    pub description: String,
    pub color: u32,
    pub timestamp: String,
    pub fields: Vec<DiscordField>,
}

/// What a webhook is sent: the embeds.
pub struct DiscordWebhookPayload {
    pub embeds: Vec<DiscordEmbed>,
}

pub open spec fn field_view(f: DiscordField) -> (Seq<char>, Seq<char>, bool) {
    (f.name@, f.value@, f.inline)
}

pub open spec fn fields_view(e: DiscordEmbed) -> Seq<(Seq<char>, Seq<char>, bool)> {
    e.fields@.map_values(|f: DiscordField| field_view(f))
}

/// The colour of a severity: blue, orange, red, purple.
pub open spec fn spec_severity_color(s: Severity) -> u32 {
    match s {
        Severity::Low => 0x3498db,
        Severity::Medium => 0xf39c12,
        Severity::High => 0xe74c3c,
        Severity::Critical => 0x9b59b6,
    }
}

pub fn severity_to_color(s: Severity) -> (r: u32)
    ensures
        r == spec_severity_color(s),
{
    match s {
        Severity::Low => 0x3498db,
        Severity::Medium => 0xf39c12,
        Severity::High => 0xe74c3c,
        Severity::Critical => 0x9b59b6,
    }
}

/// The colour of a recovery: green.
pub open spec fn recovery_color() -> u32 {
    0x2ecc71
}

/// The name of a severity as it is shown in a notification.
pub open spec fn severity_title(s: Severity) -> Seq<char> {
    match s {
        Severity::Low => "Low"@,
        Severity::Medium => "Medium"@,
        Severity::High => "High"@,
        Severity::Critical => "Critical"@,
    }
}

fn severity_text(s: Severity) -> (r: String)
    ensures
        r@ == severity_title(s),
{
    match s {
        Severity::Low => owned("Low"),
        Severity::Medium => owned("Medium"),
        Severity::High => owned("High"),
        Severity::Critical => owned("Critical"),
    }
}

fn field(name: &str, value: String, inline: bool) -> (f: DiscordField)
    ensures
        field_view(f) == (name@, value@, inline),
{
    DiscordField { name: owned(name), value, inline }
}

fn fields2(a: DiscordField, b: DiscordField) -> (v: Vec<DiscordField>)
    ensures
        v@.map_values(|f: DiscordField| field_view(f)) == seq![field_view(a), field_view(b)],
{
    let ghost (fa, fb) = (field_view(a), field_view(b));
    let mut v: Vec<DiscordField> = Vec::new();
    v.push(a);
    v.push(b);
    assert(v@.map_values(|f: DiscordField| field_view(f)) =~= seq![fa, fb]);
    v
}

fn fields3(a: DiscordField, b: DiscordField, c: DiscordField) -> (v: Vec<DiscordField>)
    ensures
        v@.map_values(|f: DiscordField| field_view(f)) == seq![field_view(a), field_view(b), field_view(c)],
{
    let ghost (fa, fb, fc) = (field_view(a), field_view(b), field_view(c));
    let mut v: Vec<DiscordField> = Vec::new();
    v.push(a);
    v.push(b);
    v.push(c);
    assert(v@.map_values(|f: DiscordField| field_view(f)) =~= seq![fa, fb, fc]);
    v
}

/// The notification of a blocked address, sent when security notifications
/// are on.
pub fn ip_blocked_embed(ip: &str, reason: &str, severity: Severity, timestamp: String) -> (e: DiscordEmbed)
    ensures
        e.title@ == "IP Blocked"@,
        e.description@ == "An IP address has been blocked."@,
        e.color == spec_severity_color(severity),
        e.timestamp == timestamp,
        fields_view(e) == seq![("IP Address"@, ip@, true), ("Reason"@, reason@, true), ("Severity"@, severity_title(severity), true)],
{
    let fields = fields3(
        field("IP Address", owned(ip), true),
        field("Reason", owned(reason), true),
        field("Severity", severity_text(severity), true),
    );
    DiscordEmbed {
        title: owned("IP Blocked"),
        description: owned("An IP address has been blocked."),
        color: severity_to_color(severity),
        timestamp,
        fields,
    }
}

/// The notification of a failed DDNS update, sent when DDNS notifications
/// are on.
pub fn ddns_failure_embed(hostname: &str, provider: &str, error: &str, timestamp: String) -> (e: DiscordEmbed)
    ensures
        e.title@ == "DDNS Update Failed"@,
        e.description@ == "Failed to update DDNS record for "@ + hostname@,
        e.color == spec_severity_color(Severity::High),
        e.timestamp == timestamp,
        fields_view(e) == seq![("Hostname"@, hostname@, true), ("Provider"@, provider@, true), ("Error"@, error@, false)],
{
    let mut d = owned("Failed to update DDNS record for ");
    append_str(&mut d, hostname);
    let fields = fields3(
        field("Hostname", owned(hostname), true),
        field("Provider", owned(provider), true),
        field("Error", owned(error), false),
    );
    DiscordEmbed {
        title: owned("DDNS Update Failed"),
        description: d,
        color: severity_to_color(Severity::High),
        timestamp,
        fields,
    }
}

/// The notification of a failing route, sent when health notifications are
/// on; its colour grows with the run of failures.
pub fn health_failure_embed(path: &str, target: &str, consecutive_failures: u32, timestamp: String) -> (e: DiscordEmbed)
    ensures
        e.title@ == "Health Check Failed"@,
        e.description@ == "Route "@ + path@ + " is experiencing issues"@,
        e.color == spec_severity_color(spec_failure_severity(consecutive_failures)),
        e.timestamp == timestamp,
        fields_view(e) == seq![("Path"@, path@, true), ("Target"@, target@, true),
            ("Consecutive Failures"@, decimal_nat(consecutive_failures as nat), true)],
{
    let severity = health_failure_severity(consecutive_failures);
    let mut d = owned("Route ");
    append_str(&mut d, path);
    append_str(&mut d, " is experiencing issues");
    let fields = fields3(
        field("Path", owned(path), true),
        field("Target", owned(target), true),
        field("Consecutive Failures", decimal_u64(consecutive_failures as u64), true),
    );
    DiscordEmbed {
        title: owned("Health Check Failed"),
        description: d,
        color: severity_to_color(severity),
        timestamp,
        fields,
    }
}

/// The notification of a route that is healthy again.
pub fn health_recovery_embed(path: &str, target: &str, timestamp: String) -> (e: DiscordEmbed)
    ensures
        e.title@ == "Health Check Recovered"@,
        e.description@ == "Route "@ + path@ + " is now healthy"@,
        e.color == recovery_color(),
        e.timestamp == timestamp,
        fields_view(e) == seq![("Path"@, path@, true), ("Target"@, target@, true)],
{
    let mut d = owned("Route ");
    append_str(&mut d, path);
    append_str(&mut d, " is now healthy");
    let fields = fields2(field("Path", owned(path), true), field("Target", owned(target), true));
    DiscordEmbed { title: owned("Health Check Recovered"), description: d, color: 0x2ecc71, timestamp, fields }
}

/// The notification of an address over its rate limit, sent when security
/// notifications are on.
pub fn rate_limit_embed(ip: &str, requests: i32, timestamp: String) -> (e: DiscordEmbed)
    ensures
        e.title@ == "Rate Limit Exceeded"@,
        e.description@ == "IP "@ + ip@ + " exceeded rate limit"@,
        e.color == spec_severity_color(Severity::Medium),
        e.timestamp == timestamp,
        fields_view(e) == seq![("IP Address"@, ip@, true), ("Requests"@, decimal_int(requests as int), true)],
{
    let mut d = owned("IP ");
    append_str(&mut d, ip);
    append_str(&mut d, " exceeded rate limit");
    let fields = fields2(field("IP Address", owned(ip), true), field("Requests", decimal_i64(requests as i64), true));
    DiscordEmbed {
        title: owned("Rate Limit Exceeded"),
        description: d,
        color: severity_to_color(Severity::Medium),
        timestamp,
        fields,
    }
}

/// What is sent for one embed.
pub fn webhook_payload(embed: DiscordEmbed) -> (p: DiscordWebhookPayload)
    ensures
        p.embeds@ == seq![embed],
{
    let mut embeds: Vec<DiscordEmbed> = Vec::new();
    embeds.push(embed);
    assert(embeds@ =~= seq![embed]);
    DiscordWebhookPayload { embeds }
}

/// The test notice: `LacisProxyGateway2 Test`, saying that notifications
/// work, in green, without fields.
pub fn test_embed(timestamp: String) -> (e: DiscordEmbed)
    ensures
        e.title@ == "LacisProxyGateway2 Test"@,
        e.description@ == "Discord notification is working!"@,
        e.color == 3066993,
        e.timestamp == timestamp,
        e.fields@.len() == 0,
{
    DiscordEmbed {
        title: owned("LacisProxyGateway2 Test"),
        description: owned("Discord notification is working!"),
        color: 3066993,
        timestamp,
        fields: Vec::new(),
    }
}

/// Where a test notice goes: the configured webhook; without one the test
/// is refused.
pub fn test_webhook(url: Option<String>) -> (r: Result<String, AppError>)
    ensures
        match url {
            Some(u) => r == Ok::<String, AppError>(u),
            None => r matches Err(AppError::BadRequest(m)) && m@ == "Discord webhook URL not configured"@,
        },
{
    match url {
        Some(u) => Ok(u),
        None => Err(AppError::BadRequest(owned("Discord webhook URL not configured"))),
    }
}

/// How sending a test notice ends: `sent` is whether Discord answered
/// with a success status and how that status reads, or why it could not
/// be sent.
pub fn test_notice_outcome(sent: &Result<(bool, String), String>) -> (r: Result<SuccessResponse, AppError>)
    ensures
        match sent {
            Ok((true, _)) => r matches Ok(s) && s.message@ == "Test notification sent"@ && s.id is None,
            Ok((false, status)) => r matches Err(AppError::InternalError(m)) && m@ == "Discord returned status: "@ + status@,
            Err(e) => r matches Err(AppError::InternalError(m)) && m@ == "Failed to send notification: "@ + e@,
        },
{
    match sent {
        Ok((true, _)) => Ok(SuccessResponse::new("Test notification sent")),
        Ok((false, status)) => {
            let mut m = owned("Discord returned status: ");
            append_str(&mut m, status.as_str());
            Err(AppError::InternalError(m))
        },
        Err(e) => {
            let mut m = owned("Failed to send notification: ");
            append_str(&mut m, e.as_str());
            Err(AppError::InternalError(m))
        },
    }
}

} // verus!
