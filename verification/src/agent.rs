//! The context served to AI agents: which endpoints a user may call, which
//! sections were asked for, and what is masked before it is handed out.

use vstd::prelude::*;
use crate::seqs::{keep_where, lemma_keep_contains, lemma_keep_step};
use crate::text::{lowercase, lowercased, owned, split_on, split_str, str_eq, trim_str, trimmed};
use crate::auth::AuthUser;
use crate::node_order::opt_view;
use crate::docs::{ExternalDeviceDoc, OmadaControllerDoc, OpenWrtRouterDoc};
use crate::models::{BlockedIp, DdnsConfig, ProxyRoute, Setting};

verus! {

/// One API endpoint with the permission it requires.
pub struct EndpointInfo {
    pub method: String,
    pub path: String,
    pub required_permission: i32,
    pub description: String,
}

/// An endpoint as plain values: method, path, required permission, description.
pub type EndpointView = (Seq<char>, Seq<char>, i32, Seq<char>);

impl View for EndpointInfo {
    type V = EndpointView;

    open spec fn view(&self) -> EndpointView {
        (self.method@, self.path@, self.required_permission, self.description@)
    }
}

pub open spec fn endpoint_views(s: Seq<EndpointInfo>) -> Seq<EndpointView> {
    s.map_values(|e: EndpointInfo| e@)
}

/// An endpoint description.
pub fn ep(method: &str, path: &str, perm: i32, desc: &str) -> (r: EndpointInfo)
    ensures
        r@ == (method@, path@, perm, desc@),
{
    EndpointInfo { method: owned(method), path: owned(path), required_permission: perm, description: owned(desc) }
}

/// Read access (permission 0): the GET endpoints, which change nothing.
pub open spec fn read_endpoints() -> Seq<EndpointView> {
    seq![
        ("GET"@, "/api/auth/me"@, 0i32, "Current user info"@),
        ("GET"@, "/api/routes"@, 0i32, "List proxy routes"@),
        ("GET"@, "/api/routes/:id"@, 0i32, "Get single route"@),
        ("GET"@, "/api/routes/status"@, 0i32, "All routes health status"@),
        ("GET"@, "/api/routes/:id/status"@, 0i32, "Single route health status"@),
        ("GET"@, "/api/routes/:id/logs"@, 0i32, "Route access logs"@),
        ("GET"@, "/api/server-routes"@, 0i32, "Routes with subnet info"@),
        ("GET"@, "/api/ddns"@, 0i32, "List DDNS configurations"@),
        ("GET"@, "/api/ddns/:id"@, 0i32, "Get single DDNS config"@),
        ("GET"@, "/api/ddns/integrated"@, 0i32, "DDNS with Omada WAN IP comparison"@),
        ("GET"@, "/api/ddns/:id/port-forwards"@, 0i32, "Port forwarding rules for DDNS"@),
        ("GET"@, "/api/security/blocked-ips"@, 0i32, "List blocked IPs"@),
        ("GET"@, "/api/security/events"@, 0i32, "List security events"@),
        ("GET"@, "/api/security/events/ip/:ip"@, 0i32, "Security events by IP"@),
        ("GET"@, "/api/security/events/search"@, 0i32, "Advanced security event search"@),
        ("GET"@, "/api/settings"@, 0i32, "List all settings"@),
        ("GET"@, "/api/settings/restart"@, 0i32, "Get restart settings"@),
        ("GET"@, "/api/dashboard/stats"@, 0i32, "Dashboard statistics"@),
        ("GET"@, "/api/dashboard/access-log"@, 0i32, "Access log entries"@),
        ("GET"@, "/api/dashboard/access-log/filter"@, 0i32, "Filtered access log"@),
        ("GET"@, "/api/dashboard/access-log/search"@, 0i32, "Advanced access log search"@),
        ("GET"@, "/api/dashboard/access-log/export"@, 0i32, "Export access log CSV"@),
        ("GET"@, "/api/dashboard/health"@, 0i32, "Health status"@),
        ("GET"@, "/api/dashboard/status-distribution"@, 0i32, "HTTP status distribution"@),
        ("GET"@, "/api/dashboard/hourly-stats"@, 0i32, "Hourly request stats"@),
        ("GET"@, "/api/dashboard/top-ips"@, 0i32, "Top IP addresses"@),
        ("GET"@, "/api/dashboard/top-paths"@, 0i32, "Top request paths"@),
        ("GET"@, "/api/dashboard/error-summary"@, 0i32, "Error summary"@),
        ("GET"@, "/api/dashboard/ssl-status"@, 0i32, "SSL certificate status"@),
        ("GET"@, "/api/dashboard/server-health"@, 0i32, "Server health metrics"@),
        ("GET"@, "/api/omada/controllers"@, 0i32, "List Omada controllers"@),
        ("GET"@, "/api/omada/controllers/:id"@, 0i32, "Get single controller"@),
        ("GET"@, "/api/omada/devices"@, 0i32, "List Omada devices"@),
        ("GET"@, "/api/omada/clients"@, 0i32, "List Omada clients"@),
        ("GET"@, "/api/omada/wireguard"@, 0i32, "List Omada WireGuard peers"@),
        ("GET"@, "/api/omada/summary"@, 0i32, "Omada network summary"@),
        ("GET"@, "/api/omada/status"@, 0i32, "Legacy network status"@),
        ("GET"@, "/api/openwrt/routers"@, 0i32, "List OpenWrt routers"@),
        ("GET"@, "/api/openwrt/routers/:id"@, 0i32, "Get single router"@),
        ("GET"@, "/api/openwrt/clients"@, 0i32, "List OpenWrt clients"@),
        ("GET"@, "/api/openwrt/summary"@, 0i32, "OpenWrt summary"@),
        ("GET"@, "/api/external/devices"@, 0i32, "List external devices"@),
        ("GET"@, "/api/external/devices/:id"@, 0i32, "Get single device"@),
        ("GET"@, "/api/external/clients"@, 0i32, "List external clients"@),
        ("GET"@, "/api/external/summary"@, 0i32, "External devices summary"@),
        ("GET"@, "/api/wireguard/peers"@, 0i32, "List WireGuard peers"@),
        ("GET"@, "/api/wireguard/interfaces"@, 0i32, "List WireGuard interfaces"@),
        ("GET"@, "/api/aranea/devices"@, 0i32, "List aranea devices"@),
        ("GET"@, "/api/aranea/devices/:lacis_id/state"@, 0i32, "Get device state"@),
        ("GET"@, "/api/aranea/summary"@, 0i32, "Aranea config summary"@),
        ("GET"@, "/api/lacis-id/candidates"@, 0i32, "LacisID candidates"@),
        ("GET"@, "/api/topology"@, 0i32, "Network topology (CelestialGlobe)"@),
        ("GET"@, "/api/audit"@, 0i32, "Audit logs"@),
        ("GET"@, "/api/logs/operations"@, 0i32, "Operation logs"@),
        ("GET"@, "/api/logs/operations/summary"@, 0i32, "Operation logs summary"@),
        ("GET"@, "/api/my-ip"@, 0i32, "Detect client/server IP"@),
        ("GET"@, "/api/nginx/status"@, 0i32, "Nginx status"@),
        ("GET"@, "/api/nginx/config"@, 0i32, "Nginx config content"@),
        ("GET"@, "/api/nginx/template-settings"@, 0i32, "Nginx template settings"@),
        ("GET"@, "/api/agent/context"@, 0i32, "Agent context (this endpoint)"@),
    ]
}

#[verifier::rlimit(50)]
fn push_read_endpoints(v: &mut Vec<EndpointInfo>)
    ensures
        endpoint_views(final(v)@) == endpoint_views(old(v)@) + read_endpoints(),
{
    let ghost start = endpoint_views(v@);
    v.push(ep("GET", "/api/auth/me", 0, "Current user info"));
    v.push(ep("GET", "/api/routes", 0, "List proxy routes"));
    v.push(ep("GET", "/api/routes/:id", 0, "Get single route"));
    v.push(ep("GET", "/api/routes/status", 0, "All routes health status"));
    v.push(ep("GET", "/api/routes/:id/status", 0, "Single route health status"));
    v.push(ep("GET", "/api/routes/:id/logs", 0, "Route access logs"));
    v.push(ep("GET", "/api/server-routes", 0, "Routes with subnet info"));
    v.push(ep("GET", "/api/ddns", 0, "List DDNS configurations"));
    v.push(ep("GET", "/api/ddns/:id", 0, "Get single DDNS config"));
    v.push(ep("GET", "/api/ddns/integrated", 0, "DDNS with Omada WAN IP comparison"));
    v.push(ep("GET", "/api/ddns/:id/port-forwards", 0, "Port forwarding rules for DDNS"));
    v.push(ep("GET", "/api/security/blocked-ips", 0, "List blocked IPs"));
    v.push(ep("GET", "/api/security/events", 0, "List security events"));
    v.push(ep("GET", "/api/security/events/ip/:ip", 0, "Security events by IP"));
    v.push(ep("GET", "/api/security/events/search", 0, "Advanced security event search"));
    v.push(ep("GET", "/api/settings", 0, "List all settings"));
    v.push(ep("GET", "/api/settings/restart", 0, "Get restart settings"));
    v.push(ep("GET", "/api/dashboard/stats", 0, "Dashboard statistics"));
    v.push(ep("GET", "/api/dashboard/access-log", 0, "Access log entries"));
    v.push(ep("GET", "/api/dashboard/access-log/filter", 0, "Filtered access log"));
    v.push(ep("GET", "/api/dashboard/access-log/search", 0, "Advanced access log search"));
    v.push(ep("GET", "/api/dashboard/access-log/export", 0, "Export access log CSV"));
    v.push(ep("GET", "/api/dashboard/health", 0, "Health status"));
    v.push(ep("GET", "/api/dashboard/status-distribution", 0, "HTTP status distribution"));
    v.push(ep("GET", "/api/dashboard/hourly-stats", 0, "Hourly request stats"));
    v.push(ep("GET", "/api/dashboard/top-ips", 0, "Top IP addresses"));
    v.push(ep("GET", "/api/dashboard/top-paths", 0, "Top request paths"));
    v.push(ep("GET", "/api/dashboard/error-summary", 0, "Error summary"));
    v.push(ep("GET", "/api/dashboard/ssl-status", 0, "SSL certificate status"));
    v.push(ep("GET", "/api/dashboard/server-health", 0, "Server health metrics"));
    v.push(ep("GET", "/api/omada/controllers", 0, "List Omada controllers"));
    v.push(ep("GET", "/api/omada/controllers/:id", 0, "Get single controller"));
    v.push(ep("GET", "/api/omada/devices", 0, "List Omada devices"));
    v.push(ep("GET", "/api/omada/clients", 0, "List Omada clients"));
    v.push(ep("GET", "/api/omada/wireguard", 0, "List Omada WireGuard peers"));
    v.push(ep("GET", "/api/omada/summary", 0, "Omada network summary"));
    v.push(ep("GET", "/api/omada/status", 0, "Legacy network status"));
    v.push(ep("GET", "/api/openwrt/routers", 0, "List OpenWrt routers"));
    v.push(ep("GET", "/api/openwrt/routers/:id", 0, "Get single router"));
    v.push(ep("GET", "/api/openwrt/clients", 0, "List OpenWrt clients"));
    v.push(ep("GET", "/api/openwrt/summary", 0, "OpenWrt summary"));
    v.push(ep("GET", "/api/external/devices", 0, "List external devices"));
    v.push(ep("GET", "/api/external/devices/:id", 0, "Get single device"));
    v.push(ep("GET", "/api/external/clients", 0, "List external clients"));
    v.push(ep("GET", "/api/external/summary", 0, "External devices summary"));
    v.push(ep("GET", "/api/wireguard/peers", 0, "List WireGuard peers"));
    v.push(ep("GET", "/api/wireguard/interfaces", 0, "List WireGuard interfaces"));
    v.push(ep("GET", "/api/aranea/devices", 0, "List aranea devices"));
    v.push(ep("GET", "/api/aranea/devices/:lacis_id/state", 0, "Get device state"));
    v.push(ep("GET", "/api/aranea/summary", 0, "Aranea config summary"));
    v.push(ep("GET", "/api/lacis-id/candidates", 0, "LacisID candidates"));
    v.push(ep("GET", "/api/topology", 0, "Network topology (CelestialGlobe)"));
    v.push(ep("GET", "/api/audit", 0, "Audit logs"));
    v.push(ep("GET", "/api/logs/operations", 0, "Operation logs"));
    v.push(ep("GET", "/api/logs/operations/summary", 0, "Operation logs summary"));
    v.push(ep("GET", "/api/my-ip", 0, "Detect client/server IP"));
    v.push(ep("GET", "/api/nginx/status", 0, "Nginx status"));
    v.push(ep("GET", "/api/nginx/config", 0, "Nginx config content"));
    v.push(ep("GET", "/api/nginx/template-settings", 0, "Nginx template settings"));
    v.push(ep("GET", "/api/agent/context", 0, "Agent context (this endpoint)"));
    assert(endpoint_views(v@) =~= start + read_endpoints());
}

/// Operate (permission 50): sync triggers, diagnostics and network tools.
pub open spec fn operate_endpoints() -> Seq<EndpointView> {
    seq![
        ("POST"@, "/api/tools/sync/omada"@, 50i32, "Trigger Omada sync"@),
        ("POST"@, "/api/tools/sync/openwrt"@, 50i32, "Trigger OpenWrt sync"@),
        ("POST"@, "/api/tools/sync/external"@, 50i32, "Trigger External sync"@),
        ("POST"@, "/api/tools/ddns/update-all"@, 50i32, "Trigger all DDNS updates"@),
        ("POST"@, "/api/tools/network/ping"@, 50i32, "Ping host from server"@),
        ("POST"@, "/api/tools/network/dns"@, 50i32, "DNS lookup"@),
        ("POST"@, "/api/tools/diagnostics"@, 50i32, "Run system diagnostics"@),
        ("POST"@, "/api/ddns/:id/update"@, 50i32, "Trigger single DDNS update"@),
        ("POST"@, "/api/omada/controllers/:id/sync"@, 50i32, "Sync single Omada controller"@),
        ("POST"@, "/api/openwrt/routers/:id/poll"@, 50i32, "Poll single OpenWrt router"@),
        ("POST"@, "/api/external/devices/:id/poll"@, 50i32, "Poll single external device"@),
    ]
}

#[verifier::rlimit(50)]
fn push_operate_endpoints(v: &mut Vec<EndpointInfo>)
    ensures
        endpoint_views(final(v)@) == endpoint_views(old(v)@) + operate_endpoints(),
{
    let ghost start = endpoint_views(v@);
    v.push(ep("POST", "/api/tools/sync/omada", 50, "Trigger Omada sync"));
    v.push(ep("POST", "/api/tools/sync/openwrt", 50, "Trigger OpenWrt sync"));
    v.push(ep("POST", "/api/tools/sync/external", 50, "Trigger External sync"));
    v.push(ep("POST", "/api/tools/ddns/update-all", 50, "Trigger all DDNS updates"));
    v.push(ep("POST", "/api/tools/network/ping", 50, "Ping host from server"));
    v.push(ep("POST", "/api/tools/network/dns", 50, "DNS lookup"));
    v.push(ep("POST", "/api/tools/diagnostics", 50, "Run system diagnostics"));
    v.push(ep("POST", "/api/ddns/:id/update", 50, "Trigger single DDNS update"));
    v.push(ep("POST", "/api/omada/controllers/:id/sync", 50, "Sync single Omada controller"));
    v.push(ep("POST", "/api/openwrt/routers/:id/poll", 50, "Poll single OpenWrt router"));
    v.push(ep("POST", "/api/external/devices/:id/poll", 50, "Poll single external device"));
    assert(endpoint_views(v@) =~= start + operate_endpoints());
}

/// Connection tests and pure computations (permission 0): no lasting effect.
pub open spec fn probe_endpoints() -> Seq<EndpointView> {
    seq![
        ("POST"@, "/api/omada/controllers/test"@, 0i32, "Test Omada connection (pre-registration)"@),
        ("POST"@, "/api/omada/test"@, 0i32, "Legacy Omada connection test"@),
        ("POST"@, "/api/openwrt/routers/test"@, 0i32, "Test OpenWrt SSH connection"@),
        ("POST"@, "/api/external/devices/test"@, 0i32, "Test external device connection"@),
        ("POST"@, "/api/lacis-id/compute"@, 0i32, "Compute LacisID"@),
        ("POST"@, "/api/wireguard/keypair"@, 0i32, "Generate WireGuard key pair"@),
        ("POST"@, "/api/wireguard/config"@, 0i32, "Generate WireGuard client config"@),
    ]
}

#[verifier::rlimit(50)]
fn push_probe_endpoints(v: &mut Vec<EndpointInfo>)
    ensures
        endpoint_views(final(v)@) == endpoint_views(old(v)@) + probe_endpoints(),
{
    let ghost start = endpoint_views(v@);
    v.push(ep("POST", "/api/omada/controllers/test", 0, "Test Omada connection (pre-registration)"));
    v.push(ep("POST", "/api/omada/test", 0, "Legacy Omada connection test"));
    v.push(ep("POST", "/api/openwrt/routers/test", 0, "Test OpenWrt SSH connection"));
    v.push(ep("POST", "/api/external/devices/test", 0, "Test external device connection"));
    v.push(ep("POST", "/api/lacis-id/compute", 0, "Compute LacisID"));
    v.push(ep("POST", "/api/wireguard/keypair", 0, "Generate WireGuard key pair"));
    v.push(ep("POST", "/api/wireguard/config", 0, "Generate WireGuard client config"));
    assert(endpoint_views(v@) =~= start + probe_endpoints());
}

/// Admin (permission 80): creating and updating, configuration changes.
pub open spec fn admin_endpoints() -> Seq<EndpointView> {
    seq![
        ("POST"@, "/api/routes"@, 80i32, "Create proxy route"@),
        ("PUT"@, "/api/routes/:id"@, 80i32, "Update proxy route"@),
        ("POST"@, "/api/ddns"@, 80i32, "Create DDNS configuration"@),
        ("PUT"@, "/api/ddns/:id"@, 80i32, "Update DDNS configuration"@),
        ("PUT"@, "/api/ddns/:id/link-omada"@, 80i32, "Link DDNS to Omada controller"@),
        ("POST"@, "/api/security/blocked-ips"@, 80i32, "Block an IP address"@),
        ("PUT"@, "/api/settings/:key"@, 80i32, "Update setting"@),
        ("PUT"@, "/api/settings/restart"@, 80i32, "Update restart settings"@),
        ("POST"@, "/api/settings/test-discord"@, 80i32, "Test Discord notification"@),
        ("POST"@, "/api/omada/controllers"@, 80i32, "Register Omada controller"@),
        ("POST"@, "/api/openwrt/routers"@, 80i32, "Register OpenWrt router"@),
        ("POST"@, "/api/external/devices"@, 80i32, "Register external device"@),
        ("POST"@, "/api/aranea/register"@, 80i32, "Register aranea device"@),
        ("POST"@, "/api/lacis-id/assign/:device_id"@, 80i32, "Assign LacisID to device"@),
        ("POST"@, "/api/wireguard/peers"@, 80i32, "Create WireGuard peer"@),
        ("PUT"@, "/api/wireguard/peers/:id"@, 80i32, "Update WireGuard peer"@),
        ("POST"@, "/api/nginx/enable-full-proxy"@, 80i32, "Enable full proxy mode"@),
        ("POST"@, "/api/nginx/reload"@, 80i32, "Reload nginx"@),
        ("POST"@, "/api/nginx/test"@, 80i32, "Test nginx config"@),
        ("PUT"@, "/api/nginx/body-size"@, 80i32, "Update nginx body size"@),
        ("PUT"@, "/api/nginx/template-settings"@, 80i32, "Update nginx template settings"@),
        ("POST"@, "/api/nginx/regenerate"@, 80i32, "Regenerate nginx config"@),
    ]
}

#[verifier::rlimit(50)]
fn push_admin_endpoints(v: &mut Vec<EndpointInfo>)
    ensures
        endpoint_views(final(v)@) == endpoint_views(old(v)@) + admin_endpoints(),
{
    let ghost start = endpoint_views(v@);
    v.push(ep("POST", "/api/routes", 80, "Create proxy route"));
    v.push(ep("PUT", "/api/routes/:id", 80, "Update proxy route"));
    v.push(ep("POST", "/api/ddns", 80, "Create DDNS configuration"));
    v.push(ep("PUT", "/api/ddns/:id", 80, "Update DDNS configuration"));
    v.push(ep("PUT", "/api/ddns/:id/link-omada", 80, "Link DDNS to Omada controller"));
    v.push(ep("POST", "/api/security/blocked-ips", 80, "Block an IP address"));
    v.push(ep("PUT", "/api/settings/:key", 80, "Update setting"));
    v.push(ep("PUT", "/api/settings/restart", 80, "Update restart settings"));
    v.push(ep("POST", "/api/settings/test-discord", 80, "Test Discord notification"));
    v.push(ep("POST", "/api/omada/controllers", 80, "Register Omada controller"));
    v.push(ep("POST", "/api/openwrt/routers", 80, "Register OpenWrt router"));
    v.push(ep("POST", "/api/external/devices", 80, "Register external device"));
    v.push(ep("POST", "/api/aranea/register", 80, "Register aranea device"));
    v.push(ep("POST", "/api/lacis-id/assign/:device_id", 80, "Assign LacisID to device"));
    v.push(ep("POST", "/api/wireguard/peers", 80, "Create WireGuard peer"));
    v.push(ep("PUT", "/api/wireguard/peers/:id", 80, "Update WireGuard peer"));
    v.push(ep("POST", "/api/nginx/enable-full-proxy", 80, "Enable full proxy mode"));
    v.push(ep("POST", "/api/nginx/reload", 80, "Reload nginx"));
    v.push(ep("POST", "/api/nginx/test", 80, "Test nginx config"));
    v.push(ep("PUT", "/api/nginx/body-size", 80, "Update nginx body size"));
    v.push(ep("PUT", "/api/nginx/template-settings", 80, "Update nginx template settings"));
    v.push(ep("POST", "/api/nginx/regenerate", 80, "Regenerate nginx config"));
    assert(endpoint_views(v@) =~= start + admin_endpoints());
}

/// Dangerous (permission 100): deletions (confirmation required) and the like.
pub open spec fn dangerous_endpoints() -> Seq<EndpointView> {
    seq![
        ("DELETE"@, "/api/routes/:id"@, 100i32, "Delete proxy route (confirm required)"@),
        ("DELETE"@, "/api/ddns/:id"@, 100i32, "Delete DDNS config (confirm required)"@),
        ("DELETE"@, "/api/security/blocked-ips/:id"@, 100i32, "Unblock IP (confirm required)"@),
        ("DELETE"@, "/api/omada/controllers/:id"@, 100i32, "Delete Omada controller (confirm required)"@),
        ("DELETE"@, "/api/openwrt/routers/:id"@, 100i32, "Delete OpenWrt router (confirm required)"@),
        ("DELETE"@, "/api/external/devices/:id"@, 100i32, "Delete external device (confirm required)"@),
        ("DELETE"@, "/api/wireguard/peers/:id"@, 100i32, "Delete WireGuard peer (confirm required)"@),
        ("POST"@, "/api/auth/api-key"@, 100i32, "Issue API key"@),
        ("POST"@, "/api/settings/restart/trigger"@, 100i32, "Trigger service restart"@),
    ]
}

#[verifier::rlimit(50)]
fn push_dangerous_endpoints(v: &mut Vec<EndpointInfo>)
    ensures
        endpoint_views(final(v)@) == endpoint_views(old(v)@) + dangerous_endpoints(),
{
    let ghost start = endpoint_views(v@);
    v.push(ep("DELETE", "/api/routes/:id", 100, "Delete proxy route (confirm required)"));
    v.push(ep("DELETE", "/api/ddns/:id", 100, "Delete DDNS config (confirm required)"));
    v.push(ep("DELETE", "/api/security/blocked-ips/:id", 100, "Unblock IP (confirm required)"));
    v.push(ep("DELETE", "/api/omada/controllers/:id", 100, "Delete Omada controller (confirm required)"));
    v.push(ep("DELETE", "/api/openwrt/routers/:id", 100, "Delete OpenWrt router (confirm required)"));
    v.push(ep("DELETE", "/api/external/devices/:id", 100, "Delete external device (confirm required)"));
    v.push(ep("DELETE", "/api/wireguard/peers/:id", 100, "Delete WireGuard peer (confirm required)"));
    v.push(ep("POST", "/api/auth/api-key", 100, "Issue API key"));
    v.push(ep("POST", "/api/settings/restart/trigger", 100, "Trigger service restart"));
    assert(endpoint_views(v@) =~= start + dangerous_endpoints());
}

/// Every endpoint of the API, in the order of the route table.
pub open spec fn endpoint_catalog() -> Seq<EndpointView> {
    read_endpoints() + operate_endpoints() + probe_endpoints() + admin_endpoints() + dangerous_endpoints()
}

/// The endpoints that a user with the given permission may call: those whose
/// required permission is at most the user's, in catalog order.
pub open spec fn visible_endpoints(permission: i32) -> Seq<EndpointView> {
    keep_where(endpoint_catalog(), |e: EndpointView| permission >= e.2)
}

/// Every endpoint of the API, in the order of the route table.
pub fn all_endpoints() -> (r: Vec<EndpointInfo>)
    ensures
        endpoint_views(r@) == endpoint_catalog(),
{
    let mut v: Vec<EndpointInfo> = Vec::new();
    assert(endpoint_views(v@) =~= Seq::<EndpointView>::empty());
    push_read_endpoints(&mut v);
    push_operate_endpoints(&mut v);
    push_probe_endpoints(&mut v);
    push_admin_endpoints(&mut v);
    push_dangerous_endpoints(&mut v);
    assert(endpoint_views(v@) =~= endpoint_catalog());
    v
}

/// The endpoints available to a user with the given permission.
pub fn build_endpoint_list(permission: i32) -> (r: Vec<EndpointInfo>)
    ensures
        endpoint_views(r@) == visible_endpoints(permission),
{
    let all = all_endpoints();
    let ghost cat = endpoint_views(all@);
    let ghost p = |e: EndpointView| permission >= e.2;
    let mut r: Vec<EndpointInfo> = Vec::new();
    let mut i: usize = 0;
    while i < all.len()
        invariant
            i <= all.len(),
            cat == endpoint_views(all@),
            cat.len() == all@.len(),
            p == (|e: EndpointView| permission >= e.2),
            endpoint_views(r@) == keep_where(cat.take(i as int), p),
        decreases all.len() - i,
    {
        proof {
            lemma_keep_step(cat, p, i as int);
            assert(cat[i as int] == all@[i as int]@);
        }
        if permission >= all[i].required_permission {
            let ghost before = endpoint_views(r@);
            let e = EndpointInfo {
                method: all[i].method.clone(),
                path: all[i].path.clone(),
                required_permission: all[i].required_permission,
                description: all[i].description.clone(),
            };
            r.push(e);
            assert(endpoint_views(r@) =~= before.push(cat[i as int]));
        }
        i = i + 1;
    }
    assert(cat.take(cat.len() as int) =~= cat);
    r
}

/// An endpoint is offered to a user exactly when it is in the catalog and
/// the user's permission reaches the one it requires.
pub proof fn lemma_endpoint_visible_iff(permission: i32, e: EndpointView)
    ensures
        visible_endpoints(permission).contains(e) <==> endpoint_catalog().contains(e) && permission >= e.2,
{
    lemma_keep_contains(endpoint_catalog(), |x: EndpointView| permission >= x.2, e);
}

/// More permission never hides an endpoint: what a user sees, any user with
/// at least the same permission sees too.
pub proof fn lemma_endpoints_grow_with_permission(low: i32, high: i32, e: EndpointView)
    requires
        low <= high,
        visible_endpoints(low).contains(e),
    ensures
        visible_endpoints(high).contains(e),
{
    lemma_endpoint_visible_iff(low, e);
    lemma_endpoint_visible_iff(high, e);
}


/// The sections that an agent context request may ask for.
pub struct AgentContextQuery {
    /// Comma-separated section names: routes, ddns, omada, openwrt,
    /// external, security, settings.
    pub sections: Option<String>,
}

/// The part of the agent context that is always included.
pub struct SystemContext {
    pub version: String,
    pub uptime_seconds: u64,
    pub server_health: String,
    pub auth_user: AuthUser,
    pub available_endpoints: Vec<EndpointInfo>,
}

/// The sections served when none are named.
pub open spec fn default_sections() -> Seq<char> {
    "routes,ddns,omada,openwrt,external,security,settings"@
}

/// The requested section names: the comma-separated names (or the default
/// list), each trimmed and lower-cased.
pub open spec fn spec_sections(raw: Option<Seq<char>>) -> Seq<Seq<char>> {
    let list = match raw {
        Some(r) => r,
        None => default_sections(),
    };
    split_on(list, ',').map_values(|p: Seq<char>| lowercased(trimmed(p)))
}

/// The section names an agent context request asks for.
pub fn requested_sections(raw: &Option<String>) -> (r: Vec<String>)
    ensures
        r@.map_values(|s: String| s@) == spec_sections(opt_view(*raw)),
{
    let parts = match raw {
        Some(s) => split_str(s.as_str(), ','),
        None => split_str("routes,ddns,omada,openwrt,external,security,settings", ','),
    };
    let ghost ps = parts@.map_values(|p: String| p@);
    let mut r: Vec<String> = Vec::new();
    let mut i: usize = 0;
    while i < parts.len()
        invariant
            i <= parts.len(),
            ps == parts@.map_values(|p: String| p@),
            r@.map_values(|s: String| s@) == ps.take(i as int).map_values(|p: Seq<char>| lowercased(trimmed(p))),
        decreases parts.len() - i,
    {
        let t = trim_str(parts[i].as_str());
        let l = lowercase(t.as_str());
        let ghost before = r@.map_values(|s: String| s@);
        r.push(l);
        assert(r@.map_values(|s: String| s@) =~= before.push(lowercased(trimmed(ps[i as int]))));
        assert(ps.take(i + 1).map_values(|p: Seq<char>| lowercased(trimmed(p)))
            =~= ps.take(i as int).map_values(|p: Seq<char>| lowercased(trimmed(p))).push(lowercased(trimmed(ps[i as int]))));
        i = i + 1;
    }
    assert(ps.take(ps.len() as int) =~= ps);
    r
}

/// Whether a section was asked for.
pub fn wants_section(sections: &Vec<String>, name: &str) -> (r: bool)
    ensures
        r == sections@.map_values(|s: String| s@).contains(name@),
{
    let ghost vs = sections@.map_values(|s: String| s@);
    let mut i: usize = 0;
    while i < sections.len()
        invariant
            i <= sections.len(),
            vs == sections@.map_values(|s: String| s@),
            forall|k: int| 0 <= k < i ==> vs[k] != name@,
        decreases sections.len() - i,
    {
        if str_eq(sections[i].as_str(), name) {
            assert(vs[i as int] == name@);
            return true;
        }
        i = i + 1;
    }
    false
}

/// What replaces a secret in the context handed out.
pub open spec fn mask() -> Seq<char> {
    "********"@
}

/// A secret as shown to an agent: present secrets are masked, absent ones
/// stay absent.
pub fn mask_secret(secret: &Option<String>) -> (r: Option<String>)
    ensures
        opt_view(r) == (if secret is Some { Some(mask()) } else { None }),
{
    match secret {
        Some(_) => Some(owned("********")),
        None => None,
    }
}

/// A setting's value as shown to readers (the settings list and an agent):
/// the Discord webhook URL, when set, is masked; every other value is shown
/// as stored.
pub fn mask_setting_value(key: &str, value: &Option<String>) -> (r: Option<String>)
    ensures
        opt_view(r) == (if key@ == "discord_webhook_url"@ && value is Some { Some(mask()) } else { opt_view(*value) }),
{
    if str_eq(key, "discord_webhook_url") && value.is_some() {
        Some(owned("********"))
    } else {
        crate::node_order::clone_opt(value)
    }
}

/// What the sections of an agent context are built from, as read from the
/// stores (only the sections asked for need be read).
pub struct AgentSources {
    pub routes: Vec<ProxyRoute>,
    pub ddns: Vec<DdnsConfig>,
    pub omada_controllers: Vec<OmadaControllerDoc>,
    pub omada_devices: usize,
    pub omada_clients: usize,
    pub openwrt_routers: Vec<OpenWrtRouterDoc>,
    pub openwrt_clients: usize,
    pub external_devices: Vec<ExternalDeviceDoc>,
    pub external_clients: usize,
    pub blocked_ips: Vec<BlockedIp>,
    pub recent_events: Vec<serde_json::Value>,
    pub settings: Vec<Setting>,
}

/// The Omada section: counts of controllers, devices and clients, and the
/// controllers.
pub struct OmadaSection {
    pub controllers: usize,
    pub devices: usize,
    pub clients: usize,
    pub controller_list: Vec<OmadaControllerDoc>,
}

/// The OpenWrt section: counts of routers and clients, and the routers.
pub struct OpenWrtSection {
    pub routers: usize,
    pub clients: usize,
    pub router_list: Vec<OpenWrtRouterDoc>,
}

/// The external-device section: counts of devices and clients, and the
/// devices.
pub struct ExternalSection {
    pub devices: usize,
    pub clients: usize,
    pub device_list: Vec<ExternalDeviceDoc>,
}

/// The security section: the blocked addresses and the latest events.
pub struct SecuritySection {
    pub blocked_ips: Vec<BlockedIp>,
    pub recent_events: Vec<serde_json::Value>,
}

/// The system state handed to an AI agent in one answer: the system part
/// always, and each other section exactly when it was asked for.
pub struct AgentContext {
    pub system: SystemContext,
    pub routes: Option<Vec<ProxyRoute>>,
    pub ddns: Option<Vec<DdnsConfig>>,
    pub omada: Option<OmadaSection>,
    pub openwrt: Option<OpenWrtSection>,
    pub external: Option<ExternalSection>,
    pub security: Option<SecuritySection>,
    pub settings: Option<Vec<Setting>>,
}

/// Whether a context request asks for a section.
pub open spec fn asks_for(raw: Option<Seq<char>>, name: Seq<char>) -> bool {
    spec_sections(raw).contains(name)
}

/// A secret as handed out: masked when present.
pub open spec fn shown_secret(secret: Option<String>) -> Option<Seq<char>> {
    if secret is Some { Some(mask()) } else { None }
}

/// A DDNS configuration as handed to an agent: password and API token
/// masked, everything else as stored.
pub open spec fn shown_ddns(stored: DdnsConfig, shown: DdnsConfig) -> bool {
    &&& opt_view(shown.password) == shown_secret(stored.password)
    &&& opt_view(shown.api_token) == shown_secret(stored.api_token)
    &&& shown == DdnsConfig { password: shown.password, api_token: shown.api_token, ..stored }
}

/// A setting as handed out (see `mask_setting_value`): its value masked
/// when it is the Discord webhook URL, every other field as stored.
pub open spec fn shown_setting(stored: Setting, shown: Setting) -> bool {
    &&& opt_view(shown.setting_value) == (if stored.setting_key@ == "discord_webhook_url"@ && stored.setting_value is Some {
        Some(mask())
    } else {
        opt_view(stored.setting_value)
    })
    &&& shown == Setting { setting_value: shown.setting_value, ..stored }
}

fn shown_ddns_list(stored: &Vec<DdnsConfig>) -> (r: Vec<DdnsConfig>)
    ensures
        r@.len() == stored@.len(),
        forall|i: int| 0 <= i < stored@.len() ==> shown_ddns(stored@[i], #[trigger] r@[i]),
{
    let mut r: Vec<DdnsConfig> = Vec::new();
    let mut i: usize = 0;
    while i < stored.len()
        invariant
            i <= stored.len(),
            r@.len() == i,
            forall|k: int| 0 <= k < i ==> shown_ddns(stored@[k], #[trigger] r@[k]),
        decreases stored.len() - i,
    {
        let c = stored[i].copy().masked();
        proof {
            let o = stored@[i as int];
            assert(c == DdnsConfig { password: c.password, api_token: c.api_token, ..o });
        }
        r.push(c);
        i = i + 1;
    }
    r
}

/// The settings as readers see them: each as stored, the Discord webhook
/// URL masked (see `shown_setting`).
pub fn shown_settings(stored: &Vec<Setting>) -> (r: Vec<Setting>)
    ensures
        r@.len() == stored@.len(),
        forall|i: int| 0 <= i < stored@.len() ==> shown_setting(stored@[i], #[trigger] r@[i]),
{
    let mut r: Vec<Setting> = Vec::new();
    let mut i: usize = 0;
    while i < stored.len()
        invariant
            i <= stored.len(),
            r@.len() == i,
            forall|k: int| 0 <= k < i ==> shown_setting(stored@[k], #[trigger] r@[k]),
        decreases stored.len() - i,
    {
        let st = &stored[i];
        let v = mask_setting_value(st.setting_key.as_str(), &st.setting_value);
        r.push(Setting {
            id: st.id,
            setting_key: st.setting_key.clone(),
            setting_value: v,
            description: crate::node_order::clone_opt(&st.description),
            updated_at: st.updated_at,
        });
        i = i + 1;
    }
    r
}

/// The context for an agent: the system part (version, uptime, `ok`
/// health, the user, and the endpoints the user may call), and each section
/// exactly when it was asked for (see `requested_sections`): the routes;
/// the DDNS configurations with password and API token masked; the Omada,
/// OpenWrt and external-device counts with their lists; the blocked
/// addresses with the latest events; the settings with the Discord webhook
/// masked.
pub fn agent_context(sections: &Option<String>, user: AuthUser, version: String, uptime_seconds: u64, sources: AgentSources) -> (r: AgentContext)
    ensures
        r.system.version == version,
        r.system.uptime_seconds == uptime_seconds,
        r.system.server_health@ == "ok"@,
        r.system.auth_user == user,
        endpoint_views(r.system.available_endpoints@) == visible_endpoints(user.permission),
        r.routes is Some == asks_for(opt_view(*sections), "routes"@),
        r.routes matches Some(v) ==> v == sources.routes,
        r.ddns is Some == asks_for(opt_view(*sections), "ddns"@),
        r.ddns matches Some(v) ==> v@.len() == sources.ddns@.len()
            && forall|i: int| 0 <= i < v@.len() ==> shown_ddns(sources.ddns@[i], #[trigger] v@[i]),
        r.omada is Some == asks_for(opt_view(*sections), "omada"@),
        r.omada matches Some(o) ==> o.controllers == sources.omada_controllers@.len() && o.devices == sources.omada_devices
            && o.clients == sources.omada_clients && o.controller_list == sources.omada_controllers,
        r.openwrt is Some == asks_for(opt_view(*sections), "openwrt"@),
        r.openwrt matches Some(o) ==> o.routers == sources.openwrt_routers@.len() && o.clients == sources.openwrt_clients
            && o.router_list == sources.openwrt_routers,
        r.external is Some == asks_for(opt_view(*sections), "external"@),
        r.external matches Some(o) ==> o.devices == sources.external_devices@.len() && o.clients == sources.external_clients
            && o.device_list == sources.external_devices,
        r.security is Some == asks_for(opt_view(*sections), "security"@),
        r.security matches Some(o) ==> o.blocked_ips == sources.blocked_ips && o.recent_events == sources.recent_events,
        r.settings is Some == asks_for(opt_view(*sections), "settings"@),
        r.settings matches Some(v) ==> v@.len() == sources.settings@.len()
            && forall|i: int| 0 <= i < v@.len() ==> shown_setting(sources.settings@[i], #[trigger] v@[i]),
{
    let names = requested_sections(sections);
    let endpoints = build_endpoint_list(user.permission);
    let routes = if wants_section(&names, "routes") { Some(sources.routes) } else { None };
    let ddns = if wants_section(&names, "ddns") { Some(shown_ddns_list(&sources.ddns)) } else { None };
    let omada = if wants_section(&names, "omada") {
        Some(OmadaSection {
            controllers: sources.omada_controllers.len(),
            devices: sources.omada_devices,
            clients: sources.omada_clients,
            controller_list: sources.omada_controllers,
        })
    } else {
        None
    };
    let openwrt = if wants_section(&names, "openwrt") {
        Some(OpenWrtSection {
            routers: sources.openwrt_routers.len(),
            clients: sources.openwrt_clients,
            router_list: sources.openwrt_routers,
        })
    } else {
        None
    };
    let external = if wants_section(&names, "external") {
        Some(ExternalSection {
            devices: sources.external_devices.len(),
            clients: sources.external_clients,
            device_list: sources.external_devices,
        })
    } else {
        None
    };
    let security = if wants_section(&names, "security") {
        Some(SecuritySection { blocked_ips: sources.blocked_ips, recent_events: sources.recent_events })
    } else {
        None
    };
    let settings = if wants_section(&names, "settings") { Some(shown_settings(&sources.settings)) } else { None };
    AgentContext {
        system: SystemContext {
            version,
            uptime_seconds,
            server_health: owned("ok"),
            auth_user: user,
            available_endpoints: endpoints,
        },
        routes,
        ddns,
        omada,
        openwrt,
        external,
        security,
        settings,
    }
}

} // verus!
