//! The requests that register and test Omada controllers and OpenWrt
//! routers, and what their management endpoints report.

use vstd::prelude::*;
use crate::node_order::opt_view;
use crate::text::{append_str, decimal_nat, decimal_u64, owned};
use crate::topology_api::{confirm_required, ConfirmRequired};

verus! {

/// A controller to register.
pub struct RegisterControllerRequest {
    pub display_name: String,
    pub base_url: String,
    pub client_id: String,
    pub client_secret: String,
}

/// A controller to try before it is registered.
pub struct TestConnectionRequest {
    pub base_url: String,
    pub client_id: String,
    pub client_secret: String,
}

/// Which Omada devices to list.
pub struct OmadaDeviceQuery {
    pub controller_id: Option<String>,
    pub site_id: Option<String>,
}

/// Which Omada clients to list.
pub struct OmadaClientQuery {
    pub controller_id: Option<String>,
    pub site_id: Option<String>,
    pub active: Option<bool>,
}

/// Which Omada WireGuard peers to list.
pub struct OmadaWgQuery {
    pub controller_id: Option<String>,
    pub site_id: Option<String>,
}

/// A router to register.
pub struct RegisterRouterRequest {
    pub display_name: String,
    pub mac: String,
    pub ip: String,
    pub port: Option<u16>,
    pub username: String,
    pub password: String,
    pub firmware: String,
}

/// A router to try before it is registered.
pub struct TestRouterRequest {
    pub ip: String,
    pub port: Option<u16>,
    pub username: String,
    pub password: String,
    pub firmware: String,
}

/// Which OpenWrt clients to list.
pub struct OpenWrtClientQuery {
    pub router_id: Option<String>,
}

/// The SSH port of a router: the one given, else 22.
pub fn ssh_port(port: Option<u16>) -> (r: u16)
    ensures
        r == match port { Some(p) => p, None => 22u16 },
{
    match port {
        Some(p) => p,
        None => 22,
    }
}

/// `{what} {id} {done}`: how a done operation on a controller or router is
/// reported, such as `Controller c1 synced`.
pub fn done_message(what: &str, id: &str, done: &str) -> (r: String)
    ensures
        r@ == what@ + " "@ + id@ + " "@ + done@,
{
    let mut m = owned(what);
    append_str(&mut m, " ");
    append_str(&mut m, id);
    append_str(&mut m, " ");
    append_str(&mut m, done);
    m
}

/// What removing controller `id` would remove: named when it is known.
pub open spec fn spec_controller_target(id: Seq<char>, name: Option<Seq<char>>) -> Seq<char> {
    match name {
        Some(n) => "Omada controller '"@ + n + "' ("@ + id + ")"@,
        None => "Omada controller "@ + id,
    }
}

/// The confirmation a controller removal asks for before it is done.
pub fn controller_delete_confirmation(id: &str, display_name: &Option<String>) -> (c: ConfirmRequired)
    ensures
        c.action@ == "delete_controller"@,
        c.target@ == spec_controller_target(id@, opt_view(*display_name)),
        c.warning@ == "This will remove the Omada controller and all synced device/client data."@,
        c.confirm_required,
{
    let t = match display_name {
        Some(n) => {
            let mut t = owned("Omada controller '");
            append_str(&mut t, n.as_str());
            append_str(&mut t, "' (");
            append_str(&mut t, id);
            append_str(&mut t, ")");
            t
        },
        None => {
            let mut t = owned("Omada controller ");
            append_str(&mut t, id);
            t
        },
    };
    confirm_required("delete_controller", t.as_str(), owned("This will remove the Omada controller and all synced device/client data."))
}

/// The confirmation a router removal asks for before it is done.
pub fn router_delete_confirmation(id: &str) -> (c: ConfirmRequired)
    ensures
        c.action@ == "delete_router"@,
        c.target@ == "OpenWrt router "@ + id@,
        c.warning@ == "This will remove the OpenWrt router and all synced client data."@,
        c.confirm_required,
{
    let mut t = owned("OpenWrt router ");
    append_str(&mut t, id);
    confirm_required("delete_router", t.as_str(), owned("This will remove the OpenWrt router and all synced client data."))
}

/// How the stored controller configuration was found.
pub enum LegacyConfig {
    Configured,
    NotConfigured,
    LoadFailed(String),
}

/// How the device listing went.
pub enum LegacyDevices {
    Listed(u64),
    Failed(String),
}

/// The answer to the legacy connection test once the configuration was
/// looked up: nothing more to ask when none was found or it could not be
/// read; `None` when the devices are to be listed next.
pub open spec fn spec_legacy_config_answer(config: LegacyConfig) -> Option<(bool, Seq<char>)> {
    match config {
        LegacyConfig::Configured => None,
        LegacyConfig::NotConfigured => Some((false, "Omada not configured"@)),
        LegacyConfig::LoadFailed(e) => Some((false, "Config load failed: "@ + e@)),
    }
}

pub fn legacy_config_answer(config: &LegacyConfig) -> (r: Option<(bool, String)>)
    ensures
        match r {
            Some((ok, m)) => spec_legacy_config_answer(*config) == Some((ok, m@)),
            None => spec_legacy_config_answer(*config) is None,
        },
{
    match config {
        LegacyConfig::Configured => None,
        LegacyConfig::NotConfigured => Some((false, owned("Omada not configured"))),
        LegacyConfig::LoadFailed(e) => {
            let mut m = owned("Config load failed: ");
            append_str(&mut m, e.as_str());
            Some((false, m))
        },
    }
}

/// The answer to the legacy connection test once the devices were listed.
pub open spec fn spec_legacy_devices_answer(devices: LegacyDevices) -> (bool, Seq<char>) {
    match devices {
        LegacyDevices::Listed(n) => (true, "Connected! Found "@ + decimal_nat(n as nat) + " devices"@),
        LegacyDevices::Failed(e) => (false, "Connection failed: "@ + e@),
    }
}

pub fn legacy_devices_answer(devices: &LegacyDevices) -> (r: (bool, String))
    ensures
        (r.0, r.1@) == spec_legacy_devices_answer(*devices),
{
    match devices {
        LegacyDevices::Listed(n) => {
            let mut m = owned("Connected! Found ");
            let d = decimal_u64(*n);
            append_str(&mut m, d.as_str());
            append_str(&mut m, " devices");
            (true, m)
        },
        LegacyDevices::Failed(e) => {
            let mut m = owned("Connection failed: ");
            append_str(&mut m, e.as_str());
            (false, m)
        },
    }
}

} // verus!
