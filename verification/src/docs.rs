//! Stored documents of the network sources (Omada, OpenWrt, external
//! devices) and of the topology store, as plain values.

use vstd::prelude::*;

verus! {

/// A site of an Omada controller, with its facility mapping.
pub struct OmadaSiteMapping {
    pub site_id: String,
    pub name: String,
    pub region: Option<String>,
    pub fid: Option<String>,
    pub tid: Option<String>,
    pub fid_display_name: Option<String>,
}

/// A registered Omada controller.
pub struct OmadaControllerDoc {
    pub controller_id: String,
    pub display_name: String,
    pub base_url: String,
    pub client_id: String,
    pub client_secret: String,
    pub omadac_id: String,
    pub controller_ver: String,
    pub api_ver: String,
    pub status: String,
    pub last_error: Option<String>,
    pub sites: Vec<OmadaSiteMapping>,
    pub last_synced_at: Option<String>,
    pub created_at: String,
    pub updated_at: String,
}

/// A device (gateway, switch, access point) managed by an Omada controller.
pub struct OmadaDeviceDoc {
    pub mac: String,
    pub controller_id: String,
    pub site_id: String,
    pub name: String,
    pub device_type: String,
    pub model: Option<String>,
    pub ip: Option<String>,
    pub status: i32,
    pub firmware_version: Option<String>,
    pub lacis_id: Option<String>,
    pub product_type: String,
    pub network_device_type: String,
    pub synced_at: String,
    pub created_at: String,
    pub updated_at: String,
}

/// A client seen by an Omada controller.
pub struct OmadaClientDoc {
    pub mac: String,
    pub controller_id: String,
    pub site_id: String,
    pub name: Option<String>,
    pub host_name: Option<String>,
    pub ip: Option<String>,
    pub ipv6_list: Vec<String>,
    pub vendor: Option<String>,
    pub device_type: Option<String>,
    pub device_category: Option<String>,
    pub os_name: Option<String>,
    pub model: Option<String>,
    pub connect_type: Option<i32>,
    pub wireless: bool,
    pub ssid: Option<String>,
    pub signal_level: Option<i32>,
    pub rssi: Option<i32>,
    pub ap_mac: Option<String>,
    pub ap_name: Option<String>,
    pub wifi_mode: Option<i32>,
    pub channel: Option<i32>,
    pub switch_mac: Option<String>,
    pub switch_name: Option<String>,
    pub port: Option<i32>,
    pub vid: Option<i32>,
    pub traffic_down: i64,
    pub traffic_up: i64,
    pub uptime: i64,
    pub active: bool,
    pub blocked: bool,
    pub guest: bool,
    pub lacis_id: Option<String>,
    pub last_seen_at: Option<String>,
    pub synced_at: String,
    pub created_at: String,
    pub updated_at: String,
}

/// A WireGuard peer configured on an Omada gateway.
pub struct OmadaWgPeerDoc {
    pub peer_id: String,
    pub controller_id: String,
    pub site_id: String,
    pub name: String,
    pub status: bool,
    pub interface_id: String,
    pub interface_name: String,
    pub public_key: String,
    pub allow_address: Vec<String>,
    pub keep_alive: i32,
    pub comment: Option<String>,
    pub synced_at: String,
    pub created_at: String,
    pub updated_at: String,
}

/// Counts over the Omada collections.
pub struct OmadaSummaryDoc {
    pub total_controllers: u64,
    pub connected_controllers: u64,
    pub total_devices: u64,
    pub online_devices: u64,
    pub total_clients: u64,
    pub active_clients: u64,
    pub total_wg_peers: u64,
    pub active_wg_peers: u64,
}

/// A registered OpenWrt router.
pub struct OpenWrtRouterDoc {
    pub router_id: String,
    pub display_name: String,
    pub mac: String,
    pub ip: String,
    pub port: u16,
    pub username: String,
    pub password: String,
    pub firmware: String,
    pub status: String,
    pub wan_ip: Option<String>,
    pub lan_ip: Option<String>,
    pub ssid_24g: Option<String>,
    pub ssid_5g: Option<String>,
    pub uptime_seconds: Option<u64>,
    pub client_count: u32,
    pub firmware_version: Option<String>,
    pub last_error: Option<String>,
    pub omada_controller_id: Option<String>,
    pub omada_site_id: Option<String>,
    pub lacis_id: Option<String>,
    pub product_type: String,
    pub network_device_type: String,
    pub last_polled_at: Option<String>,
    pub created_at: String,
    pub updated_at: String,
}

/// A client seen by an OpenWrt router.
pub struct OpenWrtClientDoc {
    pub mac: String,
    pub router_id: String,
    pub ip: String,
    pub hostname: Option<String>,
    pub lacis_id: Option<String>,
    pub active: bool,
    pub last_seen_at: String,
    pub synced_at: String,
    pub created_at: String,
    pub updated_at: String,
}

/// A registered external device (Mercury AC and the like).
pub struct ExternalDeviceDoc {
    pub device_id: String,
    pub display_name: String,
    pub mac: String,
    pub ip: String,
    pub protocol: String,
    pub username: Option<String>,
    pub password: Option<String>,
    pub status: String,
    pub device_model: Option<String>,
    pub client_count: u32,
    pub last_error: Option<String>,
    pub omada_controller_id: Option<String>,
    pub omada_site_id: Option<String>,
    pub lacis_id: Option<String>,
    pub product_type: String,
    pub network_device_type: String,
    pub last_polled_at: Option<String>,
    pub created_at: String,
    pub updated_at: String,
}

/// A client seen by an external device.
pub struct ExternalClientDoc {
    pub mac: String,
    pub device_id: String,
    pub ip: Option<String>,
    pub hostname: Option<String>,
    pub lacis_id: Option<String>,
    pub active: bool,
    pub last_seen_at: String,
    pub synced_at: String,
    pub created_at: String,
    pub updated_at: String,
}

/// A user-defined (logic) device of the topology.
pub struct LogicDeviceDoc {
    pub id: String,
    pub label: String,
    pub device_type: String,
    pub parent_id: Option<String>,
    pub ip: Option<String>,
    pub location: Option<String>,
    pub note: Option<String>,
    pub lacis_id: Option<String>,
    pub created_at: String,
    pub updated_at: String,
}

/// The saved topology view state (the key is always `global`).
pub struct TopologyStateDoc {
    pub key: String,
    pub collapsed_node_ids: Vec<String>,
    pub last_layout_at: String,
}

/// An IP address seen for a device, with the span it was seen in.
pub struct IpHistoryEntry {
    pub ip: String,
    pub source: String,
    pub first_seen: String,
    pub last_seen: String,
}

/// Who performed a logged operation.
pub struct OperatorInfo {
    pub sub: String,
    pub auth_method: String,
    pub permission: i32,
}

/// Filters of an operation log query.
pub struct OperationLogQuery {
    pub operation_type: Option<String>,
    pub status: Option<String>,
    pub from: Option<String>,
    pub to: Option<String>,
    pub limit: Option<i64>,
    pub offset: Option<u64>,
}

} // verus!
