//! Verified core of the LacisProxyGateway backend: identifiers, topology,
//! authorisation rules, configuration rendering and health tracking.

pub mod text;
pub mod seqs;
pub mod lacis_id;
pub mod mac;
pub mod json;
pub mod topology;
pub mod health;
pub mod docs;
pub mod node_order;
pub mod agent;
pub mod auth;
pub mod settings;
pub mod nginx;
pub mod dashboard;
pub mod diagnostics;
pub mod lacis_candidates;
pub mod topology_api;
pub mod api;
pub mod external;
pub mod mercury;
pub mod config;
pub mod models;
pub mod ddns;
pub mod ddns_api;
pub mod routes;
pub mod security;
pub mod tools;
pub mod wireguard;
pub mod network_api;
pub mod notify;
pub mod aranea;
pub mod access_log;
pub mod operation_log;
