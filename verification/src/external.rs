//! External devices (Mercury AC access points and manually kept ones): their
//! protocols and registration.

use vstd::prelude::*;
use crate::docs::ExternalDeviceDoc;
use crate::lacis_id::{normalize_mac_for_lacis_id, spec_normalize_mac};
use crate::text::{keeps_lower_case, lowercase, lowercased, owned, str_eq};

verus! {

/// How an external device is reached.
#[derive(PartialEq, Eq, Structural)]
pub enum DeviceProtocol {
    MercuryAC,
    /// Not supported yet.
    Deco,
    /// Kept by hand, never polled.
    Generic,
}

/// The protocol a stored name stands for (case-insensitive); unknown names
/// are `Generic`.
pub open spec fn spec_protocol(s: Seq<char>) -> DeviceProtocol {
    let l = lowercased(s);
    if l == "mercury_ac"@ {
        DeviceProtocol::MercuryAC
    } else if l == "deco"@ {
        DeviceProtocol::Deco
    } else {
        DeviceProtocol::Generic
    }
}

pub open spec fn spec_protocol_name(p: DeviceProtocol) -> Seq<char> {
    match p {
        DeviceProtocol::MercuryAC => "mercury_ac"@,
        DeviceProtocol::Deco => "deco"@,
        DeviceProtocol::Generic => "generic"@,
    }
}

pub open spec fn spec_protocol_product_type(p: DeviceProtocol) -> Seq<char> {
    match p {
        DeviceProtocol::MercuryAC => "103"@,
        DeviceProtocol::Deco => "103"@,
        DeviceProtocol::Generic => "191"@,
    }
}

pub open spec fn spec_protocol_device_type(p: DeviceProtocol) -> Seq<char> {
    match p {
        DeviceProtocol::MercuryAC => "AccessPoint"@,
        DeviceProtocol::Deco => "AccessPoint"@,
        DeviceProtocol::Generic => "Unknown"@,
    }
}

proof fn lemma_names_keep_case(s: Seq<char>)
    ensures
        (s == "mercury_ac"@ || s == "deco"@ || s == "generic"@)
            ==> forall|i: int| 0 <= i < s.len() ==> keeps_lower_case(#[trigger] s[i]),
{
    reveal_strlit("mercury_ac");
    reveal_strlit("deco");
    reveal_strlit("generic");
}

impl DeviceProtocol {
    /// The stored name of the protocol.
    pub fn as_str(&self) -> (r: &'static str)
        ensures
            r@ == spec_protocol_name(*self),
    {
        match self {
            DeviceProtocol::MercuryAC => "mercury_ac",
            DeviceProtocol::Deco => "deco",
            DeviceProtocol::Generic => "generic",
        }
    }

    /// The protocol a stored name stands for (see `spec_protocol`); a
    /// protocol's own stored name gives it back.
    pub fn from_str(s: &str) -> (r: DeviceProtocol)
        ensures
            r == spec_protocol(s@),
            forall|p: DeviceProtocol| s@ == spec_protocol_name(p) ==> r == p,
    {
        proof {
            reveal_strlit("mercury_ac");
            reveal_strlit("deco");
            reveal_strlit("generic");
            lemma_names_keep_case(s@);
        }
        let l = lowercase(s);
        if str_eq(l.as_str(), "mercury_ac") {
            DeviceProtocol::MercuryAC
        } else if str_eq(l.as_str(), "deco") {
            DeviceProtocol::Deco
        } else {
            DeviceProtocol::Generic
        }
    }

    /// The product type code of such devices: 103 (access point) or 191
    /// (unknown).
    pub fn product_type(&self) -> (r: &'static str)
        ensures
            r@ == spec_protocol_product_type(*self),
    {
        match self {
            DeviceProtocol::MercuryAC => "103",
            DeviceProtocol::Deco => "103",
            DeviceProtocol::Generic => "191",
        }
    }

    /// The network device type of such devices.
    pub fn network_device_type(&self) -> (r: &'static str)
        ensures
            r@ == spec_protocol_device_type(*self),
    {
        match self {
            DeviceProtocol::MercuryAC => "AccessPoint",
            DeviceProtocol::Deco => "AccessPoint",
            DeviceProtocol::Generic => "Unknown",
        }
    }

    /// Only Mercury AC devices are polled.
    pub fn polls(&self) -> (r: bool)
        ensures
            r == (*self == DeviceProtocol::MercuryAC),
    {
        match self {
            DeviceProtocol::MercuryAC => true,
            _ => false,
        }
    }
}

/// A device registration.
pub struct RegisterDeviceRequest {
    pub display_name: String,
    pub mac: String,
    pub ip: String,
    pub protocol: String,
    pub username: Option<String>,
    pub password: Option<String>,
}

/// A connection test before registration.
pub struct TestDeviceRequest {
    pub ip: String,
    pub protocol: String,
    pub username: Option<String>,
    pub password: Option<String>,
}

/// The clients of one external device (or of all).
pub struct ExternalClientQuery {
    pub device_id: Option<String>,
}

/// The stored document of a newly registered device: keyed by its
/// normalized MAC, offline, with no clients yet, and typed by its protocol.
pub fn new_external_device(req: &RegisterDeviceRequest, now: &str) -> (d: ExternalDeviceDoc)
    ensures
        d.device_id@ == spec_normalize_mac(req.mac@),
        d.mac@ == spec_normalize_mac(req.mac@),
        d.display_name == req.display_name,
        d.ip == req.ip,
        d.protocol@ == spec_protocol_name(spec_protocol(req.protocol@)),
        d.username == req.username,
        d.password == req.password,
        d.status@ == "offline"@,
        d.device_model is None,
        d.client_count == 0,
        d.last_error is None,
        d.omada_controller_id is None,
        d.omada_site_id is None,
        d.lacis_id is None,
        d.product_type@ == spec_protocol_product_type(spec_protocol(req.protocol@)),
        d.network_device_type@ == spec_protocol_device_type(spec_protocol(req.protocol@)),
        d.last_polled_at is None,
        d.created_at@ == now@,
        d.updated_at@ == now@,
{
    let id = normalize_mac_for_lacis_id(req.mac.as_str());
    let proto = DeviceProtocol::from_str(req.protocol.as_str());
    ExternalDeviceDoc {
        device_id: id.clone(),
        display_name: req.display_name.clone(),
        mac: id,
        ip: req.ip.clone(),
        protocol: owned(proto.as_str()),
        username: crate::node_order::clone_opt(&req.username),
        password: crate::node_order::clone_opt(&req.password),
        status: owned("offline"),
        device_model: None,
        client_count: 0,
        last_error: None,
        omada_controller_id: None,
        omada_site_id: None,
        lacis_id: None,
        product_type: owned(proto.product_type()),
        network_device_type: owned(proto.network_device_type()),
        last_polled_at: None,
        created_at: owned(now),
        updated_at: owned(now),
    }
}

/// The credentials used to log in to a Mercury AC device: the stored user
/// (`admin` when none) and password (empty when none).
pub fn mercury_credentials(username: &Option<String>, password: &Option<String>) -> (r: (String, String))
    ensures
        r.0@ == match *username { Some(u) => u@, None => "admin"@ },
        r.1@ == match *password { Some(p) => p@, None => Seq::<char>::empty() },
{
    let u = match username {
        Some(u) => u.clone(),
        None => owned("admin"),
    };
    let p = match password {
        Some(p) => p.clone(),
        None => String::new(),
    };
    (u, p)
}

} // verus!
