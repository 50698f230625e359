//! What the DDNS endpoints decide: which configurations are complete, what
//! readers see, and how a name's published address is compared with the
//! gateway's.

use vstd::prelude::*;
use crate::auth::AppError;
use crate::ddns::ddns_config_not_found;
use crate::docs::OmadaControllerDoc;
use crate::models::{CreateDdnsRequest, DdnsProvider};
use crate::node_order::{controller_with_id, find_controller, opt_index, opt_view};
use crate::seqs::first_index;
use crate::text::{append_str, decimal_i64, decimal_int, owned};
use crate::topology_api::{confirm_required, ConfirmRequired};

verus! {

/// A new configuration names what its provider needs: user name and
/// password for DynDNS and No-IP, API token and zone for Cloudflare.
pub open spec fn spec_ddns_request_complete(req: CreateDdnsRequest) -> bool {
    match req.provider {
        DdnsProvider::Cloudflare => req.api_token.is_some() && req.zone_id.is_some(),
        _ => req.username.is_some() && req.password.is_some(),
    }
}

pub fn validate_create_ddns(req: &CreateDdnsRequest) -> (r: Result<(), AppError>)
    ensures
        r is Ok <==> spec_ddns_request_complete(*req),
        r matches Err(AppError::BadRequest(m)) ==> match req.provider {
            DdnsProvider::Cloudflare => m@ == "API token and zone ID required for Cloudflare"@,
            _ => m@ == "Username and password required for DynDNS/No-IP"@,
        },
        r matches Err(e) ==> e is BadRequest,
{
    match req.provider {
        DdnsProvider::Cloudflare => {
            if req.api_token.is_none() || req.zone_id.is_none() {
                return Err(AppError::BadRequest(owned("API token and zone ID required for Cloudflare")));
            }
        },
        _ => {
            if req.username.is_none() || req.password.is_none() {
                return Err(AppError::BadRequest(owned("Username and password required for DynDNS/No-IP")));
            }
        },
    }
    Ok(())
}

/// `DDNS config {id} not found`, as an answer.
pub fn ddns_not_found(id: i32) -> (r: AppError)
    ensures
        r matches AppError::NotFound(m) && m@ == "DDNS config "@ + decimal_int(id as int) + " not found"@,
{
    AppError::NotFound(ddns_config_not_found(id))
}

/// What a deletion of configuration `id` would remove: `DDNS #{id}`, with
/// its host name when it exists.
pub open spec fn spec_ddns_target(id: i32, hostname: Option<Seq<char>>) -> Seq<char> {
    match hostname {
        Some(h) => "DDNS #"@ + decimal_int(id as int) + " ("@ + h + ")"@,
        None => "DDNS #"@ + decimal_int(id as int),
    }
}

/// The confirmation a deletion asks for before it is done.
pub fn ddns_delete_confirmation(id: i32, hostname: &Option<String>) -> (c: ConfirmRequired)
    ensures
        c.action@ == "delete_ddns"@,
        c.target@ == spec_ddns_target(id, opt_view(*hostname)),
        c.warning@ == "This will remove the DDNS configuration. DNS updates will stop."@,
        c.confirm_required,
{
    let mut t = owned("DDNS #");
    let d = decimal_i64(id as i64);
    append_str(&mut t, d.as_str());
    if let Some(h) = hostname {
        append_str(&mut t, " (");
        append_str(&mut t, h.as_str());
        append_str(&mut t, ")");
    }
    confirm_required("delete_ddns", t.as_str(), owned("This will remove the DDNS configuration. DNS updates will stop."))
}

/// The gateway's WAN address and the address the name resolves to differ;
/// unknown when either is missing, which is no mismatch.
pub fn ip_mismatch(wan_ip: &Option<String>, resolved_ip: &Option<String>) -> (r: bool)
    ensures
        r == (wan_ip.is_some() && resolved_ip.is_some() && wan_ip.unwrap()@ != resolved_ip.unwrap()@),
{
    match (wan_ip, resolved_ip) {
        (Some(w), Some(d)) => !crate::text::str_eq(w.as_str(), d.as_str()),
        _ => false,
    }
}

/// The display name of the first controller with the given id.
pub fn linked_controller_name(controllers: &Vec<OmadaControllerDoc>, controller_id: &str) -> (r: Option<String>)
    ensures
        match first_index(controllers@, controller_with_id(controller_id@)) {
            Some(i) => r == Some(controllers@[i].display_name),
            None => r is None,
        },
{
    match find_controller(controllers, controller_id) {
        Some(i) => Some(controllers[i].display_name.clone()),
        None => None,
    }
}

/// A link may only name a controller that is registered; unlinking (no
/// controller) is always allowed.
pub fn check_link_controller(controller_id: &Option<String>, controllers: &Vec<OmadaControllerDoc>) -> (r: Result<(), AppError>)
    ensures
        match controller_id {
            None => r is Ok,
            Some(c) => match first_index(controllers@, controller_with_id(c@)) {
                Some(_) => r is Ok,
                None => r matches Err(AppError::NotFound(m)) && m@ == "Omada controller "@ + c@ + " not found"@,
            },
        },
{
    if let Some(c) = controller_id {
        if find_controller(controllers, c.as_str()).is_none() {
            let mut m = owned("Omada controller ");
            append_str(&mut m, c.as_str());
            append_str(&mut m, " not found");
            return Err(AppError::NotFound(m));
        }
    }
    Ok(())
}

/// The controller whose port forwards a configuration shows: the one it is
/// linked to.
pub fn port_forward_controller(omada_controller_id: &Option<String>) -> (r: Result<String, AppError>)
    ensures
        match omada_controller_id {
            Some(c) => r == Ok::<String, AppError>(*c),
            None => r matches Err(AppError::BadRequest(m)) && m@ == "DDNS config is not linked to an Omada controller"@,
        },
{
    match omada_controller_id {
        Some(c) => Ok(c.clone()),
        None => Err(AppError::BadRequest(owned("DDNS config is not linked to an Omada controller"))),
    }
}

/// `Omada client for controller {id} not found`.
pub fn omada_client_not_found(controller_id: &str) -> (r: AppError)
    ensures
        r matches AppError::NotFound(m) && m@ == "Omada client for controller "@ + controller_id@ + " not found"@,
{
    let mut m = owned("Omada client for controller ");
    append_str(&mut m, controller_id);
    append_str(&mut m, " not found");
    AppError::NotFound(m)
}

/// `DDNS update failed: {e}`.
pub fn ddns_update_failed(e: &str) -> (r: AppError)
    ensures
        r matches AppError::InternalError(m) && m@ == "DDNS update failed: "@ + e@,
{
    let mut m = owned("DDNS update failed: ");
    append_str(&mut m, e);
    AppError::InternalError(m)
}

} // verus!
