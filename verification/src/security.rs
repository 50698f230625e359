//! Blocking addresses: what a block request must hold and what is shown
//! before an address is let in again.

use vstd::prelude::*;
use crate::auth::AppError;
use crate::node_order::opt_view;
use crate::text::{append_str, decimal_i64, decimal_int, owned};
use crate::topology_api::{confirm_required, ConfirmRequired};

verus! {

/// A block request names an address.
pub fn validate_block_ip(ip: &str) -> (r: Result<(), AppError>)
    ensures
        r is Ok <==> ip@.len() > 0,
        r matches Err(e) ==> (e matches AppError::BadRequest(m) && m@ == "IP address is required"@),
{
    if ip.unicode_len() == 0 {
        return Err(AppError::BadRequest(owned("IP address is required")));
    }
    Ok(())
}

/// An address that is blocked already is not blocked again.
pub fn check_not_blocked(ip: &str, already_blocked: bool) -> (r: Result<(), AppError>)
    ensures
        r is Ok <==> !already_blocked,
        r matches Err(e) ==> (e matches AppError::BadRequest(m) && m@ == "IP "@ + ip@ + " is already blocked"@),
{
    if already_blocked {
        let mut m = owned("IP ");
        append_str(&mut m, ip);
        append_str(&mut m, " is already blocked");
        return Err(AppError::BadRequest(m));
    }
    Ok(())
}

/// The reason recorded with a block: the one given, else `Manual block`.
pub fn block_reason(reason: &Option<String>) -> (r: String)
    ensures
        r@ == match opt_view(*reason) { Some(x) => x, None => "Manual block"@ },
{
    match reason {
        Some(x) => x.clone(),
        None => owned("Manual block"),
    }
}

/// What unblocking entry `id` would let in.
pub open spec fn spec_unblock_target(id: i32, ip: Option<Seq<char>>) -> Seq<char> {
    match ip {
        Some(a) => "blocked IP #"@ + decimal_int(id as int) + " ("@ + a + ")"@,
        None => "blocked IP #"@ + decimal_int(id as int),
    }
}

/// The confirmation an unblock asks for before it is done.
pub fn unblock_confirmation(id: i32, ip: &Option<String>) -> (c: ConfirmRequired)
    ensures
        c.action@ == "unblock_ip"@,
        c.target@ == spec_unblock_target(id, opt_view(*ip)),
        c.warning@ == "This will unblock the IP address, allowing it to access the system again."@,
        c.confirm_required,
{
    let mut t = owned("blocked IP #");
    let d = decimal_i64(id as i64);
    append_str(&mut t, d.as_str());
    if let Some(a) = ip {
        append_str(&mut t, " (");
        append_str(&mut t, a.as_str());
        append_str(&mut t, ")");
    }
    confirm_required("unblock_ip", t.as_str(), owned("This will unblock the IP address, allowing it to access the system again."))
}

/// `Blocked IP {id} not found`.
pub fn blocked_ip_not_found(id: i32) -> (r: AppError)
    ensures
        r matches AppError::NotFound(m) && m@ == "Blocked IP "@ + decimal_int(id as int) + " not found"@,
{
    let mut m = owned("Blocked IP ");
    let d = decimal_i64(id as i64);
    append_str(&mut m, d.as_str());
    append_str(&mut m, " not found");
    AppError::NotFound(m)
}

} // verus!
