//! Operator tools: who ran an operation, which hosts may be pinged, and how
//! a batch of syncs is tallied.

use vstd::prelude::*;
use crate::auth::{AppError, AuthUser};
use crate::docs::OperatorInfo;
use crate::text::{append_str, chars_of, contains_char, owned};

verus! {

/// The operator recorded with an operation: the user's subject, how they
/// signed in and their permission.
pub fn operator_from(user: &AuthUser) -> (o: OperatorInfo)
    ensures
        o.sub == user.sub,
        o.auth_method == user.auth_method,
        o.permission == user.permission,
{
    OperatorInfo { sub: user.sub.clone(), auth_method: user.auth_method.clone(), permission: user.permission }
}

/// Host names with shell control characters are refused before anything is
/// run.
pub open spec fn spec_host_ok(host: Seq<char>) -> bool {
    !host.contains(';') && !host.contains('|') && !host.contains('&') && !host.contains('$')
        && !host.contains('`') && !host.contains('\n')
}

/// A ping target to check.
pub struct PingRequest {
    pub host: String,
}

/// A host name to resolve.
pub struct DnsRequest {
    pub hostname: String,
}

pub fn validate_ping_host(host: &str) -> (r: Result<(), AppError>)
    ensures
        r is Ok <==> spec_host_ok(host@),
        r matches Err(e) ==> (e matches AppError::BadRequest(m) && m@ == "Invalid hostname"@),
{
    let cs = chars_of(host);
    let s = cs.as_slice();
    if contains_char(s, ';') || contains_char(s, '|') || contains_char(s, '&') || contains_char(s, '$')
        || contains_char(s, '`') || contains_char(s, '\n') {
        return Err(AppError::BadRequest(owned("Invalid hostname")));
    }
    Ok(())
}

/// The arguments of the ping: three probes, five seconds each.
pub fn ping_args(host: &str) -> (r: Vec<String>)
    ensures
        r@.map_values(|a: String| a@) == seq!["-c"@, "3"@, "-W"@, "5"@, host@],
{
    let mut r: Vec<String> = Vec::new();
    r.push(owned("-c"));
    r.push(owned("3"));
    r.push(owned("-W"));
    r.push(owned("5"));
    r.push(owned(host));
    assert(r@.map_values(|a: String| a@) =~= seq!["-c"@, "3"@, "-W"@, "5"@, host@]);
    r
}

/// What is resolved for a host name: the name with port 0.
pub fn lookup_target(hostname: &str) -> (r: String)
    ensures
        r@ == hostname@ + ":0"@,
{
    let mut t = owned(hostname);
    append_str(&mut t, ":0");
    t
}

/// The number of successes among the outcomes.
pub open spec fn successes(outcomes: Seq<bool>) -> nat
    decreases outcomes.len(),
{
    if outcomes.len() == 0 {
        0
    } else {
        successes(outcomes.drop_last()) + if outcomes.last() { 1nat } else { 0nat }
    }
}

/// The tally of a batch: how many succeeded and how many failed.
pub fn tally(outcomes: &Vec<bool>) -> (r: (u32, u32))
    requires
        outcomes.len() <= u32::MAX,
    ensures
        r.0 == successes(outcomes@),
        r.0 + r.1 == outcomes.len(),
{
    let mut ok: u32 = 0;
    let mut err: u32 = 0;
    let mut i: usize = 0;
    while i < outcomes.len()
        invariant
            i <= outcomes.len() <= u32::MAX,
            ok == successes(outcomes@.take(i as int)),
            ok + err == i,
        decreases outcomes.len() - i,
    {
        assert(outcomes@.take(i + 1).drop_last() =~= outcomes@.take(i as int));
        if outcomes[i] {
            ok = ok + 1;
        } else {
            err = err + 1;
        }
        i = i + 1;
    }
    assert(outcomes@.take(outcomes.len() as int) =~= outcomes@);
    (ok, err)
}

} // verus!
