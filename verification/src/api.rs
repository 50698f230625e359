//! Common API answers and queries.

use vstd::prelude::*;
use crate::auth::AuthUser;
use crate::text::owned;

verus! {

/// The answer of the health endpoint.
pub struct HealthResponse {
    pub status: String,
    pub service: String,
    pub version: String,
}

impl HealthResponse {
    /// The service is up: status `ok`, service `LacisProxyGateway2`, and the
    /// given version.
    pub fn ok(version: &str) -> (r: HealthResponse)
        ensures
            r.status@ == "ok"@,
            r.service@ == "LacisProxyGateway2"@,
            r.version@ == version@,
    {
        HealthResponse { status: owned("ok"), service: owned("LacisProxyGateway2"), version: owned(version) }
    }
}

/// A generic success answer, with the id of what was created when there is
/// one.
pub struct SuccessResponse {
    pub message: String,
    pub id: Option<i32>,
}

impl SuccessResponse {
    /// A success with a message and no id.
    pub fn new(message: &str) -> (r: SuccessResponse)
        ensures
            r.message@ == message@,
            r.id is None,
    {
        SuccessResponse { message: owned(message), id: None }
    }

    /// A success with a message and the id of what was created.
    pub fn with_id(message: &str, id: i32) -> (r: SuccessResponse)
        ensures
            r.message@ == message@,
            r.id == Some(id),
    {
        SuccessResponse { message: owned(message), id: Some(id) }
    }
}

/// A page of a list.
pub struct PaginationQuery {
    pub limit: i64,
    pub offset: i64,
}

/// A page of the audit log.
pub struct AuditLogQuery {
    pub limit: i64,
    pub offset: i64,
}

/// The page size when none is asked for.
pub fn default_limit() -> (r: i64)
    ensures
        r == 50,
{
    50
}

} // verus!
