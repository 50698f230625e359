//! Operation logs: a sync, tool run or registration is logged as
//! `running` when it starts and marked `success` or `error`, with its
//! duration, when it ends.

use vstd::prelude::*;
use crate::docs::{OperationLogQuery, OperatorInfo};
use crate::node_order::clone_opt;
use crate::text::owned;

verus! {

/// A logged operation. `created_at` is an RFC 3339 time.
pub struct OperationLogDoc {
    pub operation_id: String,
    /// `sync_omada`, `sync_openwrt`, `sync_external`, `ddns_update`,
    /// `ping`, `dns`, `curl` or `device_register`.
    pub operation_type: String,
    /// `manual`, `scheduler` or `api`.
    pub initiated_by: String,
    pub target: Option<String>,
    /// `running`, `success` or `error`.
    pub status: String,
    pub result: Option<serde_json::Value>,
    pub error: Option<String>,
    pub duration_ms: Option<u64>,
    pub created_at: String,
    pub operator: Option<OperatorInfo>,
}

/// The end of an operation: its status, and what it gave.
pub struct OperationLogUpdate {
    pub status: String,
    pub result: Option<serde_json::Value>,
    pub error: Option<String>,
    pub duration_ms: Option<u64>,
}

/// The log of an operation that has just started, by an operator when
/// it was started through the API.
pub fn start_operation_log_with_operator(
    operation_id: String,
    operation_type: &str,
    initiated_by: &str,
    target: &Option<String>,
    operator: Option<OperatorInfo>,
    created_at: String,
) -> (d: OperationLogDoc)
    ensures
        d.operation_id == operation_id,
        d.operation_type@ == operation_type@,
        d.initiated_by@ == initiated_by@,
        d.target == *target,
        d.status@ == "running"@,
        d.result is None,
        d.error is None,
        d.duration_ms is None,
        d.created_at == created_at,
        d.operator == operator,
{
    OperationLogDoc {
        operation_id,
        operation_type: owned(operation_type),
        initiated_by: owned(initiated_by),
        target: clone_opt(target),
        status: owned("running"),
        result: None,
        error: None,
        duration_ms: None,
        created_at,
        operator,
    }
}

/// The log of an operation that has just started, with no operator.
pub fn start_operation_log(
    operation_id: String,
    operation_type: &str,
    initiated_by: &str,
    target: &Option<String>,
    created_at: String,
) -> (d: OperationLogDoc)
    ensures
        d.operation_id == operation_id,
        d.operation_type@ == operation_type@,
        d.initiated_by@ == initiated_by@,
        d.target == *target,
        d.status@ == "running"@,
        d.result is None,
        d.error is None,
        d.duration_ms is None,
        d.created_at == created_at,
        d.operator is None,
{
    start_operation_log_with_operator(operation_id, operation_type, initiated_by, target, None, created_at)
}

/// A successful end, with its result when there is one.
pub fn complete_operation_log(result: Option<serde_json::Value>, duration_ms: u64) -> (u: OperationLogUpdate)
    ensures
        u.status@ == "success"@,
        u.result == result,
        u.error is None,
        u.duration_ms == Some(duration_ms),
{
    OperationLogUpdate { status: owned("success"), result, error: None, duration_ms: Some(duration_ms) }
}

/// A failed end, with its error.
pub fn fail_operation_log(error: &str, duration_ms: u64) -> (u: OperationLogUpdate)
    ensures
        u.status@ == "error"@,
        u.result is None,
        u.error matches Some(e) && e@ == error@,
        u.duration_ms == Some(duration_ms),
{
    OperationLogUpdate { status: owned("error"), result: None, error: Some(owned(error)), duration_ms: Some(duration_ms) }
}

/// A log after an update: the status replaced, and the result, error and
/// duration replaced where the update has them.
pub open spec fn spec_updated(d: OperationLogDoc, u: OperationLogUpdate) -> OperationLogDoc {
    OperationLogDoc {
        status: u.status,
        result: if u.result is Some { u.result } else { d.result },
        error: if u.error is Some { u.error } else { d.error },
        duration_ms: if u.duration_ms is Some { u.duration_ms } else { d.duration_ms },
        ..d
    }
}

pub fn update_operation_log(doc: &mut OperationLogDoc, u: OperationLogUpdate)
    ensures
        *final(doc) == spec_updated(*old(doc), u),
{
    doc.status = u.status;
    if u.result.is_some() {
        doc.result = u.result;
    }
    if u.error.is_some() {
        doc.error = u.error;
    }
    if u.duration_ms.is_some() {
        doc.duration_ms = u.duration_ms;
    }
}

/// How many logs a query asks for (100 unless it says) and how many it
/// skips (none unless it says).
pub fn operation_log_page(q: &OperationLogQuery) -> (r: (i64, u64))
    ensures
        r.0 == match q.limit { Some(l) => l, None => 100i64 },
        r.1 == match q.offset { Some(o) => o, None => 0u64 },
{
    let limit = match q.limit {
        Some(l) => l,
        None => 100,
    };
    let skip = match q.offset {
        Some(o) => o,
        None => 0,
    };
    (limit, skip)
}

/// Ending a running operation, as a success or an error, leaves it no
/// longer running, with the end's duration, and keeps what it is, who
/// started it, on what and when.
pub proof fn lemma_operation_outcome(d: OperationLogDoc, u: OperationLogUpdate)
    requires
        d.status@ == "running"@,
        u.status@ == "success"@ || u.status@ == "error"@,
        u.duration_ms is Some,
    ensures
        spec_updated(d, u).status@ != "running"@,
        spec_updated(d, u).status == u.status,
        spec_updated(d, u).duration_ms == u.duration_ms,
        spec_updated(d, u).operation_id == d.operation_id,
        spec_updated(d, u).operation_type == d.operation_type,
        spec_updated(d, u).initiated_by == d.initiated_by,
        spec_updated(d, u).target == d.target,
        spec_updated(d, u).created_at == d.created_at,
        spec_updated(d, u).operator == d.operator,
{
    reveal_strlit("running");
    reveal_strlit("success");
    reveal_strlit("error");
    assert("running"@[0] != "success"@[0]);
    assert("running"@[0] != "error"@[0]);
}

} // verus!
