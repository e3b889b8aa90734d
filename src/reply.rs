//! What a caller gets back: the structured result of one execution, or a
//! failure of the request/response plumbing itself.
use vstd::prelude::*;
use vstd::string::StringExecFns;

verus! {

/// The code carried by every engine failure: the engine's failures are not
/// told apart.
pub const EXECUTION_ERROR_CODE: i64 = -1;

/// The structured result of one execution. Engine failures travel here, as
/// data, on the same path as successes.
#[derive(Debug, PartialEq)]
pub enum Reply {
    /// The engine's structured value.
    Value(serde_json::Value),
    /// The engine failed; `code` tells failures apart by machine, `msg`
    /// describes it to a person.
    Failure { code: i64, msg: String },
}

/// A failure of the plumbing between a caller and the worker, never of the
/// engine.
#[derive(Debug, Clone, Copy, PartialEq, Eq)]
pub enum TransportError {
    /// The worker is gone: the request could not be queued.
    SubmissionFailed,
    /// The completion slot was dropped before a reply was written into it.
    ResultUnavailable,
}

/// The message that describes an engine failure with the given description.
pub open spec fn failure_text(detail: Seq<char>) -> Seq<char> {
    "ExecutionError: "@ + detail
}

/// `r` is the reply owed for an engine outcome: the value itself on success;
/// on failure, the generic code with the failure's description.
pub open spec fn is_reply_to(r: Reply, outcome: Result<serde_json::Value, String>) -> bool {
    match outcome {
        Ok(v) => r == Reply::Value(v),
        Err(detail) => r matches Reply::Failure { code, msg } && code == EXECUTION_ERROR_CODE
            && msg@ == failure_text(detail@),
    }
}

/// The failure reply for an engine failure described by `detail`.
pub fn execution_failure(detail: &str) -> (r: Reply)
    ensures
        r matches Reply::Failure { code, msg } && code == EXECUTION_ERROR_CODE && msg@
            == failure_text(detail@),
{
    let msg = String::from_str("ExecutionError: ").concat(detail);
    Reply::Failure { code: EXECUTION_ERROR_CODE, msg }
}

/// The reply for what one engine call returned; the error side holds the
/// engine's description of its failure.
pub fn reply_to(outcome: Result<serde_json::Value, String>) -> (r: Reply)
    ensures
        is_reply_to(r, outcome),
{
    match outcome {
        Ok(v) => Reply::Value(v),
        Err(detail) => execution_failure(detail.as_str()),
    }
}

} // verus!
