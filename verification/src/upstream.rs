//! Upstream identity and the classification of what one call came back with.

use vstd::prelude::*;

verus! {

/// Status attributed to upstream replies whose transport failed before an
/// HTTP status arrived (connection, timeout or protocol errors).
pub const STATUS_BAD_GATEWAY: u16 = 502;

/// Status attributed to a dispatch whose execution unit ended abnormally
/// before any upstream answered.
pub const STATUS_INTERNAL_ERROR: u16 = 500;

/// One of the two interchangeable upstream payment processors.
#[derive(Clone, Copy, PartialEq, Eq, Structural, Debug)]
pub enum Upstream {
    A,
    B,
}

/// What one finished upstream call came back with, after classification.
#[derive(Debug, Clone, PartialEq, Eq)]
pub enum CallOutcome {
    /// The upstream answered with a success status; `response` is the reply
    /// body handed back to the caller.
    Success { response: String },
    /// The upstream answered with a non-success status, or its transport
    /// failed (reported as bad gateway).
    Failure { status: u16, message: String },
}

/// The status is in the HTTP success class.
pub open spec fn spec_is_success_status(s: u16) -> bool {
    200 <= s < 300
}

/// Classifies what the transport observed of one upstream call. `status` is
/// the HTTP status the upstream answered with, or `None` when the transport
/// failed before any status arrived; `response` is the reply body kept on
/// success.
pub fn classify_reply(status: Option<u16>, response: String) -> (r: CallOutcome)
    ensures
        match status {
            Some(s) => {
                if spec_is_success_status(s) {
                    r matches CallOutcome::Success { response: body } && body == response
                } else {
                    r matches CallOutcome::Failure { status: st, message } && st == s && message@
                        == "upstream returned a non-success status"@
                }
            },
            None => r matches CallOutcome::Failure { status: st, message } && st
                == STATUS_BAD_GATEWAY && message@ == "upstream transport error"@,
        },
{
    match status {
        Some(s) => {
            if 200 <= s && s < 300 {
                CallOutcome::Success { response }
            } else {
                CallOutcome::Failure {
                    status: s,
                    message: "upstream returned a non-success status".to_owned(),
                }
            }
        },
        None => CallOutcome::Failure {
            status: STATUS_BAD_GATEWAY,
            message: "upstream transport error".to_owned(),
        },
    }
}

} // verus!
