//! How a storage error is reported to a Restate handler.

use vstd::prelude::*;
use crate::entry::ErrorKind;

verus! {

/// How a handler reports an error.
#[derive(Clone, Copy, Debug, PartialEq, Eq, Structural)]
pub enum HandlerReport {
    /// A terminal error with an HTTP status code: the invocation is not
    /// retried.
    Terminal { status_code: u16 },
    /// An ordinary error: the invocation may be retried.
    Retryable,
}

/// The HTTP status code for a permanent error of the given kind.
pub open spec fn status_code_of(kind: ErrorKind) -> u16 {
    match kind {
        ErrorKind::Unsupported => 501,
        ErrorKind::ConfigInvalid => 400,
        ErrorKind::NotFound => 404,
        ErrorKind::PermissionDenied => 403,
        ErrorKind::IsADirectory => 422,
        ErrorKind::NotADirectory => 422,
        ErrorKind::AlreadyExists => 409,
        _ => 500,
    }
}

/// The HTTP status code for a permanent error of the given kind.
pub fn status_code(kind: ErrorKind) -> (code: u16)
    ensures
        code == status_code_of(kind),
{
    match kind {
        ErrorKind::Unsupported => 501,
        ErrorKind::ConfigInvalid => 400,
        ErrorKind::NotFound => 404,
        ErrorKind::PermissionDenied => 403,
        ErrorKind::IsADirectory => 422,
        ErrorKind::NotADirectory => 422,
        ErrorKind::AlreadyExists => 409,
        _ => 500,
    }
}

/// How a storage error is reported: a permanent error is terminal, with the
/// status code of its kind; any other error is left to be retried.
pub fn to_restate_error(permanent: bool, kind: ErrorKind) -> (report: HandlerReport)
    ensures
        report == if permanent {
            HandlerReport::Terminal { status_code: status_code_of(kind) }
        } else {
            HandlerReport::Retryable
        },
{
    if permanent {
        HandlerReport::Terminal { status_code: status_code(kind) }
    } else {
        HandlerReport::Retryable
    }
}

} // verus!
