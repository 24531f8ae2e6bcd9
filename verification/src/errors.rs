//! Error classifier: the stable categories a backend failure is mapped into,
//! and the human-readable detail shown for each. The mapping from a concrete
//! backend client's error type into these categories is the collaborator's
//! side of the contract; the rendering here is verified.

use vstd::prelude::*;

use vstd::string::StringExecFns;

verus! {

/// A backend failure, classified. Classification never retries; it only
/// annotates for display.
pub enum BackendFailure {
    /// A local precondition failed; nothing was sent to the backend.
    Validation { detail: String },
    /// The backend accepted the request shape but refused it.
    ServiceRejected { code: String, message: String },
    /// The backend could not be reached.
    DispatchFailure { detail: String },
    /// The backend gave no response in time.
    Timeout,
    /// The backend's reply could not be parsed.
    ResponseMalformed { detail: String },
    /// Anything else.
    Unknown { raw: String },
}

impl Clone for BackendFailure {
    fn clone(&self) -> (r: Self)
        ensures
            r == *self,
    {
        match self {
            BackendFailure::Validation { detail } => BackendFailure::Validation {
                detail: detail.clone(),
            },
            BackendFailure::ServiceRejected { code, message } => BackendFailure::ServiceRejected {
                code: code.clone(),
                message: message.clone(),
            },
            BackendFailure::DispatchFailure { detail } => BackendFailure::DispatchFailure {
                detail: detail.clone(),
            },
            BackendFailure::Timeout => BackendFailure::Timeout,
            BackendFailure::ResponseMalformed { detail } => BackendFailure::ResponseMalformed {
                detail: detail.clone(),
            },
            BackendFailure::Unknown { raw } => BackendFailure::Unknown { raw: raw.clone() },
        }
    }
}

/// The friendlier text shown for the two well-known rejection codes, or the
/// backend's own message for any other code.
pub open spec fn rejection_detail(code: Seq<char>, message: Seq<char>) -> Seq<char> {
    if code == "NoSuchKey"@ {
        "object was not found (mask may target stale keys or bucket differs)"@
    } else if code == "InvalidObjectState"@ {
        "object is already being restored or not eligible for this operation"@
    } else {
        message
    }
}

/// The one-line description of a classified failure.
pub open spec fn failure_text(f: BackendFailure) -> Seq<char> {
    match f {
        BackendFailure::Validation { detail } => detail@,
        BackendFailure::ServiceRejected { code, message } => code@ + ": "@ + rejection_detail(
            code@,
            message@,
        ),
        BackendFailure::DispatchFailure { detail } => "network/dispatch failure: "@ + detail@,
        BackendFailure::Timeout => "request timed out; please retry"@,
        BackendFailure::ResponseMalformed { detail } => "response error: "@ + detail@,
        BackendFailure::Unknown { raw } => raw@,
    }
}

/// Renders a classified backend failure for the status feed, with friendlier
/// text for the codes meaning "object missing" and "object not eligible or
/// already in progress".
pub fn describe_restore_error(f: &BackendFailure) -> (r: String)
    ensures
        r@ == failure_text(*f),
{
    match f {
        BackendFailure::Validation { detail } => detail.clone(),
        BackendFailure::ServiceRejected { code, message } => {
            let no_such_key = String::from_str("NoSuchKey");
            let invalid_state = String::from_str("InvalidObjectState");
            let mut s = code.clone();
            s.append(": ");
            if code.eq(&no_such_key) {
                s.append("object was not found (mask may target stale keys or bucket differs)");
            } else if code.eq(&invalid_state) {
                s.append("object is already being restored or not eligible for this operation");
            } else {
                s.append(message.as_str());
            }
            s
        },
        BackendFailure::DispatchFailure { detail } => {
            let mut s = String::from_str("network/dispatch failure: ");
            s.append(detail.as_str());
            s
        },
        BackendFailure::Timeout => String::from_str("request timed out; please retry"),
        BackendFailure::ResponseMalformed { detail } => {
            let mut s = String::from_str("response error: ");
            s.append(detail.as_str());
            s
        },
        BackendFailure::Unknown { raw } => raw.clone(),
    }
}

} // verus!
