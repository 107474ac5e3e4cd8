//! The two ways a handler invocation can fail.

use vstd::prelude::*;

verus! {

/// An error surfaced to the host by a handler.
///
/// `PlannedFailure` is the deliberate error the `nope` handler answers with;
/// `BridgeCall` carries the message of a failed outbound call to the host.
#[derive(Debug, PartialEq, Eq)]
pub enum HandlerError {
    PlannedFailure,
    BridgeCall(String),
}

impl HandlerError {
    /// The text carried by this error.
    pub open spec fn message_view(&self) -> Seq<char> {
        match self {
            HandlerError::PlannedFailure => "Planned Failure"@,
            HandlerError::BridgeCall(m) => m@,
        }
    }

    /// Renders the error as the message text the host sees.
    pub fn message(&self) -> (m: String)
        ensures
            m@ == self.message_view(),
    {
        match self {
            HandlerError::PlannedFailure => "Planned Failure".to_owned(),
            HandlerError::BridgeCall(m) => m.clone(),
        }
    }
}

} // verus!
