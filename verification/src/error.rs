//! The ways a replay can fail.

use vstd::prelude::*;

verus! {

/// A queue operation that got no usable answer: the request never reached
/// the service, or the service refused it. The driver keeps the detail.
#[derive(Clone, Copy, Debug, PartialEq, Eq, Structural)]
pub struct TransportError;

/// Why a session was aborted. Every kind is fatal: nothing is retried and no
/// message is skipped.
#[derive(Clone, Copy, Debug, PartialEq, Eq, Structural)]
pub enum ReplayError {
    /// The queue name did not resolve to an address, or the source lookup
    /// could not be made.
    LookupFailed,
    /// No queue redirects into the dead-letter queue.
    NoSourceFound,
    /// More than one queue redirects into the dead-letter queue.
    AmbiguousSource,
    /// The message had no body, or sending it to the source queue failed.
    ForwardFailed,
    /// The message had no receipt handle, or deleting it failed.
    AckFailed,
    /// A receive, or the wait between two messages, did not complete.
    TransportFailed,
}

impl ReplayError {
    /// The text shown to the operator for each kind of failure.
    pub open spec fn text(self) -> Seq<char> {
        match self {
            ReplayError::LookupFailed => "failed to lookup queue"@,
            ReplayError::NoSourceFound => "DLQ has no source queue"@,
            ReplayError::AmbiguousSource => "DLQs with multiple sources queues not supported"@,
            ReplayError::ForwardFailed => "failed to send"@,
            ReplayError::AckFailed => "failed to delete"@,
            ReplayError::TransportFailed => "could not read from queue"@,
        }
    }

    /// A human-readable message naming the step that failed.
    pub fn message(&self) -> (text: String)
        ensures
            text@ == self.text(),
    {
        match self {
            ReplayError::LookupFailed => "failed to lookup queue".to_owned(),
            ReplayError::NoSourceFound => "DLQ has no source queue".to_owned(),
            ReplayError::AmbiguousSource => {
                "DLQs with multiple sources queues not supported".to_owned()
            },
            ReplayError::ForwardFailed => "failed to send".to_owned(),
            ReplayError::AckFailed => "failed to delete".to_owned(),
            ReplayError::TransportFailed => "could not read from queue".to_owned(),
        }
    }
}

} // verus!
