//! The error taxonomy of the tracer.
//!
//! Every fallible operation of the library reports one of these errors.
//! Operating-system failures (a bind or a send that the OS refuses) happen
//! outside the library, in the code that owns the socket, and are not
//! represented here.

use vstd::prelude::*;

verus! {

/// An error of the tracer lifecycle: an operation ran before the write-once
/// state it needs existed, or tried to fill a write-once slot a second time.
#[derive(Clone, Copy, Debug, PartialEq, Eq, Structural)]
pub enum TraceError {
    /// The configuration slot was already filled by an earlier `init`.
    AlreadyInitialized,
    /// The sender slot was already filled by an earlier `create_udp_sender`.
    SenderAlreadyInitialized,
    /// A send was attempted before `create_udp_sender` filled the sender slot.
    SenderNotInitialized,
    /// A send was attempted before `init` filled the configuration slot.
    NotInitialized,
}

impl TraceError {
    /// The actionable message for this error, naming the missing
    /// precondition or the slot that was already set.
    pub open spec fn spec_message(self) -> Seq<char> {
        match self {
            TraceError::AlreadyInitialized => "Already initialized. init() may only be called once."@,
            TraceError::SenderAlreadyInitialized => "Sender already initialized"@,
            TraceError::SenderNotInitialized => "Sender not initialized. Call create_udp_sender() first."@,
            TraceError::NotInitialized => "Not initialized. Call init() first."@,
        }
    }

    /// The message as an owned string, for callers that surface the error.
    pub fn message(&self) -> (r: String)
        ensures
            r@ == self.spec_message(),
    {
        match self {
            TraceError::AlreadyInitialized => "Already initialized. init() may only be called once.".to_owned(),
            TraceError::SenderAlreadyInitialized => "Sender already initialized".to_owned(),
            TraceError::SenderNotInitialized => "Sender not initialized. Call create_udp_sender() first.".to_owned(),
            TraceError::NotInitialized => "Not initialized. Call init() first.".to_owned(),
        }
    }
}

} // verus!
