//! Plain data carried through the dispatch loop: update envelopes, the
//! service's own identity, a handle standing for the API client, and the
//! error taxonomy of the loop.

use vstd::prelude::*;

verus! {

/// A chat message; its text is what command recognition reads.
#[derive(Debug, PartialEq, Eq)]
pub struct Message {
    /// Raw message text, as bytes.
    pub text: Vec<u8>,
}

/// One inbound event pulled from the update source. It may or may not
/// wrap a chat message; every other kind of update takes the default path.
#[derive(Debug, PartialEq, Eq)]
pub enum UpdateEnvelope {
    /// The update wraps a chat message.
    Message(Message),
    /// Any other kind of update; the payload is of no interest to the loop.
    Other,
}

/// A handle standing for the long-lived API client shared by all
/// dispatches. The client itself lives outside the loop; the registry
/// only has to carry it to the handler.
#[derive(Debug, Clone, Copy, PartialEq, Eq, Structural)]
pub struct ApiClientHandle {
    /// Identifies the client instance.
    pub id: u64,
}

/// The service's own identity, fetched once from the API and cached for
/// the whole run; never re-fetched per dispatch.
#[derive(Debug, Clone, Copy, PartialEq, Eq, Structural)]
pub struct ServiceIdentity {
    /// The service's user id on the remote platform.
    pub id: u64,
}

/// A fatal failure of the update source before the loop starts. It is
/// surfaced directly to the caller; no dispatch happens after it.
#[derive(Debug, Clone, Copy, PartialEq, Eq, Structural)]
pub struct SetupError {
    /// Code identifying the failure, assigned by the source.
    pub code: u64,
}

/// A per-item failure of the update source during iteration. The loop
/// continues unless the source marks it fatal.
#[derive(Debug, Clone, Copy, PartialEq, Eq, Structural)]
pub struct StreamError {
    /// Whether the source marks this failure fatal for the whole stream.
    pub fatal: bool,
    /// Code identifying the failure, assigned by the source.
    pub code: u64,
}

/// A single-dispatch business failure of the caller's handler. It is
/// reported and isolated: it never stops the loop.
#[derive(Debug, Clone, Copy, PartialEq, Eq, Structural)]
pub struct HandlerError {
    /// Code identifying the failure, assigned by the handler.
    pub code: u64,
}

/// What one consumed source item became.
#[derive(Debug, Clone, Copy, PartialEq, Eq)]
pub enum DispatchOutcome {
    /// The primary handler ran, with its result.
    Handled(Result<(), HandlerError>),
    /// The envelope did not classify to a command; the default handler ran.
    Unmatched,
    /// The source item was a stream failure, not an envelope.
    ListenerError(StreamError),
}

/// A structured failure notification for the error reporter, tagged by
/// where the failure arose.
#[derive(Debug, Clone, Copy, PartialEq, Eq, Structural)]
pub enum ErrorReport {
    /// A handler failed on one dispatch.
    Handler(HandlerError),
    /// The update source failed on one pull.
    Listener(StreamError),
}

} // verus!
