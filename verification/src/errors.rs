//! Error taxonomy of the conversation engine.
//!
//! Provider-level failures are classified as transient (eligible for a
//! bounded retry) or fatal (escalated immediately). Conversation-level
//! errors terminate the conversation; the orchestrator always preserves the
//! transcript accumulated so far.

use vstd::prelude::*;

verus! {

/// Flavour of a transient provider failure. All of them are retried the
/// same way; the distinction is kept for diagnostics.
#[derive(Clone, Copy, Debug, PartialEq, Eq, Structural)]
pub enum TransientKind {
    Timeout,
    RateLimit,
    Transport,
}

/// Failure reported by a single provider call.
///
/// Transient failures (timeout, rate limit, transport) are retried with
/// bounded exponential backoff; authentication or malformed-request
/// failures are fatal and are never retried.
#[derive(Clone, Copy, Debug, PartialEq, Eq, Structural)]
pub enum ProviderError {
    Transient(TransientKind),
    Fatal,
}

/// Error that terminates a conversation.
#[derive(Clone, Copy, Debug, PartialEq, Eq, Structural)]
pub enum ConversationError {
    /// A configured backend does not resolve to a registered provider, or
    /// the provider does not support the configured model. Raised during
    /// initialisation, before any provider call is attempted.
    UnsupportedModel,
    /// A provider kept failing transiently until the retry budget ran out.
    ProviderExhausted,
    /// A provider reported a fatal (non-retryable) failure.
    ProviderFailed,
    /// The caller cancelled the conversation mid-call. No partial turn
    /// content is ever kept.
    Cancelled,
    /// The provider returned content that cannot be interpreted as a chat
    /// message (empty content with no finish reason).
    MalformedResponse,
}

} // verus!
