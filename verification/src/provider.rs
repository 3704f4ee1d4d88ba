//! Data model of provider requests and responses.
//!
//! A request is built fresh for every turn and never mutated after
//! dispatch; a response is produced once per completed call, either
//! directly or by reducing a stream of deltas.

use vstd::prelude::*;
use vstd::string::StrSliceExecFns;

verus! {

/// Originator of a chat message.
#[derive(Clone, Copy, Debug, PartialEq, Eq, Structural)]
pub enum Role {
    System,
    User,
    Assistant,
    Tool,
}

/// One message of a request or of a conversation transcript. Immutable
/// once appended to a transcript.
#[derive(Clone, Debug)]
pub struct ChatMessage {
    pub role: Role,
    pub content: String,
}

/// A whole-completion request: the model to address, the ordered message
/// sequence, and an optional sampling bound.
#[derive(Clone, Debug)]
pub struct LlmRequest {
    pub model: String,
    pub messages: Vec<ChatMessage>,
    pub max_tokens: Option<u32>,
}

/// Token accounting of one completed call; never affects control flow.
#[derive(Clone, Copy, Debug, PartialEq, Eq, Structural)]
pub struct TokenUsage {
    pub prompt_tokens: u32,
    pub completion_tokens: u32,
    pub total_tokens: u32,
}

/// A completed (non-streaming) model response.
#[derive(Clone, Debug)]
pub struct LlmResponse {
    pub model: String,
    pub content: String,
    pub finish_reason: Option<String>,
    pub usage: Option<TokenUsage>,
}

/// One element of a streamed response: an incremental text fragment and a
/// flag marking the final element. The final fragment may be empty.
#[derive(Clone, Debug)]
pub struct LlmStreamDelta {
    pub delta: String,
    pub done: bool,
}

/// A response is well formed when it can be interpreted as a chat message:
/// it must carry content or at least a finish reason.
pub open spec fn response_well_formed(resp: LlmResponse) -> bool {
    resp.content@.len() > 0 || resp.finish_reason is Some
}

/// Checks that a response can be interpreted as a chat message; a response
/// with empty content and no finish reason is rejected as malformed.
pub fn validate_response(resp: &LlmResponse) -> (r: Result<(), crate::errors::ConversationError>)
    ensures
        r is Ok <==> response_well_formed(*resp),
        r is Err ==> r == Err::<(), crate::errors::ConversationError>(
            crate::errors::ConversationError::MalformedResponse,
        ),
{
    if resp.content.as_str().unicode_len() > 0 || resp.finish_reason.is_some() {
        Ok(())
    } else {
        Err(crate::errors::ConversationError::MalformedResponse)
    }
}

} // verus!
