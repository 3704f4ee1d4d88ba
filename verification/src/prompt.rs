//! Per-turn request assembly.
//!
//! Each turn's request is built fresh from the acting agent's role, the
//! transcript so far and the code change under review: a system message
//! with the agent's instructions, a user message carrying the review
//! input, then the transcript from the acting agent's perspective — its
//! own past messages as assistant messages, the other agent's as user
//! messages. Assembly is pure and total.

use vstd::prelude::*;
use vstd::string::StringExecFns;

use crate::config::Input;
use crate::orchestrator::{Speaker, TranscriptEntry};
use crate::provider::{ChatMessage, LlmRequest, Role};

verus! {

/// The code change a review conversation is grounded in. Passed unmodified
/// into each request; the orchestrator never parses or mutates it.
pub struct ReviewInput {
    pub kind: Input,
    pub content: String,
    pub source: Option<String>,
}

/// The instructions the acting agent opens its request with.
pub open spec fn spec_system_prompt(role: Speaker) -> Seq<char> {
    match role {
        Speaker::Senior => "As the senior agent, assess the code change and state your findings."@,
        Speaker::Junior => "As the junior agent, challenge or confirm the senior assessment."@,
    }
}

/// Returns the acting agent's instructions.
pub fn system_prompt(role: Speaker) -> (s: String)
    ensures
        s@ == spec_system_prompt(role),
{
    match role {
        Speaker::Senior => String::from_str(
            "As the senior agent, assess the code change and state your findings.",
        ),
        Speaker::Junior => String::from_str(
            "As the junior agent, challenge or confirm the senior assessment.",
        ),
    }
}

/// Builds the next request for the acting agent: instructions first, the
/// review input second, then every transcript message in order, attributed
/// from the acting agent's perspective.
pub fn build_request(
    role: Speaker,
    transcript: &Vec<TranscriptEntry>,
    input: &ReviewInput,
    model: String,
    max_tokens: Option<u32>,
) -> (req: LlmRequest)
    ensures
        req.model@ == model@,
        req.max_tokens == max_tokens,
        req.messages@.len() == transcript@.len() + 2,
        req.messages@[0].role == Role::System,
        req.messages@[0].content@ == spec_system_prompt(role),
        req.messages@[1].role == Role::User,
        req.messages@[1].content@ == input.content@,
        forall|i: int|
            0 <= i < transcript@.len() ==> (#[trigger] req.messages@[i + 2]).content@
                == transcript@[i].message.content@ && req.messages@[i + 2].role == (
            if transcript@[i].speaker == role {
                Role::Assistant
            } else {
                Role::User
            }),
{
    let mut messages: Vec<ChatMessage> = Vec::new();
    messages.push(ChatMessage { role: Role::System, content: system_prompt(role) });
    messages.push(ChatMessage { role: Role::User, content: input.content.clone() });
    let mut i: usize = 0;
    while i < transcript.len()
        invariant
            i <= transcript@.len(),
            messages@.len() == i + 2,
            messages@[0].role == Role::System,
            messages@[0].content@ == spec_system_prompt(role),
            messages@[1].role == Role::User,
            messages@[1].content@ == input.content@,
            forall|k: int|
                0 <= k < i ==> (#[trigger] messages@[k + 2]).content@
                    == transcript@[k].message.content@ && messages@[k + 2].role == (
                if transcript@[k].speaker == role {
                    Role::Assistant
                } else {
                    Role::User
                }),
        decreases transcript@.len() - i,
    {
        let entry = &transcript[i];
        let msg_role = if entry.speaker == role {
            Role::Assistant
        } else {
            Role::User
        };
        messages.push(ChatMessage { role: msg_role, content: entry.message.content.clone() });
        i = i + 1;
    }
    LlmRequest { model, messages, max_tokens }
}

} // verus!
