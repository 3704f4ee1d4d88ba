use code_reviewer::config::Input;
use code_reviewer::orchestrator::{Speaker, TranscriptEntry};
use code_reviewer::prompt::{build_request, ReviewInput};
use code_reviewer::provider::{ChatMessage, Role};

fn entry(speaker: Speaker, content: &str) -> TranscriptEntry {
    TranscriptEntry {
        speaker,
        message: ChatMessage { role: Role::Assistant, content: content.to_string() },
    }
}

fn review_input(content: &str) -> ReviewInput {
    ReviewInput { kind: Input::Gitdiff, content: content.to_string(), source: None }
}

#[test]
fn request_opens_with_instructions_and_input() {
    let transcript: Vec<TranscriptEntry> = Vec::new();
    let req = build_request(
        Speaker::Senior,
        &transcript,
        &review_input("diff of the change"),
        "m".to_string(),
        Some(512),
    );
    assert_eq!(req.model, "m");
    assert_eq!(req.max_tokens, Some(512));
    assert_eq!(req.messages.len(), 2);
    assert!(matches!(req.messages[0].role, Role::System));
    assert!(req.messages[0].content.contains("senior"));
    assert!(matches!(req.messages[1].role, Role::User));
    assert_eq!(req.messages[1].content, "diff of the change");
}

#[test]
fn transcript_is_attributed_from_the_acting_agents_view() {
    let transcript = vec![
        entry(Speaker::Senior, "senior says"),
        entry(Speaker::Junior, "junior says"),
    ];
    let as_junior = build_request(
        Speaker::Junior,
        &transcript,
        &review_input("code"),
        "m".to_string(),
        None,
    );
    assert_eq!(as_junior.messages.len(), 4);
    assert!(as_junior.messages[0].content.contains("junior"));
    assert!(matches!(as_junior.messages[2].role, Role::User));
    assert_eq!(as_junior.messages[2].content, "senior says");
    assert!(matches!(as_junior.messages[3].role, Role::Assistant));
    assert_eq!(as_junior.messages[3].content, "junior says");

    let as_senior = build_request(
        Speaker::Senior,
        &transcript,
        &review_input("code"),
        "m".to_string(),
        None,
    );
    assert!(matches!(as_senior.messages[2].role, Role::Assistant));
    assert!(matches!(as_senior.messages[3].role, Role::User));
}
