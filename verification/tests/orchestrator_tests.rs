use code_reviewer::config::{
    AgentBackend, AgentConfig, Config, Input, InputConfig, LLMConfig, LlmApiProvider,
};
use code_reviewer::errors::ConversationError;
use code_reviewer::orchestrator::{Conversation, Outcome, Speaker};
use code_reviewer::provider::{LlmResponse, Role};
use code_reviewer::registry::{ProviderEntry, ProviderKey, ProviderRegistry};

fn registry_with_model(model: &str) -> ProviderRegistry {
    let mut registry = ProviderRegistry::new();
    let admitted = registry.register(ProviderEntry {
        key: ProviderKey::Cloud(LlmApiProvider::OpenAi),
        models: vec![model.to_string()],
    });
    assert!(admitted);
    registry
}

fn config_with_rounds(model: &str, max_rounds: usize) -> Config {
    Config {
        llm: LLMConfig::Cloud { api_keys: Vec::new() },
        agents: AgentConfig {
            senior: AgentBackend::Cloud {
                provider: LlmApiProvider::OpenAi,
                model: model.to_string(),
            },
            junior: AgentBackend::Cloud {
                provider: LlmApiProvider::OpenAi,
                model: model.to_string(),
            },
            max_rounds,
        },
        input: InputConfig { input: Input::File, input_details: None },
    }
}

fn response(content: &str) -> LlmResponse {
    LlmResponse {
        model: "m".to_string(),
        content: content.to_string(),
        finish_reason: Some("stop".to_string()),
        usage: None,
    }
}

#[test]
fn two_rounds_without_agreement_exhaust() {
    let cfg = config_with_rounds("m", 2);
    let registry = registry_with_model("m");
    let mut conv = Conversation::new(&cfg, &registry, "AGREE".to_string()).unwrap();
    let turns = ["first opinion", "pushback", "second opinion", "more pushback"];
    for (i, t) in turns.iter().enumerate() {
        assert!(!conv.is_done());
        let expected = if i % 2 == 0 { Speaker::Senior } else { Speaker::Junior };
        assert!(conv.next_speaker() == expected);
        assert!(conv.on_response(response(t)).is_ok());
    }
    assert!(conv.is_done());
    assert_eq!(conv.turns_executed(), 4);
    assert_eq!(conv.rounds_completed(), 2);
    assert!(matches!(conv.outcome(), Some(Outcome::RoundsExhausted)));
    let verdict = conv.into_verdict();
    assert!(matches!(verdict.outcome, Outcome::RoundsExhausted));
    assert_eq!(verdict.transcript.len(), 4);
    for (i, entry) in verdict.transcript.iter().enumerate() {
        let expected = if i % 2 == 0 { Speaker::Senior } else { Speaker::Junior };
        assert!(entry.speaker == expected);
        assert!(matches!(entry.message.role, Role::Assistant));
        assert_eq!(entry.message.content, turns[i]);
    }
}

#[test]
fn zero_rounds_is_senior_only() {
    let cfg = config_with_rounds("m", 0);
    let registry = registry_with_model("m");
    let mut conv = Conversation::new(&cfg, &registry, "AGREE".to_string()).unwrap();
    assert!(conv.next_speaker() == Speaker::Senior);
    assert!(conv.on_response(response("single opinion")).is_ok());
    assert!(conv.is_done());
    assert_eq!(conv.turns_executed(), 1);
    assert_eq!(conv.rounds_completed(), 0);
    assert!(matches!(conv.outcome(), Some(Outcome::RoundsExhausted)));
    let verdict = conv.into_verdict();
    assert_eq!(verdict.transcript.len(), 1);
    assert!(verdict.transcript[0].speaker == Speaker::Senior);
}

#[test]
fn agreement_sentinel_concludes_early() {
    let cfg = config_with_rounds("m", 3);
    let registry = registry_with_model("m");
    let mut conv = Conversation::new(&cfg, &registry, "AGREE".to_string()).unwrap();
    assert!(conv.on_response(response("senior assessment")).is_ok());
    assert!(conv.on_response(response("I checked everything. agree!")).is_ok());
    assert!(conv.is_done());
    assert_eq!(conv.turns_executed(), 2);
    assert_eq!(conv.rounds_completed(), 1);
    assert!(matches!(conv.outcome(), Some(Outcome::Agreed)));
}

#[test]
fn sentinel_in_senior_turn_is_ignored() {
    let cfg = config_with_rounds("m", 1);
    let registry = registry_with_model("m");
    let mut conv = Conversation::new(&cfg, &registry, "AGREE".to_string()).unwrap();
    assert!(conv.on_response(response("this looks agree-able to me")).is_ok());
    assert!(!conv.is_done());
    assert!(conv.next_speaker() == Speaker::Junior);
}

#[test]
fn agreement_takes_precedence_over_exhaustion() {
    let cfg = config_with_rounds("m", 1);
    let registry = registry_with_model("m");
    let mut conv = Conversation::new(&cfg, &registry, "AGREE".to_string()).unwrap();
    assert!(conv.on_response(response("senior assessment")).is_ok());
    assert!(conv.on_response(response("AGREE")).is_ok());
    assert!(conv.is_done());
    assert!(matches!(conv.outcome(), Some(Outcome::Agreed)));
}

#[test]
fn cancellation_keeps_only_completed_turns() {
    let cfg = config_with_rounds("m", 3);
    let registry = registry_with_model("m");
    let mut conv = Conversation::new(&cfg, &registry, "AGREE".to_string()).unwrap();
    assert!(conv.on_response(response("senior assessment")).is_ok());
    assert!(conv.on_response(response("junior pushback")).is_ok());
    conv.on_cancel();
    assert!(conv.is_done());
    assert!(matches!(conv.outcome(), Some(Outcome::Aborted)));
    assert!(matches!(conv.failure(), Some(ConversationError::Cancelled)));
    assert_eq!(conv.turns_executed(), 2);
    let verdict = conv.into_verdict();
    assert_eq!(verdict.transcript.len(), 2);
    assert_eq!(verdict.transcript[0].message.content, "senior assessment");
    assert_eq!(verdict.transcript[1].message.content, "junior pushback");
}

#[test]
fn malformed_response_aborts_with_transcript() {
    let cfg = config_with_rounds("m", 3);
    let registry = registry_with_model("m");
    let mut conv = Conversation::new(&cfg, &registry, "AGREE".to_string()).unwrap();
    assert!(conv.on_response(response("senior assessment")).is_ok());
    let malformed = LlmResponse {
        model: "m".to_string(),
        content: String::new(),
        finish_reason: None,
        usage: None,
    };
    let r = conv.on_response(malformed);
    assert!(matches!(r, Err(ConversationError::MalformedResponse)));
    assert!(conv.is_done());
    assert!(matches!(conv.outcome(), Some(Outcome::Aborted)));
    assert!(matches!(conv.failure(), Some(ConversationError::MalformedResponse)));
    assert_eq!(conv.turns_executed(), 1);
}

#[test]
fn empty_content_with_finish_reason_is_accepted() {
    let cfg = config_with_rounds("m", 1);
    let registry = registry_with_model("m");
    let mut conv = Conversation::new(&cfg, &registry, "AGREE".to_string()).unwrap();
    let resp = LlmResponse {
        model: "m".to_string(),
        content: String::new(),
        finish_reason: Some("stop".to_string()),
        usage: None,
    };
    assert!(conv.on_response(resp).is_ok());
    assert_eq!(conv.turns_executed(), 1);
}

#[test]
fn provider_failure_aborts() {
    let cfg = config_with_rounds("m", 2);
    let registry = registry_with_model("m");
    let mut conv = Conversation::new(&cfg, &registry, "AGREE".to_string()).unwrap();
    conv.on_failure(ConversationError::ProviderExhausted);
    assert!(conv.is_done());
    assert!(matches!(conv.outcome(), Some(Outcome::Aborted)));
    assert!(matches!(conv.failure(), Some(ConversationError::ProviderExhausted)));
    assert_eq!(conv.turns_executed(), 0);
}

#[test]
fn unsupported_model_fails_init() {
    let cfg = config_with_rounds("other-model", 2);
    let registry = registry_with_model("m");
    let r = Conversation::new(&cfg, &registry, "AGREE".to_string());
    assert!(matches!(r, Err(ConversationError::UnsupportedModel)));
}

#[test]
fn unregistered_provider_fails_init() {
    let mut cfg = config_with_rounds("m", 2);
    cfg.agents.junior = AgentBackend::Cloud {
        provider: LlmApiProvider::Anthropic,
        model: "m".to_string(),
    };
    let registry = registry_with_model("m");
    let r = Conversation::new(&cfg, &registry, "AGREE".to_string());
    assert!(matches!(r, Err(ConversationError::UnsupportedModel)));
}

#[test]
fn backends_are_kept_as_configured() {
    let cfg = config_with_rounds("m", 2);
    let registry = registry_with_model("m");
    let conv = Conversation::new(&cfg, &registry, "AGREE".to_string()).unwrap();
    match conv.senior_backend() {
        AgentBackend::Cloud { model, .. } => assert_eq!(model, "m"),
        _ => panic!("senior backend should be the configured cloud backend"),
    }
    match conv.junior_backend() {
        AgentBackend::Cloud { model, .. } => assert_eq!(model, "m"),
        _ => panic!("junior backend should be the configured cloud backend"),
    }
    assert_eq!(conv.max_rounds(), 2);
}
