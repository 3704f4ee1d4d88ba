use code_reviewer::config::{model_id, AgentBackend, LlmApiProvider, LlmModel};
use code_reviewer::errors::ConversationError;
use code_reviewer::registry::{ProviderEntry, ProviderKey, ProviderRegistry};

fn cloud_entry(provider: LlmApiProvider, models: &[&str]) -> ProviderEntry {
    ProviderEntry {
        key: ProviderKey::Cloud(provider),
        models: models.iter().map(|m| m.to_string()).collect(),
    }
}

#[test]
fn duplicate_provider_key_is_refused() {
    let mut registry = ProviderRegistry::new();
    assert!(registry.register(cloud_entry(LlmApiProvider::OpenAi, &["a"])));
    assert!(!registry.register(cloud_entry(LlmApiProvider::OpenAi, &["b"])));
    assert!(registry.register(cloud_entry(LlmApiProvider::Anthropic, &["b"])));
    assert_eq!(registry.len(), 2);
}

#[test]
fn resolve_selects_by_backend_variant() {
    let mut registry = ProviderRegistry::new();
    registry.register(cloud_entry(LlmApiProvider::OpenAi, &["a"]));
    registry.register(ProviderEntry {
        key: ProviderKey::OnDevice,
        models: vec![model_id(&LlmModel::Qwen25Coder7B)],
    });
    let cloud = AgentBackend::Cloud { provider: LlmApiProvider::OpenAi, model: "a".to_string() };
    let device = AgentBackend::OnDevice { model: LlmModel::Qwen25Coder7B };
    let i = registry.resolve(&cloud).unwrap();
    assert!(matches!(registry.entry(i).key, ProviderKey::Cloud(LlmApiProvider::OpenAi)));
    let j = registry.resolve(&device).unwrap();
    assert!(matches!(registry.entry(j).key, ProviderKey::OnDevice));
}

#[test]
fn unresolved_backend_is_unsupported() {
    let mut registry = ProviderRegistry::new();
    registry.register(cloud_entry(LlmApiProvider::OpenAi, &["a"]));
    let backend = AgentBackend::Cloud {
        provider: LlmApiProvider::Anthropic,
        model: "a".to_string(),
    };
    assert!(matches!(
        registry.resolve(&backend),
        Err(ConversationError::UnsupportedModel)
    ));
    assert!(!registry.backend_supported(&backend));
}

#[test]
fn supported_model_is_found() {
    let mut registry = ProviderRegistry::new();
    registry.register(cloud_entry(LlmApiProvider::OpenAi, &["a", "b"]));
    let yes = AgentBackend::Cloud { provider: LlmApiProvider::OpenAi, model: "b".to_string() };
    let no = AgentBackend::Cloud { provider: LlmApiProvider::OpenAi, model: "c".to_string() };
    assert!(registry.backend_supported(&yes));
    assert!(!registry.backend_supported(&no));
}

#[test]
fn on_device_models_have_canonical_names() {
    assert_eq!(
        model_id(&LlmModel::DeepSeekCoderV2LiteInstruct),
        "deepseek-coder-v2-lite-instruct"
    );
    assert_eq!(model_id(&LlmModel::Qwen25Coder7B), "qwen2.5-coder-7b");
    let mut registry = ProviderRegistry::new();
    registry.register(ProviderEntry {
        key: ProviderKey::OnDevice,
        models: vec![model_id(&LlmModel::DeepSeekCoderV2LiteInstruct)],
    });
    let supported = AgentBackend::OnDevice { model: LlmModel::DeepSeekCoderV2LiteInstruct };
    let unsupported = AgentBackend::OnDevice { model: LlmModel::Qwen25Coder7B };
    assert!(registry.backend_supported(&supported));
    assert!(!registry.backend_supported(&unsupported));
}
