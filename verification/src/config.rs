//! Resolved configuration consumed by the orchestrator.
//!
//! The configuration is produced by external glue (file or environment
//! loading); the orchestrator treats it as read-only input. It binds each
//! of the two agents to a backend and bounds the number of review rounds.

use vstd::prelude::*;
use vstd::string::StringExecFns;

verus! {

/// Identity of a cloud API provider.
#[derive(Clone, Copy, Debug, PartialEq, Eq, Structural)]
pub enum LlmApiProvider {
    OpenAi,
    Anthropic,
}

/// An on-device model identity.
#[derive(Clone, Copy, Debug, PartialEq, Eq, Structural)]
pub enum LlmModel {
    DeepSeekCoderV2LiteInstruct,
    Qwen25Coder7B,
}

/// Credential material, keyed by cloud provider identity.
pub enum LLMConfig {
    Cloud { api_keys: Vec<(LlmApiProvider, String)> },
    OnDevice,
}

/// The backend an agent is bound to: a cloud provider plus model name, or
/// an on-device model. Resolved once at orchestrator construction and never
/// substituted afterwards.
#[derive(Debug)]
pub enum AgentBackend {
    Cloud { provider: LlmApiProvider, model: String },
    OnDevice { model: LlmModel },
}

/// Mathematical value of an [`AgentBackend`]: the model name is read as a
/// character sequence.
pub ghost enum BackendModel {
    Cloud { provider: LlmApiProvider, model: Seq<char> },
    OnDevice { model: LlmModel },
}

impl View for AgentBackend {
    type V = BackendModel;

    open spec fn view(&self) -> BackendModel {
        match self {
            AgentBackend::Cloud { provider, model } => BackendModel::Cloud {
                provider: *provider,
                model: model@,
            },
            AgentBackend::OnDevice { model } => BackendModel::OnDevice { model: *model },
        }
    }
}

/// Canonical model name of an on-device model.
pub open spec fn spec_model_id(m: LlmModel) -> Seq<char> {
    match m {
        LlmModel::DeepSeekCoderV2LiteInstruct => "deepseek-coder-v2-lite-instruct"@,
        LlmModel::Qwen25Coder7B => "qwen2.5-coder-7b"@,
    }
}

/// The model name a backend addresses: the configured name for a cloud
/// backend, the canonical name for an on-device model.
pub open spec fn spec_backend_model(b: BackendModel) -> Seq<char> {
    match b {
        BackendModel::Cloud { model, .. } => model,
        BackendModel::OnDevice { model } => spec_model_id(model),
    }
}

/// Returns the canonical model name of an on-device model.
pub fn model_id(m: &LlmModel) -> (s: String)
    ensures
        s@ == spec_model_id(*m),
{
    match m {
        LlmModel::DeepSeekCoderV2LiteInstruct => String::from_str(
            "deepseek-coder-v2-lite-instruct",
        ),
        LlmModel::Qwen25Coder7B => String::from_str("qwen2.5-coder-7b"),
    }
}

/// Returns the model name a backend addresses.
pub fn backend_model_name(b: &AgentBackend) -> (s: String)
    ensures
        s@ == spec_backend_model(b@),
{
    match b {
        AgentBackend::Cloud { model, .. } => model.clone(),
        AgentBackend::OnDevice { model } => model_id(model),
    }
}

/// Clones a backend; the copy denotes the same backend.
pub fn clone_backend(b: &AgentBackend) -> (r: AgentBackend)
    ensures
        r@ == b@,
{
    match b {
        AgentBackend::Cloud { provider, model } => AgentBackend::Cloud {
            provider: *provider,
            model: model.clone(),
        },
        AgentBackend::OnDevice { model } => AgentBackend::OnDevice { model: *model },
    }
}

/// Agent bindings and the round bound of one review conversation.
pub struct AgentConfig {
    pub senior: AgentBackend,
    pub junior: AgentBackend,
    pub max_rounds: usize,
}

/// Kind of code change under review.
#[derive(Clone, Copy, Debug, PartialEq, Eq, Structural)]
pub enum Input {
    File,
    Gitdiff,
    Gitpr,
}

/// Where the code change comes from.
pub struct InputConfig {
    pub input: Input,
    pub input_details: Option<String>,
}

/// Resolved configuration: credentials, agent bindings and input source.
pub struct Config {
    pub llm: LLMConfig,
    pub agents: AgentConfig,
    pub input: InputConfig,
}

/// Error raised while loading or overriding a configuration.
#[derive(Clone, Debug)]
pub enum ConfigError {
    Io(String),
    Toml(String),
    EnvVar(String),
    EnvParse(String),
}

impl Config {
    /// Applies environment overrides to an already resolved configuration.
    /// No overrides are defined, so the configuration is left untouched.
    pub fn apply_env_overrides(&mut self) -> (r: Result<(), ConfigError>)
        ensures
            r is Ok,
            *final(self) == *old(self),
    {
        Ok(())
    }
}

} // verus!
