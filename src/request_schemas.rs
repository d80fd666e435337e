//! The request records of the three targets, each built from a [`Prompt`].
//!
//! Every optional field of a request holds exactly what the prompt held, so a
//! field that is absent in the prompt is absent in the request.
use crate::normalize::{
    adjacent_roles_differ, messages_view, no_system_role, normalize, normalize_messages,
};
use crate::prompt::{Message, Prompt, Temperature};
use vstd::prelude::*;

verus! {

/// The `max_tokens` of every Anthropic-style request. The prompt has no field
/// for it, so it is not configurable here.
pub const ANTHROPIC_MAX_TOKENS: i32 = 4096;

/// Why a request could not be built from a prompt.
#[derive(Clone, Copy, Debug, PartialEq, Eq, Structural)]
pub enum PromptError {
    /// The prompt names no model, and no target accepts a request without one.
    MissingModel,
}

impl PromptError {
    /// A message for the caller, who has to fix the configuration upstream.
    pub fn message(&self) -> (r: &'static str)
        ensures
            r@ == "model must be specified either in the api config or in the prompt config"@,
    {
        match self {
            PromptError::MissingModel => "model must be specified either in the api config or in the prompt config",
        }
    }
}

/// A request for an OpenAI-compatible API.
#[derive(Clone, Debug, PartialEq, Eq)]
pub struct OpenAiPrompt {
    pub model: String,
    pub messages: Vec<Message>,
    pub temperature: Option<Temperature>,
    pub stream: Option<bool>,
}

/// A request for the G4F aggregator API, which takes routing fields besides
/// the OpenAI-compatible ones.
#[derive(Clone, Debug, PartialEq, Eq)]
pub struct G4FPrompt {
    pub provider: Option<String>,
    pub provider_api_key: Option<String>,
    pub model: String,
    pub messages: Vec<Message>,
    pub temperature: Option<Temperature>,
    pub stream: Option<bool>,
    pub web_search: Option<bool>,
}

/// A request for an Anthropic-style API: its messages are normalized and its
/// `max_tokens` is always [`ANTHROPIC_MAX_TOKENS`].
#[derive(Clone, Debug, PartialEq, Eq)]
pub struct AnthropicPrompt {
    pub model: String,
    pub messages: Vec<Message>,
    pub temperature: Option<Temperature>,
    pub max_tokens: i32,
    pub stream: Option<bool>,
}

impl OpenAiPrompt {
    /// Copies the prompt's fields into an OpenAI-compatible request; the
    /// messages go through unchanged, `"system"` turns included.
    pub fn from_prompt(prompt: Prompt) -> (r: Result<OpenAiPrompt, PromptError>)
        ensures
            r is Err <==> prompt.model is None,
            r is Err ==> r->Err_0 == PromptError::MissingModel,
            r is Ok ==> {
                let req = r->Ok_0;
                &&& req.model@ == prompt.model->Some_0@
                &&& req.messages@ == prompt.messages@
                &&& req.temperature == prompt.temperature
                &&& req.stream == prompt.stream
            },
    {
        match prompt.model {
            None => Err(PromptError::MissingModel),
            Some(model) => Ok(
                OpenAiPrompt {
                    model,
                    messages: prompt.messages,
                    temperature: prompt.temperature,
                    stream: prompt.stream,
                },
            ),
        }
    }
}

impl G4FPrompt {
    /// Copies the prompt's fields into an aggregator request, the routing
    /// fields included; the messages go through unchanged.
    pub fn from_prompt(prompt: Prompt) -> (r: Result<G4FPrompt, PromptError>)
        ensures
            r is Err <==> prompt.model is None,
            r is Err ==> r->Err_0 == PromptError::MissingModel,
            r is Ok ==> {
                let req = r->Ok_0;
                &&& req.provider == prompt.provider
                &&& req.provider_api_key == prompt.provider_api_key
                &&& req.model@ == prompt.model->Some_0@
                &&& req.messages@ == prompt.messages@
                &&& req.temperature == prompt.temperature
                &&& req.stream == prompt.stream
                &&& req.web_search == prompt.web_search
            },
    {
        match prompt.model {
            None => Err(PromptError::MissingModel),
            Some(model) => Ok(
                G4FPrompt {
                    provider: prompt.provider,
                    provider_api_key: prompt.provider_api_key,
                    model,
                    messages: prompt.messages,
                    temperature: prompt.temperature,
                    stream: prompt.stream,
                    web_search: prompt.web_search,
                },
            ),
        }
    }
}

impl AnthropicPrompt {
    /// Builds an Anthropic-style request: the messages are normalized (see
    /// [`normalize_messages`]) and `max_tokens` is [`ANTHROPIC_MAX_TOKENS`].
    pub fn from_prompt(prompt: Prompt) -> (r: Result<AnthropicPrompt, PromptError>)
        ensures
            r is Err <==> prompt.model is None,
            r is Err ==> r->Err_0 == PromptError::MissingModel,
            r is Ok ==> {
                let req = r->Ok_0;
                &&& req.model@ == prompt.model->Some_0@
                &&& messages_view(req.messages@) == normalize(messages_view(prompt.messages@))
                &&& no_system_role(messages_view(req.messages@))
                &&& adjacent_roles_differ(messages_view(req.messages@))
                &&& req.temperature == prompt.temperature
                &&& req.max_tokens == 4096
                &&& req.stream == prompt.stream
            },
    {
        match prompt.model {
            None => Err(PromptError::MissingModel),
            Some(model) => Ok(
                AnthropicPrompt {
                    model,
                    messages: normalize_messages(prompt.messages),
                    temperature: prompt.temperature,
                    max_tokens: ANTHROPIC_MAX_TOKENS,
                    stream: prompt.stream,
                },
            ),
        }
    }
}

} // verus!
