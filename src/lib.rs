//! Shapes one canonical chat prompt into the request records of three kinds of
//! language-model backends: an OpenAI-compatible API, a G4F aggregator API and
//! an Anthropic-style API.
//!
//! The canonical input is [`Prompt`]. Each request record has a constructor
//! `from_prompt` that copies the prompt's fields, and the Anthropic-style one
//! normalizes the message list first (see [`normalize_messages`]).

mod normalize;
mod prompt;
mod request_schemas;

pub use normalize::{
    adjacent_roles_differ, lemma_normalize_fixes_normal, lemma_normalize_idempotent,
    lemma_normalize_is_normal, merge_into, messages_view, no_system_role, normalize,
    normalize_messages, normalize_role,
};
pub use prompt::{Message, MessageView, Prompt, Temperature};
pub use request_schemas::{
    AnthropicPrompt, G4FPrompt, OpenAiPrompt, PromptError, ANTHROPIC_MAX_TOKENS,
};
