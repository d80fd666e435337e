use vstd::prelude::*;

verus! {

/// One turn of a conversation.
///
/// `role` is free-form: `"system"`, `"user"` and `"assistant"` are the usual
/// values, and any other value is carried through as it is.
#[derive(Clone, Debug, PartialEq, Eq)]
pub struct Message {
    pub role: String,
    pub content: String,
}

/// What a [`Message`] stands for: its role and its content as character
/// sequences.
pub struct MessageView {
    pub role: Seq<char>,
    pub content: Seq<char>,
}

impl View for Message {
    type V = MessageView;

    open spec fn view(&self) -> MessageView {
        MessageView { role: self.role@, content: self.content@ }
    }
}

/// A sampling temperature, held as the bit pattern of an IEEE-754
/// single-precision number. The adapters only carry it from the prompt to the
/// request, so its bits are all they need.
#[derive(Clone, Copy, Debug, PartialEq, Eq, Structural)]
pub struct Temperature {
    pub bits: u32,
}

/// The provider-agnostic prompt that every adapter consumes.
///
/// `model` must be present by the time a request is built from it; the other
/// optional fields stay absent in the requests when they are absent here.
#[derive(Clone, Debug, PartialEq, Eq)]
pub struct Prompt {
    pub model: Option<String>,
    pub messages: Vec<Message>,
    pub temperature: Option<Temperature>,
    pub stream: Option<bool>,
    /// Routing field read by the aggregator target only.
    pub provider: Option<String>,
    /// Routing field read by the aggregator target only.
    pub provider_api_key: Option<String>,
    /// Read by the aggregator target only.
    pub web_search: Option<bool>,
}

} // verus!
