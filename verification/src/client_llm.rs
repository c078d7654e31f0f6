//! The client of the language model.
use vstd::prelude::*;
use crate::client_response::{StreamEvent, StreamEventType};
use crate::config::Config;
use crate::json::{Json, JsonValue};
use crate::strings::owned;

verus! {

/// The JSON object `{"content": text}`.
pub open spec fn content_object(text: Seq<char>) -> Json {
    Json::Object(seq![("content"@, Json::Str(text))])
}

/// `{"content": text}` as a value.
pub fn content_json(text: String) -> (r: JsonValue)
    ensures
        r@ == content_object(text@),
{
    let mut members: Vec<(String, JsonValue)> = Vec::new();
    members.push((owned("content"), JsonValue::Str(text)));
    proof {
        reveal_with_fuel(crate::json::json_members, 2);
    }
    let r = JsonValue::Object(members);
    assert(crate::json::json_members(members@) =~= seq![("content"@, Json::Str(text@))]);
    r
}

/// Talks to the language model that its settings name. No model is reached
/// yet: every call is answered with a fixed reply.
pub struct LLMClient {
    config: Config,
}

impl LLMClient {
    /// The settings that the client was made with.
    pub closed spec fn spec_config(&self) -> Config {
        self.config
    }

    /// A client for the model that `config` names.
    pub fn new(config: Config) -> (r: Self)
        ensures
            r.spec_config() == config,
    {
        LLMClient { config }
    }

    /// The reply to a conversation: one completed text, the fixed placeholder.
    pub fn chat(&self, messages: &Vec<JsonValue>, tools: &Vec<JsonValue>) -> (r: Vec<StreamEvent>)
        ensures
            r@.len() == 1,
            r@[0].event_type == StreamEventType::TextComplete,
            r@[0].data@ == content_object("LLM client placeholder response"@),
    {
        let mut out: Vec<StreamEvent> = Vec::new();
        out.push(StreamEvent {
            event_type: StreamEventType::TextComplete,
            data: content_json(owned("LLM client placeholder response")),
        });
        out
    }

    /// Closes the client; there is nothing to release.
    pub fn close(&self) {
    }
}

} // verus!
