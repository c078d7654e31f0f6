//! The agent: it takes a user message, answers it, and reports what happened
//! as a list of events.
use vstd::prelude::*;
use crate::client_llm::{LLMClient, content_json, content_object};
use crate::config::{Config, same_settings};
use crate::context::{MessageModel, assistant_message, user_message};
use crate::json::{Json, JsonValue};
use crate::session::Session;
use crate::strings::{concat, owned};

verus! {

/// The kinds of event that a run of the agent reports.
#[derive(Debug, Clone, Copy, PartialEq, Eq, Structural)]
pub enum AgentEventType {
    TextDelta,
    TextComplete,
    ToolCallStart,
    ToolCallComplete,
    AgentError,
    AgentEnd,
}

/// One event of a run, with its data.
pub struct AgentEvent {
    pub event_type: AgentEventType,
    pub data: JsonValue,
}

/// The model of an event: its kind and its data.
pub open spec fn event_view(e: AgentEvent) -> (AgentEventType, Json) {
    (e.event_type, e.data@)
}

/// The models of a list of events.
pub open spec fn events_view(es: Seq<AgentEvent>) -> Seq<(AgentEventType, Json)> {
    es.map_values(|e: AgentEvent| event_view(e))
}

/// The reply that the agent gives to `message` (no model is reached yet).
pub open spec fn placeholder_reply(message: Seq<char>) -> Seq<char> {
    "placeholder response for: "@ + message
}

/// The events of a run that answered `message`: the completed reply, then the end.
pub open spec fn run_events(message: Seq<char>) -> Seq<(AgentEventType, Json)> {
    seq![
        (AgentEventType::TextComplete, content_object(placeholder_reply(message))),
        (AgentEventType::AgentEnd, Json::Object(seq![("response"@, Json::Str("done"@))])),
    ]
}

/// The agent with its settings and its session.
pub struct Agent {
    pub config: Config,
    pub session: Session,
    pub client: LLMClient,
}

impl Agent {
    /// An agent with these settings that works in `session` (a session that the
    /// program has already set up).
    pub fn new(config: Config, session: Session) -> (r: Self)
        ensures
            r.config == config,
            r.session == session,
            same_settings(r.client.spec_config(), config),
    {
        let client = LLMClient::new(config.copy());
        Agent { config, session, client }
    }

    /// Answers `message`: records it and the reply in the conversation,
    /// counts a turn, and reports the reply and the end of the run.
    pub fn run(&mut self, message: String) -> (r: Vec<AgentEvent>)
        requires
            old(self).session.turn_count < u32::MAX,
        ensures
            final(self).session.context_manager.spec_messages() == old(self).session.context_manager.spec_messages().push(
                user_message(message@),
            ).push(assistant_message(placeholder_reply(message@), None)),
            final(self).session.context_manager.spec_usage() == old(self).session.context_manager.spec_usage(),
            final(self).session.turn_count == old(self).session.turn_count + 1,
            final(self).session == (Session {
                context_manager: final(self).session.context_manager,
                turn_count: final(self).session.turn_count,
                updated_at: final(self).session.updated_at,
                ..old(self).session
            }),
            final(self).config == old(self).config,
            final(self).client == old(self).client,
            events_view(r@) == run_events(message@),
    {
        let response = concat("placeholder response for: ", message.as_str());
        let ghost m = message@;
        self.session.context_manager.add_user_message(message);
        self.session.increment_turn();
        self.session.context_manager.add_assistant_message(response.clone(), None);
        let mut events: Vec<AgentEvent> = Vec::new();
        events.push(AgentEvent { event_type: AgentEventType::TextComplete, data: content_json(response) });
        let mut end: Vec<(String, JsonValue)> = Vec::new();
        end.push((owned("response"), JsonValue::Str(owned("done"))));
        proof {
            reveal_with_fuel(crate::json::json_members, 2);
        }
        assert(crate::json::json_members(end@) =~= seq![("response"@, Json::Str("done"@))]);
        events.push(AgentEvent { event_type: AgentEventType::AgentEnd, data: JsonValue::Object(end) });
        assert(events_view(events@) =~= run_events(m));
        events
    }
}

} // verus!
