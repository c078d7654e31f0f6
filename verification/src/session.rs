//! One session of the agent: its settings and tools, its conversation, the
//! managers it works with, its identity and its turn count.
use vstd::prelude::*;
use crate::approval::ApprovalManager;
use crate::compaction::ChatCompactor;
use crate::config::{Config, same_settings};
use crate::context::{ContextManager, MessageModel, now_millis};
use crate::discovery::{SpecModel, ToolDiscoveryManager};
use crate::hooks::{HookSystem, active_hooks};
use crate::mcp::{MCPClient, MCPManager};
use crate::registry::{ToolRegistry, create_default_registry, default_tool_names};
use crate::json::{Json, JsonValue, json_get, json_parse, json_str, parse_json};
use crate::loop_detector::LoopDetector;
use crate::strings::{chars_of, join_seq, join_strings, owned, push_all, push_str_chars, string_of, string_views, u64_to_string, decimal};
use crate::todo_tool::new_uuid;

verus! {

/// The state of one session: its settings, its tools, its conversation, the
/// managers it works with, and its identity and turn count.
pub struct Session {
    pub config: Config,
    pub tool_registry: ToolRegistry,
    pub context_manager: ContextManager,
    pub discovery_manager: ToolDiscoveryManager,
    pub mcp_manager: MCPManager,
    pub chat_compactor: ChatCompactor,
    pub approval_manager: ApprovalManager,
    pub hook_system: HookSystem,
    pub loop_detector: LoopDetector,
    pub session_id: String,
    /// Milliseconds since the Unix epoch.
    pub created_at: i64,
    /// Milliseconds since the Unix epoch.
    pub updated_at: i64,
    pub turn_count: u32,
}

/// One line of the remembered notes: `- key: value` (an empty value for a
/// value that is no string).
pub open spec fn memory_note(m: (Seq<char>, Json)) -> Seq<char> {
    "- "@ + m.0 + ": "@ + match json_str(Some(m.1)) {
        Some(s) => s,
        None => seq![],
    }
}

/// The system prompt that the saved notes `text` (the memory file) give: the
/// heading and one line per entry; `None` when the text is no JSON, has no
/// `entries` object, or that object is empty.
pub open spec fn spec_memory_prompt(text: Seq<char>) -> Option<Seq<char>> {
    match json_parse(text) {
        Some(j) => match json_get(j, "entries"@) {
            Some(Json::Object(ms)) => if ms.len() == 0 {
                None
            } else {
                Some(join_seq(seq!["User preferences and notes:"@] + ms.map_values(|m: (Seq<char>, Json)| memory_note(m)), "\n"@))
            },
            _ => None,
        },
        None => None,
    }
}

/// The system prompt made from the contents of the memory file.
pub fn memory_prompt(text: &str) -> (r: Option<String>)
    ensures
        match r {
            Some(s) => spec_memory_prompt(text@) == Some(s@),
            None => spec_memory_prompt(text@) is None,
        },
{
    let v = match parse_json(text) {
        Some(v) => v,
        None => return None,
    };
    let entries = match v.get("entries") {
        Some(e) => e,
        None => return None,
    };
    match entries {
        JsonValue::Object(members) => {
            if members.len() == 0 {
                proof {
                    crate::json::lemma_json_members_len(members@);
                }
                return None;
            }
            let ghost ms = crate::json::json_members(members@);
            proof {
                crate::json::lemma_json_members_len(members@);
            }
            let mut lines: Vec<String> = Vec::new();
            lines.push(owned("User preferences and notes:"));
            let ghost head = seq!["User preferences and notes:"@];
            for i in 0..members.len()
                invariant
                    ms == crate::json::json_members(members@),
                    ms.len() == members@.len(),
                    string_views(lines@) == head + ms.take(i as int).map_values(|m: (Seq<char>, Json)| memory_note(m)),
            {
                let mut line = chars_of("- ");
                push_str_chars(&mut line, members[i].0.as_str());
                push_str_chars(&mut line, ": ");
                match members[i].1.as_str() {
                    Some(s) => push_str_chars(&mut line, s),
                    None => {},
                }
                proof {
                    crate::json::lemma_json_members_index(members@, i as int);
                    reveal_strlit("");
                    assert(line@ == memory_note(ms[i as int]));
                }
                let ghost prev = string_views(lines@);
                lines.push(string_of(&line));
                proof {
                    assert(ms.take(i + 1) == ms.take(i as int).push(ms[i as int]));
                    assert(string_views(lines@) =~= prev.push(line@));
                    assert(ms.take(i + 1).map_values(|m: (Seq<char>, Json)| memory_note(m)) =~= ms.take(i as int).map_values(
                        |m: (Seq<char>, Json)| memory_note(m),
                    ).push(memory_note(ms[i as int])));
                }
            }
            assert(ms.take(ms.len() as int) == ms);
            Some(join_strings(&lines, "\n"))
        },
        _ => None,
    }
}

/// The statistics of a session as a JSON object (members in the order in
/// which `serde_json` keeps them).
pub open spec fn spec_stats(
    session_id: Seq<char>,
    created_at: Seq<char>,
    turn_count: nat,
    message_count: nat,
    token_usage: nat,
    tools_count: nat,
    mcp_servers: nat,
) -> Json {
    Json::Object(
        seq![
            ("created_at"@, Json::Str(created_at)),
            ("mcp_servers"@, Json::Number(decimal(mcp_servers))),
            ("message_count"@, Json::Number(decimal(message_count))),
            ("session_id"@, Json::Str(session_id)),
            ("token_usage"@, Json::Number(decimal(token_usage))),
            ("tools_count"@, Json::Number(decimal(tools_count))),
            ("turn_count"@, Json::Number(decimal(turn_count))),
        ],
    )
}

fn number(n: u64) -> (r: JsonValue)
    ensures
        r@ == Json::Number(decimal(n as nat)),
{
    JsonValue::Number(u64_to_string(n))
}

/// The creation time of a session as RFC 3339 text (empty for an instant out
/// of the calendar's range).
pub open spec fn created_text(millis: i64) -> Seq<char> {
    match rfc3339_text(millis) {
        Some(t) => t,
        None => Seq::<char>::empty(),
    }
}

/// The statistics of a session: its identifier, its creation time, its
/// turns, the messages and tokens of its conversation, the tools its
/// registry offers and the MCP servers it knows.
pub open spec fn session_stats(s: Session) -> Json {
    spec_stats(
        s.session_id@,
        created_text(s.created_at),
        s.turn_count as nat,
        s.context_manager.spec_messages().len(),
        s.context_manager.spec_usage() as nat,
        s.tool_registry.spec_offered().len(),
        s.mcp_manager.spec_clients().len(),
    )
}

/// The RFC 3339 text of an instant given in milliseconds since the Unix
/// epoch, in UTC; `None` for an instant out of the calendar's range.
pub uninterp spec fn rfc3339_text(millis: i64) -> Option<Seq<char>>;

/// `chrono::DateTime::<Utc>::from_timestamp_millis` and then `to_rfc3339`.
/// The contract claims only that the result is the one that `rfc3339_text`
/// names for this instant: the text depends on the instant alone. Its form is
/// not stated.
#[verifier::external_body]
fn rfc3339_of_millis(millis: i64) -> (r: Option<String>)
    ensures
        match r {
            Some(t) => rfc3339_text(millis) == Some(t@),
            None => rfc3339_text(millis) is None,
        },
{
    match chrono::DateTime::<chrono::Utc>::from_timestamp_millis(millis) {
        Some(d) => Some(d.to_rfc3339()),
        None => None,
    }
}

impl Session {
    /// A fresh session for `config`: the default tools, an empty conversation,
    /// no discovered tools and no MCP servers yet, the approval policy and
    /// hooks of the settings, a fresh identifier, the time now as its creation
    /// time, and no turns.
    pub fn new(config: Config) -> (r: Self)
        ensures
            r.config == config,
            r.tool_registry.spec_tools() == default_tool_names(),
            r.tool_registry.spec_mcp_tools() == Seq::<Seq<char>>::empty(),
            r.tool_registry.spec_allowed() == match config.allowed_tools {
                Some(v) => Some(string_views(v@)),
                None => None,
            },
            r.context_manager.spec_messages() == Seq::<MessageModel>::empty(),
            r.context_manager.spec_usage() == 0,
            r.discovery_manager.spec_kept() == Seq::<(Seq<char>, SpecModel)>::empty(),
            r.mcp_manager.spec_clients() == Seq::<MCPClient>::empty(),
            !r.mcp_manager.spec_initialized(),
            r.approval_manager.spec_policy() == config.approval,
            r.approval_manager.spec_cwd() == config.cwd@,
            same_settings(r.hook_system.spec_config(), config),
            r.hook_system.spec_hooks() == active_hooks(config.hooks@, config.hooks_enabled),
            r.loop_detector.spec_actions() == Seq::<Seq<char>>::empty(),
            r.loop_detector.spec_max() == 20,
            r.session_id@.len() == 36,
            r.turn_count == 0,
    {
        let tool_registry = create_default_registry(&config);
        let approval_manager = ApprovalManager::new(config.approval, config.cwd.clone());
        let hook_system = HookSystem::new(config.copy());
        Session {
            tool_registry,
            context_manager: ContextManager::new(None),
            discovery_manager: ToolDiscoveryManager::new(),
            mcp_manager: MCPManager::new(),
            chat_compactor: ChatCompactor::new(),
            approval_manager,
            hook_system,
            loop_detector: LoopDetector::new(),
            session_id: new_uuid(),
            created_at: now_millis(),
            updated_at: now_millis(),
            turn_count: 0,
            config,
        }
    }

    /// Starts the conversation afresh with the given system prompt (the
    /// remembered notes, when there are any); the rest of the session stays.
    pub fn reset_context(&mut self, system_prompt: Option<String>)
        ensures
            final(self).context_manager.spec_messages() == match system_prompt {
                Some(p) => seq![crate::context::system_message(p@)],
                None => Seq::<MessageModel>::empty(),
            },
            final(self).context_manager.spec_usage() == 0,
            *final(self) == (Session { context_manager: final(self).context_manager, ..*old(self) }),
    {
        self.context_manager = ContextManager::new(system_prompt);
    }

    /// Counts one more turn and stamps the session with the time now; the
    /// rest of the session stays.
    pub fn increment_turn(&mut self) -> (r: u32)
        requires
            old(self).turn_count < u32::MAX,
        ensures
            r == final(self).turn_count,
            final(self).turn_count == old(self).turn_count + 1,
            *final(self) == (Session { turn_count: final(self).turn_count, updated_at: final(self).updated_at, ..*old(self) }),
    {
        self.turn_count = self.turn_count + 1;
        self.updated_at = now_millis();
        self.turn_count
    }

    /// The statistics of the session (see `session_stats`).
    pub fn get_stats(&self) -> (r: JsonValue)
        ensures
            r@ == session_stats(*self),
    {
        let created_at = match rfc3339_of_millis(self.created_at) {
            Some(t) => t,
            None => String::new(),
        };
        let tools = self.tool_registry.get_tools();
        let tools_count = tools.len();
        let mcp_servers = self.mcp_manager.get_all_servers().len();
        assert(string_views(tools@).len() == tools@.len());
        let mut members: Vec<(String, JsonValue)> = Vec::new();
        let ghost created_text = created_at@;
        members.push((owned("created_at"), JsonValue::Str(created_at)));
        members.push((owned("mcp_servers"), number(mcp_servers as u64)));
        members.push((owned("message_count"), number(self.context_manager.message_count() as u64)));
        members.push((owned("session_id"), JsonValue::Str(self.session_id.clone())));
        members.push((owned("token_usage"), number(self.context_manager.usage())));
        members.push((owned("tools_count"), number(tools_count as u64)));
        members.push((owned("turn_count"), number(self.turn_count as u64)));
        let r = JsonValue::Object(members);
        proof {
            let ms = members@;
            reveal_with_fuel(crate::json::json_members, 8);
            assert(crate::json::json_members(ms) =~= spec_stats(
                self.session_id@,
                created_text,
                self.turn_count as nat,
                self.context_manager.spec_messages().len(),
                self.context_manager.spec_usage() as nat,
                tools_count as nat,
                mcp_servers as nat,
            )->Object_0);
        }
        r
    }
}

} // verus!
