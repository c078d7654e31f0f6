//! Where saved sessions and checkpoints live, and how they are named.
use vstd::prelude::*;
use crate::paths::{agent_dir_under, get_data_dir, join, join_path};
use crate::context::{MessageModel, message_json, restore_all};
use crate::json::{Json, JsonValue};
use crate::session::Session;
use crate::strings::{chars_of, decimal, owned, push_decimal, push_str_chars, string_of, u64_to_string};
use crate::text::take_chars;

verus! {

/// Knows the directories that hold saved sessions and checkpoints.
pub struct PersistenceManager {
    base_dir: String,
}

impl PersistenceManager {
    /// The directory under which everything is kept.
    pub closed spec fn spec_base_dir(&self) -> Seq<char> {
        self.base_dir@
    }

    /// A manager rooted at the `sessions` directory of the agent's data directory.
    pub fn new() -> (r: Self)
        ensures
            exists|b: Option<Seq<char>>| r.spec_base_dir() == join_path(agent_dir_under(b), "sessions"@),
    {
        let d = get_data_dir();
        PersistenceManager { base_dir: join(d.as_str(), "sessions") }
    }

    /// The directory of saved sessions.
    pub fn sessions_dir(&self) -> (r: String)
        ensures
            r@ == join_path(self.spec_base_dir(), "saved"@),
    {
        join(self.base_dir.as_str(), "saved")
    }

    /// The directory of checkpoints.
    pub fn checkpoints_dir(&self) -> (r: String)
        ensures
            r@ == join_path(self.spec_base_dir(), "checkpoints"@),
    {
        join(self.base_dir.as_str(), "checkpoints")
    }

    /// The file that holds the saved session `session_id`.
    pub fn session_file(&self, session_id: &str) -> (r: String)
        ensures
            r@ == join_path(join_path(self.spec_base_dir(), "saved"@), session_id@ + ".json"@),
    {
        let d = self.sessions_dir();
        let mut name = chars_of(session_id);
        push_str_chars(&mut name, ".json");
        join(d.as_str(), string_of(&name).as_str())
    }

    /// The file that holds the checkpoint `checkpoint_id`.
    pub fn checkpoint_file(&self, checkpoint_id: &str) -> (r: String)
        ensures
            r@ == join_path(join_path(self.spec_base_dir(), "checkpoints"@), checkpoint_id@ + ".json"@),
    {
        let d = self.checkpoints_dir();
        let mut name = chars_of(checkpoint_id);
        push_str_chars(&mut name, ".json");
        join(d.as_str(), string_of(&name).as_str())
    }
}

/// The name of the checkpoint of a session at a turn: `<session>_<turn>`.
pub fn checkpoint_id(session_id: &str, turn_count: u32) -> (r: String)
    ensures
        r@ == session_id@ + "_"@ + decimal(turn_count as nat),
{
    let mut v = chars_of(session_id);
    push_str_chars(&mut v, "_");
    push_decimal(&mut v, turn_count as u64);
    string_of(&v)
}

/// A saved session: its identity, times (milliseconds since the Unix epoch),
/// turn count, messages as JSON and token usage.
pub struct SessionSnapshot {
    pub session_id: String,
    pub created_at: i64,
    pub updated_at: i64,
    pub turn_count: u32,
    pub messages: Vec<JsonValue>,
    pub total_usage: u64,
}

/// The messages of a conversation as JSON.
pub open spec fn messages_json(ms: Seq<MessageModel>) -> Seq<Json> {
    ms.map_values(|m: MessageModel| message_json(m))
}

/// The snapshot of a session, to be saved.
pub fn snapshot_of(session: &Session) -> (r: SessionSnapshot)
    ensures
        r.session_id == session.session_id,
        r.created_at == session.created_at,
        r.updated_at == session.updated_at,
        r.turn_count == session.turn_count,
        r.total_usage == session.context_manager.spec_usage(),
        r.messages@.map_values(|v: JsonValue| v@) == messages_json(session.context_manager.spec_messages()),
{
    let messages = session.context_manager.get_messages();
    assert(messages@.map_values(|v: JsonValue| v@) =~= messages_json(session.context_manager.spec_messages()));
    SessionSnapshot {
        session_id: session.session_id.clone(),
        created_at: session.created_at,
        updated_at: session.updated_at,
        turn_count: session.turn_count,
        messages,
        total_usage: session.context_manager.usage(),
    }
}

/// Puts a saved session back into `session` (a freshly set up one): its
/// identity, times, turn count and usage, and its messages after those the
/// session already has (system messages of the snapshot are skipped).
pub fn restore_session(session: &mut Session, snapshot: SessionSnapshot)
    ensures
        final(session).session_id == snapshot.session_id,
        final(session).created_at == snapshot.created_at,
        final(session).updated_at == snapshot.updated_at,
        final(session).turn_count == snapshot.turn_count,
        final(session).context_manager.spec_usage() == snapshot.total_usage,
        final(session).context_manager.spec_messages() == restore_all(
            old(session).context_manager.spec_messages(),
            snapshot.messages@.map_values(|v: JsonValue| v@),
        ),
        final(session).loop_detector == old(session).loop_detector,
{
    let SessionSnapshot { session_id, created_at, updated_at, turn_count, messages, total_usage } = snapshot;
    session.session_id = session_id;
    session.created_at = created_at;
    session.updated_at = updated_at;
    session.turn_count = turn_count;
    session.context_manager.set_usage(total_usage);
    session.context_manager.restore_messages(&messages);
}

/// A saved session, restored into a session with no messages, gives back the
/// messages it was saved from, when they are conversation messages (user,
/// assistant, tool).
pub proof fn law_saved_messages_come_back(ms: Seq<MessageModel>)
    requires
        forall|i: int| 0 <= i < ms.len() ==> crate::context::is_conversation_message(#[trigger] ms[i]),
    ensures
        messages_json(restore_all(Seq::<MessageModel>::empty(), messages_json(ms))) == messages_json(ms),
{
    crate::context::law_conversation_round_trip(Seq::<MessageModel>::empty(), ms);
    assert(messages_json(Seq::<MessageModel>::empty()) + messages_json(ms) =~= messages_json(ms));
}

/// A file name whose extension (as `Path::extension` finds it) is `json`.
pub open spec fn is_json_file_name(name: Seq<char>) -> bool {
    name.len() > 5 && name.skip(name.len() - 5) == ".json"@
}

/// Whether the file name has the extension `json`.
pub fn has_json_extension(name: &str) -> (r: bool)
    ensures
        r == is_json_file_name(name@),
{
    let v = chars_of(name);
    if v.len() <= 5 {
        return false;
    }
    let tail = crate::text::skip_chars(&v, v.len() - 5);
    let ext = chars_of(".json");
    crate::strings::chars_eq(&tail, &ext)
}

/// The checkpoint that a file holds: its name without `.json`; `None` for a
/// file that is no JSON file.
pub fn checkpoint_id_of(file_name: &str) -> (r: Option<String>)
    ensures
        match r {
            Some(id) => is_json_file_name(file_name@) && id@ == file_name@.take(file_name@.len() - 5),
            None => !is_json_file_name(file_name@),
        },
{
    if has_json_extension(file_name) {
        let v = chars_of(file_name);
        let stem = take_chars(&v, v.len() - 5);
        Some(string_of(&stem))
    } else {
        None
    }
}

/// The listing entry of a saved session.
pub open spec fn spec_session_summary(session_id: Seq<char>, turn_count: nat, updated_at: Seq<char>) -> Json {
    Json::Object(
        seq![
            ("session_id"@, Json::Str(session_id)),
            ("turn_count"@, Json::Number(decimal(turn_count))),
            ("updated_at"@, Json::Str(updated_at)),
        ],
    )
}

/// The listing entry of a saved session; `updated_at` is its time as RFC 3339 text.
pub fn session_summary(session_id: &str, turn_count: u32, updated_at: &str) -> (r: JsonValue)
    ensures
        r@ == spec_session_summary(session_id@, turn_count as nat, updated_at@),
{
    let mut ms: Vec<(String, JsonValue)> = Vec::new();
    ms.push((owned("session_id"), JsonValue::Str(owned(session_id))));
    ms.push((owned("turn_count"), JsonValue::Number(u64_to_string(turn_count as u64))));
    ms.push((owned("updated_at"), JsonValue::Str(owned(updated_at))));
    proof {
        reveal_with_fuel(crate::json::json_members, 4);
    }
    assert(crate::json::json_members(ms@) =~= spec_session_summary(session_id@, turn_count as nat, updated_at@)->Object_0);
    JsonValue::Object(ms)
}

/// The listing entry of a checkpoint.
pub fn checkpoint_summary(checkpoint_id: &str) -> (r: JsonValue)
    ensures
        r@ == Json::Object(seq![("checkpoint_id"@, Json::Str(checkpoint_id@))]),
{
    let mut ms: Vec<(String, JsonValue)> = Vec::new();
    ms.push((owned("checkpoint_id"), JsonValue::Str(owned(checkpoint_id))));
    proof {
        reveal_with_fuel(crate::json::json_members, 2);
    }
    assert(crate::json::json_members(ms@) =~= seq![("checkpoint_id"@, Json::Str(checkpoint_id@))]);
    JsonValue::Object(ms)
}

} // verus!
