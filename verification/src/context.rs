//! The conversation history: the messages of a session, in order.
use vstd::prelude::*;
use crate::json::{Json, JsonValue, get_str, json_get, json_get_str, member_lookup, opt_json};
use crate::strings::{chars_of, owned, str_eq, string_of};

verus! {

/// The time now, in milliseconds since the Unix epoch, from `chrono::Utc::now`.
/// Nothing is stated of the value: it depends on the clock.
#[verifier::external_body]
pub(crate) fn now_millis() -> (r: i64) {
    chrono::Utc::now().timestamp_millis()
}

/// One message of the conversation.
pub struct MessageItem {
    pub role: String,
    pub content: String,
    pub tool_calls: Option<JsonValue>,
    pub tool_call_id: Option<String>,
    pub created_at: i64,
}

/// What a message says, without the time it was made.
pub struct MessageModel {
    pub role: Seq<char>,
    pub content: Seq<char>,
    pub tool_calls: Option<Json>,
    pub tool_call_id: Option<Seq<char>>,
}

/// The model of a message.
pub open spec fn message_model(m: MessageItem) -> MessageModel {
    MessageModel {
        role: m.role@,
        content: m.content@,
        tool_calls: opt_json(m.tool_calls),
        tool_call_id: match m.tool_call_id {
            Some(s) => Some(s@),
            None => None,
        },
    }
}

/// A message as the model sees it: an object with `content`, `role`,
/// `tool_call_id` and `tool_calls`, absent values as `null` (members in the
/// order in which `serde_json` keeps them).
pub open spec fn message_json(m: MessageModel) -> Json {
    Json::Object(
        seq![
            ("content"@, Json::Str(m.content)),
            ("role"@, Json::Str(m.role)),
            (
                "tool_call_id"@,
                match m.tool_call_id {
                    Some(s) => Json::Str(s),
                    None => Json::Null,
                },
            ),
            (
                "tool_calls"@,
                match m.tool_calls {
                    Some(j) => j,
                    None => Json::Null,
                },
            ),
        ],
    )
}

/// The message added by `add_user_message`.
pub open spec fn user_message(content: Seq<char>) -> MessageModel {
    MessageModel { role: "user"@, content, tool_calls: None, tool_call_id: None }
}

/// The message added by `add_assistant_message`.
pub open spec fn assistant_message(content: Seq<char>, tool_calls: Option<Json>) -> MessageModel {
    MessageModel { role: "assistant"@, content, tool_calls, tool_call_id: None }
}

/// The message added by `add_tool_result`.
pub open spec fn tool_message(id: Seq<char>, content: Seq<char>) -> MessageModel {
    MessageModel { role: "tool"@, content, tool_calls: None, tool_call_id: Some(id) }
}

/// The message that holds the system prompt.
pub open spec fn system_message(content: Seq<char>) -> MessageModel {
    MessageModel { role: "system"@, content, tool_calls: None, tool_call_id: None }
}

/// The conversation of a session.
pub struct ContextManager {
    messages: Vec<MessageItem>,
    pub total_usage: u64,
}

impl ContextManager {
    /// The tokens used so far.
    pub closed spec fn spec_usage(&self) -> u64 {
        self.total_usage
    }

    /// The messages, oldest first.
    pub closed spec fn spec_messages(&self) -> Seq<MessageModel> {
        self.messages@.map_values(|m: MessageItem| message_model(m))
    }

    /// A conversation that holds the system prompt, if one is given.
    pub fn new(system_prompt: Option<String>) -> (r: Self)
        ensures
            r.spec_usage() == 0,
            r.spec_messages() == match system_prompt {
                Some(p) => seq![system_message(p@)],
                None => Seq::<MessageModel>::empty(),
            },
    {
        let mut s = ContextManager { messages: Vec::new(), total_usage: 0 };
        match system_prompt {
            Some(prompt) => {
                let ghost p = prompt@;
                s.messages.push(MessageItem {
                    role: owned("system"),
                    content: prompt,
                    tool_calls: None,
                    tool_call_id: None,
                    created_at: now_millis(),
                });
                assert(s.spec_messages() =~= seq![system_message(p)]);
            },
            None => {
                assert(s.spec_messages() =~= Seq::<MessageModel>::empty());
            },
        }
        s
    }

    fn push_item(&mut self, item: MessageItem)
        ensures
            final(self).spec_usage() == old(self).spec_usage(),
            final(self).spec_messages() == old(self).spec_messages().push(message_model(item)),
    {
        let ghost m = message_model(item);
        self.messages.push(item);
        assert(self.spec_messages() =~= old(self).spec_messages().push(m));
    }

    /// Appends a message from the user.
    pub fn add_user_message(&mut self, content: String)
        ensures
            final(self).spec_usage() == old(self).spec_usage(),
            final(self).spec_messages() == old(self).spec_messages().push(user_message(content@)),
    {
        let item = MessageItem {
            role: owned("user"),
            content,
            tool_calls: None,
            tool_call_id: None,
            created_at: now_millis(),
        };
        self.push_item(item);
    }

    /// Appends a reply of the assistant, with the tool calls it asks for.
    pub fn add_assistant_message(&mut self, content: String, tool_calls: Option<JsonValue>)
        ensures
            final(self).spec_usage() == old(self).spec_usage(),
            final(self).spec_messages() == old(self).spec_messages().push(
                assistant_message(content@, opt_json(tool_calls)),
            ),
    {
        let item = MessageItem {
            role: owned("assistant"),
            content,
            tool_calls,
            tool_call_id: None,
            created_at: now_millis(),
        };
        self.push_item(item);
    }

    /// Appends the result of a tool call.
    pub fn add_tool_result(&mut self, tool_call_id: String, content: String)
        ensures
            final(self).spec_usage() == old(self).spec_usage(),
            final(self).spec_messages() == old(self).spec_messages().push(tool_message(tool_call_id@, content@)),
    {
        let item = MessageItem {
            role: owned("tool"),
            content,
            tool_calls: None,
            tool_call_id: Some(tool_call_id),
            created_at: now_millis(),
        };
        self.push_item(item);
    }

    /// The messages as JSON objects, oldest first.
    pub fn get_messages(&self) -> (r: Vec<JsonValue>)
        ensures
            r@.len() == self.spec_messages().len(),
            forall|i: int| 0 <= i < r@.len() ==> #[trigger] r@[i]@ == message_json(self.spec_messages()[i]),
    {
        let mut out: Vec<JsonValue> = Vec::new();
        for i in 0..self.messages.len()
            invariant
                out@.len() == i,
                i <= self.messages@.len(),
                forall|k: int| 0 <= k < i ==> #[trigger] out@[k]@ == message_json(self.spec_messages()[k]),
        {
            let m = &self.messages[i];
            let v = message_to_json(m);
            out.push(v);
        }
        out
    }

    /// Forgets every message and resets the token usage.
    pub fn clear(&mut self)
        ensures
            final(self).spec_usage() == 0,
            final(self).spec_messages() == Seq::<MessageModel>::empty(),
    {
        self.messages.clear();
        self.total_usage = 0;
        assert(self.spec_messages() =~= Seq::<MessageModel>::empty());
    }

    /// The tokens used so far.
    pub fn usage(&self) -> (r: u64)
        ensures
            r == self.spec_usage(),
    {
        self.total_usage
    }

    /// Sets the count of tokens used so far (as a saved session records it).
    pub fn set_usage(&mut self, usage: u64)
        ensures
            final(self).spec_usage() == usage,
            final(self).spec_messages() == old(self).spec_messages(),
    {
        self.total_usage = usage;
    }

    /// The number of messages.
    pub fn message_count(&self) -> (r: usize)
        ensures
            r == self.spec_messages().len(),
    {
        self.messages.len()
    }
}

/// A message as a JSON object.
fn message_to_json(m: &MessageItem) -> (r: JsonValue)
    ensures
        r@ == message_json(message_model(*m)),
{
    let id = match &m.tool_call_id {
        Some(s) => JsonValue::Str(s.clone()),
        None => JsonValue::Null,
    };
    let tc = match &m.tool_calls {
        Some(j) => j.deep_clone(),
        None => JsonValue::Null,
    };
    let mut members: Vec<(String, JsonValue)> = Vec::new();
    members.push((owned("content"), JsonValue::Str(m.content.clone())));
    members.push((owned("role"), JsonValue::Str(m.role.clone())));
    members.push((owned("tool_call_id"), id));
    members.push((owned("tool_calls"), tc));
    let r = JsonValue::Object(members);
    proof {
        let ms = members@;
        let mm = message_model(*m);
        crate::json::lemma_json_members_len(ms);
        crate::json::lemma_json_members_index(ms, 0);
        crate::json::lemma_json_members_index(ms, 1);
        crate::json::lemma_json_members_index(ms, 2);
        crate::json::lemma_json_members_index(ms, 3);
        let expected = message_json(mm)->Object_0;
        assert(crate::json::json_members(ms) =~= expected);
    }
    r
}

/// The text of member `key` when it is a string, else empty.
pub open spec fn str_or_empty(j: Json, key: Seq<char>) -> Seq<char> {
    match json_get_str(j, key) {
        Some(s) => s,
        None => seq![],
    }
}

/// The message that restoring the JSON form `j` of a saved message appends:
/// user, assistant and tool messages come back; system messages and anything
/// else are skipped.
pub open spec fn restored_message(j: Json) -> Option<MessageModel> {
    let role = str_or_empty(j, "role"@);
    let content = str_or_empty(j, "content"@);
    if role == "user"@ {
        Some(user_message(content))
    } else if role == "assistant"@ {
        Some(assistant_message(content, json_get(j, "tool_calls"@)))
    } else if role == "tool"@ {
        Some(tool_message(str_or_empty(j, "tool_call_id"@), content))
    } else {
        None
    }
}

/// The messages after restoring the saved messages `js` after `base`.
pub open spec fn restore_all(base: Seq<MessageModel>, js: Seq<Json>) -> Seq<MessageModel>
    decreases js.len(),
{
    if js.len() == 0 {
        base
    } else {
        let prev = restore_all(base, js.drop_last());
        match restored_message(js.last()) {
            Some(m) => prev.push(m),
            None => prev,
        }
    }
}

impl ContextManager {
    /// Appends the message that a saved JSON message describes (see `restored_message`).
    pub fn restore_message(&mut self, msg: &JsonValue)
        ensures
            final(self).spec_usage() == old(self).spec_usage(),
            final(self).spec_messages() == match restored_message(msg@) {
                Some(m) => old(self).spec_messages().push(m),
                None => old(self).spec_messages(),
            },
    {
        let role = match get_str(msg, "role") {
            Some(r) => r,
            None => "",
        };
        let content = match get_str(msg, "content") {
            Some(c) => owned(c),
            None => owned(""),
        };
        proof {
            reveal_strlit("");
            assert(role@ == str_or_empty(msg@, "role"@));
            assert(content@ == str_or_empty(msg@, "content"@));
        }
        if str_eq(role, "user") {
            self.add_user_message(content);
            assert(restored_message(msg@) == Some(user_message(str_or_empty(msg@, "content"@))));
        } else if str_eq(role, "assistant") {
            let tc = match msg.get("tool_calls") {
                Some(v) => Some(v.deep_clone()),
                None => None,
            };
            let ghost tcv = opt_json(tc);
            assert(tcv == json_get(msg@, "tool_calls"@));
            self.add_assistant_message(content, tc);
        } else if str_eq(role, "tool") {
            let id = match get_str(msg, "tool_call_id") {
                Some(i) => owned(i),
                None => owned(""),
            };
            assert(id@ == str_or_empty(msg@, "tool_call_id"@));
            self.add_tool_result(id, content);
        } else {
            assert(restored_message(msg@) is None);
        }
    }

    /// Appends the messages that the saved JSON messages describe, in order.
    pub fn restore_messages(&mut self, msgs: &Vec<JsonValue>)
        ensures
            final(self).spec_usage() == old(self).spec_usage(),
            final(self).spec_messages() == restore_all(old(self).spec_messages(), msgs@.map_values(|v: JsonValue| v@)),
    {
        let ghost base = self.spec_messages();
        let ghost js = msgs@.map_values(|v: JsonValue| v@);
        for i in 0..msgs.len()
            invariant
                self.spec_usage() == old(self).spec_usage(),
                base == old(self).spec_messages(),
                js == msgs@.map_values(|v: JsonValue| v@),
                self.spec_messages() == restore_all(base, js.take(i as int)),
        {
            self.restore_message(&msgs[i]);
            assert(js.take(i + 1).drop_last() == js.take(i as int));
        }
        assert(js.take(msgs@.len() as int) == js);
    }
}

/// A message that the conversation functions can make: a user message, an
/// assistant reply, or a tool result with its call id.
pub open spec fn is_conversation_message(m: MessageModel) -> bool {
    ||| (m.role == "user"@ && m.tool_calls is None && m.tool_call_id is None)
    ||| (m.role == "assistant"@ && m.tool_call_id is None)
    ||| (m.role == "tool"@ && m.tool_calls is None && m.tool_call_id is Some)
}

proof fn lemma_message_keys(m: MessageModel)
    ensures
        json_get(message_json(m), "content"@) == Some(Json::Str(m.content)),
        json_get(message_json(m), "role"@) == Some(Json::Str(m.role)),
        json_get(message_json(m), "tool_call_id"@) == Some(match m.tool_call_id {
            Some(s) => Json::Str(s),
            None => Json::Null,
        }),
        json_get(message_json(m), "tool_calls"@) == Some(match m.tool_calls {
            Some(j) => j,
            None => Json::Null,
        }),
{
    reveal_strlit("content");
    reveal_strlit("role");
    reveal_strlit("tool_call_id");
    reveal_strlit("tool_calls");
    let ms = message_json(m)->Object_0;
    assert("content"@.len() == 7 && "role"@.len() == 4 && "tool_call_id"@.len() == 12 && "tool_calls"@.len() == 10);
    let m1 = ms.drop_first();
    let m2 = m1.drop_first();
    let m3 = m2.drop_first();
    assert(m1[0] == ms[1]);
    assert(m2[0] == ms[2]);
    assert(m3[0] == ms[3]);
    assert(member_lookup(ms, "role"@) == member_lookup(m1, "role"@));
    assert(member_lookup(ms, "tool_call_id"@) == member_lookup(m1, "tool_call_id"@));
    assert(member_lookup(m1, "tool_call_id"@) == member_lookup(m2, "tool_call_id"@));
    assert(member_lookup(ms, "tool_calls"@) == member_lookup(m1, "tool_calls"@));
    assert(member_lookup(m1, "tool_calls"@) == member_lookup(m2, "tool_calls"@));
    assert("tool_calls"@ != "tool_call_id"@);
    assert(member_lookup(m2, "tool_calls"@) == member_lookup(m3, "tool_calls"@));
}

/// Saving a message as JSON and restoring it gives back a message with the
/// same JSON form.
pub proof fn law_message_round_trip(m: MessageModel)
    requires
        is_conversation_message(m),
    ensures
        restored_message(message_json(m)) matches Some(r) && message_json(r) == message_json(m),
{
    lemma_message_keys(m);
    reveal_strlit("user");
    reveal_strlit("assistant");
    reveal_strlit("tool");
    assert("user"@.len() == 4 && "assistant"@.len() == 9 && "tool"@.len() == 4);
    assert("tool"@[0] != "user"@[0]);
    let j = message_json(m);
    assert(str_or_empty(j, "role"@) == m.role);
    assert(str_or_empty(j, "content"@) == m.content);
    if m.role == "user"@ {
        assert(restored_message(j) == Some(m));
    } else if m.role == "assistant"@ {
        let r = assistant_message(m.content, json_get(j, "tool_calls"@));
        assert(restored_message(j) == Some(r));
        assert(message_json(r)->Object_0 =~= message_json(m)->Object_0);
    } else {
        assert(str_or_empty(j, "tool_call_id"@) == m.tool_call_id->0);
        assert(restored_message(j) == Some(m));
    }
}

/// Restoring the JSON forms of conversation messages after `base` appends
/// messages with the same JSON forms: saving and restoring a conversation
/// keeps it.
pub proof fn law_conversation_round_trip(base: Seq<MessageModel>, ms: Seq<MessageModel>)
    requires
        forall|i: int| 0 <= i < ms.len() ==> is_conversation_message(#[trigger] ms[i]),
    ensures
        restore_all(base, ms.map_values(|m: MessageModel| message_json(m))).map_values(
            |m: MessageModel| message_json(m),
        ) == base.map_values(|m: MessageModel| message_json(m)) + ms.map_values(
            |m: MessageModel| message_json(m),
        ),
    decreases ms.len(),
{
    let js = ms.map_values(|m: MessageModel| message_json(m));
    if ms.len() == 0 {
        assert(js =~= Seq::<Json>::empty());
        assert(base.map_values(|m: MessageModel| message_json(m)) + js =~= base.map_values(
            |m: MessageModel| message_json(m),
        ));
    } else {
        let init = ms.drop_last();
        law_conversation_round_trip(base, init);
        assert(js.drop_last() =~= init.map_values(|m: MessageModel| message_json(m)));
        law_message_round_trip(ms.last());
        let prev = restore_all(base, js.drop_last());
        let r = restored_message(js.last())->0;
        assert(prev.push(r).map_values(|m: MessageModel| message_json(m)) =~= prev.map_values(
            |m: MessageModel| message_json(m),
        ).push(message_json(r)));
        assert(base.map_values(|m: MessageModel| message_json(m)) + js =~= (base.map_values(
            |m: MessageModel| message_json(m),
        ) + init.map_values(|m: MessageModel| message_json(m))).push(message_json(ms.last())));
    }
}

} // verus!
