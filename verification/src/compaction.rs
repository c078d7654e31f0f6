//! Squeezing a conversation into a bounded summary text.
use vstd::prelude::*;
use crate::json::{Json, JsonValue, get_str, json_get_str};
use crate::strings::{chars_of, join_seq, push_all, push_str_chars, str_eq, string_of};
use crate::text::{count_tokens, spec_truncate_text, truncate_text, word_count};

verus! {

/// The role of a message object (`unknown` when it has none as text).
pub open spec fn message_role(m: Json) -> Seq<char> {
    match json_get_str(m, "role"@) {
        Some(r) => r,
        None => "unknown"@,
    }
}

/// The content of a message object (empty when it has none as text).
pub open spec fn message_content(m: Json) -> Seq<char> {
    match json_get_str(m, "content"@) {
        Some(c) => c,
        None => seq![],
    }
}

/// The word budget for one tool output: an eighth of the target, at least 100.
pub open spec fn tool_budget(target: nat) -> nat {
    if target / 8 >= 100 {
        target / 8
    } else {
        100
    }
}

/// One message as a block of the summary: its role, a colon and a line break,
/// then its content; tool outputs are truncated to the tool budget.
pub open spec fn message_block(m: Json, target: nat) -> Seq<char> {
    let role = message_role(m);
    let content = message_content(m);
    let body = if role == "tool"@ {
        spec_truncate_text(content, tool_budget(target), "\n...[tool output truncated]"@)
    } else {
        content
    };
    role + ":\n"@ + body
}

/// The blocks of the messages, in order.
pub open spec fn message_blocks(ms: Seq<Json>, target: nat) -> Seq<Seq<char>> {
    ms.map_values(|m: Json| message_block(m, target))
}

/// The summary of a conversation: its blocks separated by blank lines, the
/// whole truncated when it has more than `target` words.
pub open spec fn spec_compact(ms: Seq<Json>, target: nat) -> Seq<char> {
    let out = join_seq(message_blocks(ms, target), "\n\n"@);
    if word_count(out) > target {
        spec_truncate_text(out, target, "\n...[conversation summary truncated]"@)
    } else {
        out
    }
}

/// Summarises conversations for a model's context window.
pub struct ChatCompactor;

impl ChatCompactor {
    /// A compactor.
    pub fn new() -> (r: Self) {
        ChatCompactor
    }

    /// The summary of `messages` (see `spec_compact`).
    pub fn compact(&self, messages: &Vec<JsonValue>, target_tokens: usize) -> (r: String)
        ensures
            r@ == spec_compact(messages@.map_values(|m: JsonValue| m@), target_tokens as nat),
    {
        let ghost ms = messages@.map_values(|m: JsonValue| m@);
        let ghost blocks = message_blocks(ms, target_tokens as nat);
        let budget = if target_tokens / 8 >= 100 {
            target_tokens / 8
        } else {
            100
        };
        let mut out: Vec<char> = Vec::new();
        for i in 0..messages.len()
            invariant
                ms == messages@.map_values(|m: JsonValue| m@),
                blocks == message_blocks(ms, target_tokens as nat),
                budget == tool_budget(target_tokens as nat),
                out@ == join_seq(blocks.take(i as int), "\n\n"@),
        {
            let m = &messages[i];
            let role = match get_str(m, "role") {
                Some(r) => r,
                None => "unknown",
            };
            let content = match get_str(m, "content") {
                Some(c) => c,
                None => "",
            };
            proof {
                reveal_strlit("");
                assert(ms[i as int] == m@);
                assert(role@ == message_role(m@));
                assert(content@ == message_content(m@));
            }
            let mut block: Vec<char> = Vec::new();
            push_str_chars(&mut block, role);
            push_str_chars(&mut block, ":\n");
            if str_eq(role, "tool") {
                let t = truncate_text(content, budget, "\n...[tool output truncated]", "gpt-4");
                push_str_chars(&mut block, t.as_str());
            } else {
                push_str_chars(&mut block, content);
            }
            assert(block@ == blocks[i as int]);
            if i > 0 {
                push_str_chars(&mut out, "\n\n");
            }
            push_all(&mut out, &block);
            proof {
                let t = blocks.take(i + 1);
                assert(t.drop_last() == blocks.take(i as int));
                if i == 0 {
                    assert(join_seq(t, "\n\n"@) == t[0]);
                }
            }
        }
        assert(blocks.take(messages@.len() as int) == blocks);
        let joined = string_of(&out);
        if count_tokens(joined.as_str(), "gpt-4") > target_tokens {
            truncate_text(joined.as_str(), target_tokens, "\n...[conversation summary truncated]", "gpt-4")
        } else {
            joined
        }
    }
}

/// A message as the summary shows it when nothing of it is cut: its role, a
/// colon and a line break, then its content.
pub open spec fn uncut_block(m: Json) -> Seq<char> {
    message_role(m) + ":\n"@ + message_content(m)
}

/// Only tool outputs are cut: a conversation whose tool outputs fit the tool
/// budget, and whose uncut summary fits the target, is summarised verbatim,
/// each message as its role and its whole content; messages that are no tool
/// output keep their content however long it is.
pub proof fn law_compact_cuts_only_tool_outputs(ms: Seq<Json>, target: nat)
    requires
        forall|i: int|
            0 <= i < ms.len() && message_role(#[trigger] ms[i]) == "tool"@ ==> word_count(message_content(ms[i]))
                <= tool_budget(target),
        word_count(join_seq(ms.map_values(|m: Json| uncut_block(m)), "\n\n"@)) <= target,
    ensures
        spec_compact(ms, target) == join_seq(ms.map_values(|m: Json| uncut_block(m)), "\n\n"@),
{
    assert forall|i: int| 0 <= i < ms.len() implies message_block(ms[i], target) == uncut_block(ms[i]) by {
        if message_role(ms[i]) == "tool"@ {
            assert(word_count(message_content(ms[i])) <= tool_budget(target));
        }
    }
    assert(message_blocks(ms, target) =~= ms.map_values(|m: Json| uncut_block(m)));
}

} // verus!
