//! The to-do tool: a task list for the current session.
use vstd::prelude::*;
use crate::approval::{lemma_lower_of_lower_letters, lower_text, to_lowercase};
use crate::memory_tool::replies_with;
use crate::strings::{chars_of, concat, decimal, join_seq, join_strings, opt_view, owned, push_decimal, push_str_chars, str_eq, string_of, string_views};
use crate::table::{StringTable, lookup, remove_entry, set_entry};
use crate::text::take_chars;
use crate::tool_base::ToolResult;

verus! {

/// A fresh random identifier from `uuid::Uuid::new_v4`, in its hyphenated text
/// form (36 characters). Which identifier comes out is left open: it is random.
#[verifier::external_body]
pub(crate) fn new_uuid() -> (r: String)
    ensures
        r@.len() == 36,
{
    uuid::Uuid::new_v4().to_string()
}

/// One task as the list shows it.
pub open spec fn todo_line(e: (Seq<char>, Seq<char>)) -> Seq<char> {
    "  ["@ + e.0 + "] "@ + e.1
}

/// The list of all tasks.
pub open spec fn todo_listing(es: Seq<(Seq<char>, Seq<char>)>) -> Seq<char> {
    join_seq(seq!["Todos:"@] + es.map_values(|e: (Seq<char>, Seq<char>)| todo_line(e)), "\n"@)
}

/// What a to-do action does to the tasks `es` and answers (success, text);
/// `act` is the lower-cased action and `new_id` the identifier a new task gets.
pub open spec fn todo_outcome(
    es: Seq<(Seq<char>, Seq<char>)>,
    act: Seq<char>,
    action: Seq<char>,
    id: Option<Seq<char>>,
    content: Option<Seq<char>>,
    new_id: Seq<char>,
) -> (Seq<(Seq<char>, Seq<char>)>, bool, Seq<char>) {
    if act == "add"@ {
        match content {
            Some(c) => (set_entry(es, new_id, c), true, "Added todo ["@ + new_id + "]: "@ + c),
            None => (es, false, "`content` required for 'add' action"@),
        }
    } else if act == "complete"@ {
        match id {
            Some(i) => match lookup(es, i) {
                Some(c) => (remove_entry(es, i), true, "Completed todo ["@ + i + "]: "@ + c),
                None => (es, false, "Todo not found: "@ + i),
            },
            None => (es, false, "`id` required for 'complete' action"@),
        }
    } else if act == "list"@ {
        if es.len() == 0 {
            (es, true, "No todos"@)
        } else {
            (es, true, todo_listing(es))
        }
    } else if act == "clear"@ {
        (seq![], true, "Cleared "@ + decimal(es.len()) + " todos"@)
    } else {
        (es, false, "Unknown action: "@ + action)
    }
}

fn listing(todos: &StringTable) -> (r: String)
    ensures
        r@ == todo_listing(todos.spec_entries()),
{
    let ghost es = todos.spec_entries();
    let mut lines: Vec<String> = Vec::new();
    lines.push(owned("Todos:"));
    let n = todos.len();
    for i in 0..n
        invariant
            n == es.len(),
            es == todos.spec_entries(),
            lines@.len() == i + 1,
            i <= es.len(),
            lines@[0]@ == "Todos:"@,
            forall|j: int| 0 <= j < i ==> #[trigger] lines@[j + 1]@ == todo_line(es[j]),
    {
        let (id, content) = todos.entry(i);
        let a = concat("  [", id.as_str());
        let b = concat(a.as_str(), "] ");
        lines.push(concat(b.as_str(), content.as_str()));
    }
    let ghost want = seq!["Todos:"@] + es.map_values(|e: (Seq<char>, Seq<char>)| todo_line(e));
    assert forall|k: int| 0 <= k < want.len() implies #[trigger] string_views(lines@)[k] == want[k] by {
        if k > 0 {
            assert(lines@[(k - 1) + 1]@ == todo_line(es[k - 1]));
        }
    }
    assert(string_views(lines@) =~= want);
    join_strings(&lines, "\n")
}

/// Runs a to-do action (`add`, `complete`, `list` or `clear`, in any case);
/// a task that is added gets the identifier `new_id`.
pub fn apply_todo_action(
    todos: &mut StringTable,
    action: &str,
    id: Option<String>,
    content: Option<String>,
    new_id: &str,
) -> (r: ToolResult)
    ensures
        ({
            let o = todo_outcome(old(todos).spec_entries(), lower_text(action@), action@, opt_view(id), opt_view(content), new_id@);
            &&& final(todos).spec_entries() == o.0
            &&& replies_with(r, o.1, o.2)
        }),
        crate::table::keys_unique(old(todos).spec_entries()),
{
    let _ = todos.len();
    let act = to_lowercase(action);
    let a = act.as_str();
    if str_eq(a, "add") {
        match content {
            Some(c) => {
                let x = concat("Added todo [", new_id);
                let y = concat(x.as_str(), "]: ");
                let msg = concat(y.as_str(), c.as_str());
                todos.set(owned(new_id), c);
                ToolResult::success_result(msg)
            },
            None => ToolResult::error_result(owned("`content` required for 'add' action")),
        }
    } else if str_eq(a, "complete") {
        match id {
            Some(i) => match todos.remove(i.as_str()) {
                Some(c) => {
                    let x = concat("Completed todo [", i.as_str());
                    let y = concat(x.as_str(), "]: ");
                    ToolResult::success_result(concat(y.as_str(), c.as_str()))
                },
                None => ToolResult::error_result(concat("Todo not found: ", i.as_str())),
            },
            None => ToolResult::error_result(owned("`id` required for 'complete' action")),
        }
    } else if str_eq(a, "list") {
        if todos.len() == 0 {
            ToolResult::success_result(owned("No todos"))
        } else {
            ToolResult::success_result(listing(todos))
        }
    } else if str_eq(a, "clear") {
        let n = todos.len();
        todos.clear();
        let mut m = chars_of("Cleared ");
        push_decimal(&mut m, n as u64);
        push_str_chars(&mut m, " todos");
        ToolResult::success_result(string_of(&m))
    } else {
        ToolResult::error_result(concat("Unknown action: ", action))
    }
}

/// Runs a to-do action; a task that is added gets the first eight characters
/// of a fresh random identifier.
pub fn todo_action(todos: &mut StringTable, action: &str, id: Option<String>, content: Option<String>) -> (r: ToolResult)
    ensures
        exists|new_id: Seq<char>| {
            let o = #[trigger] todo_outcome(old(todos).spec_entries(), lower_text(action@), action@, opt_view(id), opt_view(content), new_id);
            &&& new_id.len() == 8
            &&& final(todos).spec_entries() == o.0
            &&& replies_with(r, o.1, o.2)
        },
        crate::table::keys_unique(old(todos).spec_entries()),
{
    let full = new_uuid();
    let v = chars_of(full.as_str());
    let short = string_of(&take_chars(&v, 8));
    apply_todo_action(todos, action, id, content, short.as_str())
}

/// A task that is added with the action `add` can be completed with the
/// action `complete` under its identifier, which answers with its content and
/// removes it; completing it again finds no such task.
pub proof fn law_added_todo_completes(es: Seq<(Seq<char>, Seq<char>)>, content: Seq<char>, new_id: Seq<char>)
    requires
        crate::table::keys_unique(es),
    ensures
        ({
            let add = todo_outcome(es, lower_text("add"@), "add"@, None, Some(content), new_id);
            let done = todo_outcome(add.0, lower_text("complete"@), "complete"@, Some(new_id), None, new_id);
            let again = todo_outcome(done.0, lower_text("complete"@), "complete"@, Some(new_id), None, new_id);
            &&& add.1
            &&& add.2 == "Added todo ["@ + new_id + "]: "@ + content
            &&& done.1
            &&& done.2 == "Completed todo ["@ + new_id + "]: "@ + content
            &&& lookup(done.0, new_id) is None
            &&& !again.1
            &&& again.2 == "Todo not found: "@ + new_id
            &&& again.0 == done.0
        }),
{
    reveal_strlit("add");
    reveal_strlit("complete");
    lemma_lower_of_lower_letters("add"@);
    lemma_lower_of_lower_letters("complete"@);
    assert("add"@.len() != "complete"@.len());
    crate::table::law_set_then_lookup(es, new_id, content, new_id);
    let after_add = set_entry(es, new_id, content);
    crate::table::law_remove_then_lookup(after_add, new_id, new_id);
}

} // verus!
