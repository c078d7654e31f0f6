//! The memory tool: notes kept under keys across sessions.
use vstd::prelude::*;
use crate::approval::{lemma_lower_of_lower_letters, lower_text, to_lowercase};
use crate::sorting::{lex_order, sort_strings};
use crate::strings::{chars_of, concat, decimal, join_seq, join_strings, opt_view, owned, push_decimal, push_str_chars, str_eq, string_of, string_views};
use crate::table::{StringTable, key_index, lemma_key_index, lookup, remove_entry, set_entry};
use crate::tool_base::{ToolResult, is_error_with, is_success_with};

verus! {

broadcast use vstd::seq_lib::group_to_multiset_ensures;

/// The keys of a table's entries, in order.
pub open spec fn entry_keys(es: Seq<(Seq<char>, Seq<char>)>) -> Seq<Seq<char>> {
    es.map_values(|e: (Seq<char>, Seq<char>)| e.0)
}

/// One remembered note as the listing shows it.
pub open spec fn memory_line(es: Seq<(Seq<char>, Seq<char>)>, k: Seq<char>) -> Seq<char> {
    "  "@ + k + ": "@ + lookup(es, k)->0
}

/// The listing of all notes, ordered by key.
pub open spec fn memory_listing(es: Seq<(Seq<char>, Seq<char>)>) -> Seq<char> {
    join_seq(
        seq!["Stored memories:"@] + entry_keys(es).sort_by(lex_order()).map_values(
            |k: Seq<char>| memory_line(es, k),
        ),
        "\n"@,
    )
}

/// What a memory action does to the notes `es` and answers (success, text,
/// whether the notes must be saved). `act` is the lower-cased action.
pub open spec fn memory_outcome(
    es: Seq<(Seq<char>, Seq<char>)>,
    act: Seq<char>,
    action: Seq<char>,
    key: Option<Seq<char>>,
    value: Option<Seq<char>>,
) -> (Seq<(Seq<char>, Seq<char>)>, bool, Seq<char>, bool) {
    if act == "set"@ {
        match (key, value) {
            (Some(k), Some(v)) => (set_entry(es, k, v), true, "Set memory: "@ + k, true),
            _ => (es, false, "`key` and `value` are required for 'set' action"@, false),
        }
    } else if act == "get"@ {
        match key {
            Some(k) => match lookup(es, k) {
                Some(v) => (es, true, "Memory found: "@ + k + ": "@ + v, false),
                None => (es, true, "Memory not found: "@ + k, false),
            },
            None => (es, false, "`key` required for 'get' action"@, false),
        }
    } else if act == "delete"@ {
        match key {
            Some(k) => (remove_entry(es, k), true, "Deleted memory: "@ + k, true),
            None => (es, false, "`key` required for 'delete' action"@, false),
        }
    } else if act == "list"@ {
        if es.len() == 0 {
            (es, true, "No memories stored"@, false)
        } else {
            (es, true, memory_listing(es), false)
        }
    } else if act == "clear"@ {
        (seq![], true, "Cleared "@ + decimal(es.len()) + " memory entries"@, true)
    } else {
        (es, false, "Unknown action: "@ + action, false)
    }
}

/// The answer is a success or an error with that text.
pub open spec fn replies_with(r: ToolResult, success: bool, text: Seq<char>) -> bool {
    if success {
        is_success_with(r, text)
    } else {
        is_error_with(r, text)
    }
}

fn listing(store: &StringTable) -> (r: String)
    requires
        store.spec_entries().len() > 0,
    ensures
        r@ == memory_listing(store.spec_entries()),
{
    let ghost es = store.spec_entries();
    let keys = store.keys();
    assert(string_views(keys@) =~= entry_keys(es));
    let sorted = sort_strings(&keys);
    let ghost sk = entry_keys(es).sort_by(lex_order());
    proof {
        crate::sorting::lemma_lex_total_ordering();
        entry_keys(es).lemma_sort_by_ensures(lex_order());
    }
    let mut lines: Vec<String> = Vec::new();
    lines.push(owned("Stored memories:"));
    for i in 0..sorted.len()
        invariant
            es == store.spec_entries(),
            string_views(sorted@) == sk,
            sk.to_multiset() == entry_keys(es).to_multiset(),
            lines@.len() == i + 1,
            lines@[0]@ == "Stored memories:"@,
            forall|j: int| 0 <= j < i ==> #[trigger] lines@[j + 1]@ == memory_line(es, sk[j]),
    {
        let k = &sorted[i];
        proof {
            assert(sk[i as int] == k@);
            assert(sk.contains(k@));
            assert(entry_keys(es).to_multiset().count(k@) > 0);
            assert(entry_keys(es).contains(k@));
            let j = choose|j: int| 0 <= j < entry_keys(es).len() && entry_keys(es)[j] == k@;
            lemma_key_index(es, k@);
            assert(es[j].0 == k@);
        }
        let v = match store.get(k.as_str()) {
            Some(v) => v,
            None => {
                assert(false);
                String::new()
            },
        };
        let a = concat("  ", k.as_str());
        let b = concat(a.as_str(), ": ");
        let line = concat(b.as_str(), v.as_str());
        lines.push(line);
    }
    let ghost want = seq!["Stored memories:"@] + sk.map_values(|k: Seq<char>| memory_line(es, k));
    assert(sk.len() == sorted@.len());
    assert forall|k: int| 0 <= k < want.len() implies #[trigger] string_views(lines@)[k] == want[k] by {
        if k > 0 {
            assert(lines@[(k - 1) + 1]@ == memory_line(es, sk[k - 1]));
        }
    }
    assert(string_views(lines@) =~= want);
    join_strings(&lines, "\n")
}

/// Runs a memory action (`set`, `get`, `delete`, `list` or `clear`, in any
/// case) on the notes; answers with the tool result and whether the notes
/// changed and must be saved.
pub fn memory_action(store: &mut StringTable, action: &str, key: Option<String>, value: Option<String>) -> (r: (ToolResult, bool))
    ensures
        ({
            let o = memory_outcome(old(store).spec_entries(), lower_text(action@), action@, opt_view(key), opt_view(value));
            &&& final(store).spec_entries() == o.0
            &&& replies_with(r.0, o.1, o.2)
            &&& r.1 == o.3
        }),
        crate::table::keys_unique(old(store).spec_entries()),
{
    let _ = store.len();
    let act = to_lowercase(action);
    let a = act.as_str();
    if str_eq(a, "set") {
        match (key, value) {
            (Some(k), Some(v)) => {
                let msg = concat("Set memory: ", k.as_str());
                store.set(k, v);
                (ToolResult::success_result(msg), true)
            },
            _ => (ToolResult::error_result(owned("`key` and `value` are required for 'set' action")), false),
        }
    } else if str_eq(a, "get") {
        match key {
            Some(k) => match store.get(k.as_str()) {
                Some(v) => {
                    let x = concat("Memory found: ", k.as_str());
                    let y = concat(x.as_str(), ": ");
                    (ToolResult::success_result(concat(y.as_str(), v.as_str())), false)
                },
                None => (ToolResult::success_result(concat("Memory not found: ", k.as_str())), false),
            },
            None => (ToolResult::error_result(owned("`key` required for 'get' action")), false),
        }
    } else if str_eq(a, "delete") {
        match key {
            Some(k) => {
                let _ = store.remove(k.as_str());
                (ToolResult::success_result(concat("Deleted memory: ", k.as_str())), true)
            },
            None => (ToolResult::error_result(owned("`key` required for 'delete' action")), false),
        }
    } else if str_eq(a, "list") {
        if store.len() == 0 {
            (ToolResult::success_result(owned("No memories stored")), false)
        } else {
            (ToolResult::success_result(listing(store)), false)
        }
    } else if str_eq(a, "clear") {
        let n = store.len();
        store.clear();
        let mut m = chars_of("Cleared ");
        push_decimal(&mut m, n as u64);
        push_str_chars(&mut m, " memory entries");
        (ToolResult::success_result(string_of(&m)), true)
    } else {
        (ToolResult::error_result(concat("Unknown action: ", action)), false)
    }
}

/// What is set can be read back: after the action `set` with `k` and `v`,
/// the action `get` with `k` finds `v`; after `delete` with `k`, `get` finds
/// nothing.
pub proof fn law_memory_read_after_write(es: Seq<(Seq<char>, Seq<char>)>, k: Seq<char>, v: Seq<char>)
    requires
        crate::table::keys_unique(es),
    ensures
        ({
            let set = memory_outcome(es, lower_text("set"@), "set"@, Some(k), Some(v));
            let get = memory_outcome(set.0, lower_text("get"@), "get"@, Some(k), None);
            &&& set == (set_entry(es, k, v), true, "Set memory: "@ + k, true)
            &&& get == (set.0, true, "Memory found: "@ + k + ": "@ + v, false)
        }),
        ({
            let delete = memory_outcome(es, lower_text("delete"@), "delete"@, Some(k), None);
            let get = memory_outcome(delete.0, lower_text("get"@), "get"@, Some(k), None);
            &&& delete == (remove_entry(es, k), true, "Deleted memory: "@ + k, true)
            &&& get == (delete.0, true, "Memory not found: "@ + k, false)
        }),
{
    reveal_strlit("set");
    reveal_strlit("get");
    reveal_strlit("delete");
    lemma_lower_of_lower_letters("set"@);
    lemma_lower_of_lower_letters("get"@);
    lemma_lower_of_lower_letters("delete"@);
    assert("get"@[0] != "set"@[0]);
    assert("delete"@.len() != "get"@.len());
    assert("delete"@.len() != "set"@.len());
    crate::table::law_set_then_lookup(es, k, v, k);
    crate::table::law_remove_then_lookup(es, k, k);
}

/// The file that holds the notes: `user_memory.json` in the agent's data directory.
pub fn memory_file_path() -> (r: String)
    ensures
        exists|b: Option<Seq<char>>| r@ == crate::paths::join_path(crate::paths::agent_dir_under(b), "user_memory.json"@),
{
    let d = crate::paths::get_data_dir();
    crate::paths::join(d.as_str(), "user_memory.json")
}

} // verus!
