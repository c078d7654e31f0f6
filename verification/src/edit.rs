//! The decisions of the file-editing tool: what a replacement produces, and
//! what it answers when the text to replace is missing or ambiguous.
use vstd::prelude::*;
use crate::search::{count_matches, count_occurrences, replace_all, replace_all_exec, replace_first, replace_first_exec};
use crate::strings::{chars_eq, chars_of, contains, contains_exec, decimal, join_seq, opt_view, push_all, push_decimal, push_str_chars, string_of};
use crate::text::{is_ws, lines_of, split_lines, trim_start, trim_start_chars, views, char_is_ws};
use crate::tool_base::{FileDiff, ToolConfirmation, ToolResult, is_error_with, is_success_with};

verus! {

/// The leading run of non-whitespace characters of `s`.
pub open spec fn word_prefix(s: Seq<char>) -> Seq<char>
    decreases s.len(),
{
    if s.len() == 0 || is_ws(s[0]) {
        seq![]
    } else {
        seq![s[0]] + word_prefix(s.drop_first())
    }
}

/// The first whitespace-separated word of `s` (empty when there is none).
pub open spec fn first_word(s: Seq<char>) -> Seq<char> {
    word_prefix(trim_start(s))
}

fn word_prefix_exec(v: &Vec<char>) -> (r: Vec<char>)
    ensures
        r@ == word_prefix(v@),
{
    let mut i: usize = 0;
    let mut out: Vec<char> = Vec::new();
    assert(v@.skip(0) == v@);
    while i < v.len() && !char_is_ws(v[i])
        invariant
            i <= v@.len(),
            out@ + word_prefix(v@.skip(i as int)) == word_prefix(v@),
        decreases v@.len() - i,
    {
        assert(v@.skip(i as int).drop_first() == v@.skip(i + 1));
        out.push(v[i]);
        i = i + 1;
        assert(out@ + word_prefix(v@.skip(i as int)) =~= word_prefix(v@));
    }
    assert(out@ + word_prefix(v@.skip(i as int)) =~= out@);
    out
}

/// `Line <n>: <line>`.
pub open spec fn line_hit(n: nat, line: Seq<char>) -> Seq<char> {
    "Line "@ + decimal(n) + ": "@ + line
}

/// The numbered lines of `ls` that contain `term`, in order.
pub open spec fn line_hits(ls: Seq<Seq<char>>, term: Seq<char>) -> Seq<Seq<char>>
    decreases ls.len(),
{
    if ls.len() == 0 {
        seq![]
    } else if contains(ls.last(), term) {
        line_hits(ls.drop_last(), term).push(line_hit(ls.len(), ls.last()))
    } else {
        line_hits(ls.drop_last(), term)
    }
}

/// The first `n` elements of `s`, or all of them when there are fewer.
pub open spec fn take_at_most(s: Seq<Seq<char>>, n: nat) -> Seq<Seq<char>> {
    if s.len() <= n {
        s
    } else {
        s.take(n as int)
    }
}

/// Up to three lines of `content` that contain the first word of `old_string`,
/// numbered from 1 (none when `old_string` has no word).
pub open spec fn similar_lines(old_string: Seq<char>, content: Seq<char>) -> Seq<Seq<char>> {
    let term = first_word(old_string);
    if term.len() == 0 {
        seq![]
    } else {
        take_at_most(line_hits(lines_of(content), term), 3)
    }
}

/// The message for an `old_string` that does not occur in the file.
pub open spec fn spec_no_match_message(old_string: Seq<char>, content: Seq<char>, path: Seq<char>) -> Seq<char> {
    let lines = similar_lines(old_string, content);
    if lines.len() == 0 {
        "old_string not found in "@ + path + ". Make sure old_string matches exactly."@
    } else {
        "old_string not found in "@ + path + ".\nPossible similar lines:\n"@ + join_seq(lines, "\n"@)
    }
}

/// The lines of `content` that contain the first word of `old_string`, at most three.
fn similar_lines_exec(old_string: &Vec<char>, content: &Vec<char>) -> (r: Vec<Vec<char>>)
    ensures
        views(r@) == similar_lines(old_string@, content@),
{
    let ts = trim_start_chars(old_string);
    let term = word_prefix_exec(&ts);
    let mut out: Vec<Vec<char>> = Vec::new();
    if term.len() == 0 {
        assert(views(out@) =~= Seq::<Seq<char>>::empty());
        return out;
    }
    let ls = split_lines(content);
    let ghost l = lines_of(content@);
    assert(l.take(0) == Seq::<Seq<char>>::empty());
    assert(views(out@) =~= Seq::<Seq<char>>::empty());
    for i in 0..ls.len()
        invariant
            views(ls@) == l,
            views(out@) == take_at_most(line_hits(l.take(i as int), term@), 3),
            out@.len() <= 3,
    {
        let ghost hi = line_hits(l.take(i as int), term@);
        proof {
            assert(l.take(i + 1).drop_last() == l.take(i as int));
            assert(ls@[i as int]@ == l[i as int]);
        }
        if contains_exec(&ls[i], &term) {
            if out.len() < 3 {
                let mut h: Vec<char> = Vec::new();
                push_str_chars(&mut h, "Line ");
                push_decimal(&mut h, (i + 1) as u64);
                push_str_chars(&mut h, ": ");
                push_all(&mut h, &ls[i]);
                proof {
                    reveal_strlit("Line ");
                    reveal_strlit(": ");
                    assert(h@ == line_hit((i + 1) as nat, l[i as int]));
                }
                let ghost prev = out@;
                out.push(h);
                proof {
                    assert(views(out@) =~= views(prev).push(line_hit((i + 1) as nat, l[i as int])));
                    assert(line_hits(l.take(i + 1), term@) == hi.push(line_hit((i + 1) as nat, l[i as int])));
                    assert(views(out@) =~= take_at_most(line_hits(l.take(i + 1), term@), 3));
                }
            } else {
                assert(line_hits(l.take(i + 1), term@) == hi.push(line_hit((i + 1) as nat, l[i as int])));
                assert(views(out@) =~= take_at_most(line_hits(l.take(i + 1), term@), 3));
            }
        } else {
            assert(line_hits(l.take(i + 1), term@) == line_hits(l.take(i as int), term@));
        }
    }
    assert(l.take(ls@.len() as int) == l);
    out
}

/// The error result for an `old_string` that does not occur in the file at `path`.
pub fn no_match_error(old_string: &str, content: &str, path: &str) -> (r: ToolResult)
    ensures
        is_error_with(r, spec_no_match_message(old_string@, content@, path@)),
{
    let os = chars_of(old_string);
    let cs = chars_of(content);
    let lines = similar_lines_exec(&os, &cs);
    let mut msg: Vec<char> = Vec::new();
    push_str_chars(&mut msg, "old_string not found in ");
    push_str_chars(&mut msg, path);
    if lines.len() == 0 {
        push_str_chars(&mut msg, ". Make sure old_string matches exactly.");
    } else {
        push_str_chars(&mut msg, ".\nPossible similar lines:\n");
        let ghost ls = views(lines@);
        let mut joined: Vec<char> = Vec::new();
        for i in 0..lines.len()
            invariant
                ls == views(lines@),
                joined@ == join_seq(ls.take(i as int), "\n"@),
        {
            if i > 0 {
                push_str_chars(&mut joined, "\n");
            }
            push_all(&mut joined, &lines[i]);
            proof {
                let t = ls.take(i + 1);
                assert(t.drop_last() == ls.take(i as int));
                if i == 0 {
                    assert(join_seq(t, "\n"@) == t[0]);
                }
            }
        }
        assert(ls.take(lines@.len() as int) == ls);
        push_all(&mut msg, &joined);
    }
    ToolResult::error_result(string_of(&msg))
}

/// What an edit comes to: the result to report and, when the edit goes
/// ahead, the content to write to the file.
pub struct EditOutcome {
    pub result: ToolResult,
    pub write: Option<String>,
}

/// The text that an edit gives the file: `new_string` for a file that does not
/// exist yet; otherwise the old content with all or the first occurrence replaced.
pub open spec fn spec_edited(exists: bool, old_content: Seq<char>, old_string: Seq<char>, new_string: Seq<char>, all: bool) -> Seq<char> {
    if !exists {
        new_string
    } else if all {
        replace_all(old_content, old_string, new_string)
    } else {
        replace_first(old_content, old_string, new_string)
    }
}

/// The diff records `path`, the two contents and the two flags.
pub open spec fn diff_is(d: Option<FileDiff>, path: Seq<char>, old: Seq<char>, new: Seq<char>, is_new: bool) -> bool {
    &&& d is Some
    &&& d->0.path@ == path
    &&& d->0.old_content@ == old
    &&& d->0.new_content@ == new
    &&& d->0.is_new_file == is_new
    &&& !d->0.is_deletion
}

/// What editing the file at `path` comes to. For a missing file only an empty
/// `old_string` is accepted and creates the file with `new_string`; for an
/// existing file `old_string` must be non-empty and occur, exactly once unless
/// `replace_all`, and the edit must change the content.
pub open spec fn edit_outcome_ok(
    o: EditOutcome,
    path: Seq<char>,
    exists: bool,
    old_content: Seq<char>,
    old_string: Seq<char>,
    new_string: Seq<char>,
    all: bool,
) -> bool {
    let n = count_matches(old_content, old_string);
    let edited = spec_edited(exists, old_content, old_string, new_string, all);
    if !exists {
        if old_string.len() > 0 {
            &&& o.write.is_none()
            &&& is_error_with(o.result, "File does not exist: "@ + path
                + ". To create a new file, use an empty old_string."@)
        } else {
            &&& opt_view(o.write) == Some(new_string)
            &&& o.result.success
            &&& o.result.output@ == "Created "@ + path + " "@ + decimal(lines_of(new_string).len()) + " lines"@
            &&& o.result.error.is_none()
            &&& diff_is(o.result.diff, path, seq![], new_string, true)
        }
    } else if old_string.len() == 0 {
        &&& o.write.is_none()
        &&& is_error_with(o.result,
            "old_string is empty but file exists. Provide old_string to edit, or use write_file to overwrite."@)
    } else if n == 0 {
        &&& o.write.is_none()
        &&& is_error_with(o.result, spec_no_match_message(old_string, old_content, path))
    } else if n > 1 && !all {
        &&& o.write.is_none()
        &&& is_error_with(o.result, "old_string found "@ + decimal(n) + " times in "@ + path
            + ". Provide more context or set replace_all=true."@)
    } else if edited == old_content {
        &&& o.write.is_none()
        &&& is_error_with(o.result, "No change made - old_string equals new_string"@)
    } else {
        &&& opt_view(o.write) == Some(edited)
        &&& o.result.success
        &&& o.result.output@ == "Edited "@ + path
        &&& o.result.error.is_none()
        &&& diff_is(o.result.diff, path, old_content, edited, false)
    }
}

/// Decides an edit of the file at `path` (shown as `path`); `old_content` is the
/// file's content when it exists.
pub fn plan_edit(
    path: &str,
    exists: bool,
    old_content: &str,
    old_string: &str,
    new_string: &str,
    replace_all: bool,
) -> (r: EditOutcome)
    ensures
        edit_outcome_ok(r, path@, exists, old_content@, old_string@, new_string@, replace_all),
{
    let os = chars_of(old_string);
    let ns = chars_of(new_string);
    if !exists {
        if os.len() > 0 {
            let mut m: Vec<char> = Vec::new();
            push_str_chars(&mut m, "File does not exist: ");
            push_str_chars(&mut m, path);
            push_str_chars(&mut m, ". To create a new file, use an empty old_string.");
            return EditOutcome { result: ToolResult::error_result(string_of(&m)), write: None };
        }
        let nl = split_lines(&ns);
        let mut m: Vec<char> = Vec::new();
        push_str_chars(&mut m, "Created ");
        push_str_chars(&mut m, path);
        push_str_chars(&mut m, " ");
        push_decimal(&mut m, nl.len() as u64);
        push_str_chars(&mut m, " lines");
        proof {
            assert(views(nl@).len() == nl@.len());
        }
        let mut result = ToolResult::success_result(string_of(&m));
        result.diff = Some(FileDiff {
            path: string_of(&chars_of(path)),
            old_content: String::new(),
            new_content: string_of(&ns),
            is_new_file: true,
            is_deletion: false,
        });
        return EditOutcome { result, write: Some(string_of(&ns)) };
    }
    if os.len() == 0 {
        let m = chars_of("old_string is empty but file exists. Provide old_string to edit, or use write_file to overwrite.");
        return EditOutcome { result: ToolResult::error_result(string_of(&m)), write: None };
    }
    let cs = chars_of(old_content);
    let n = count_occurrences(&cs, &os);
    if n == 0 {
        return EditOutcome { result: no_match_error(old_string, old_content, path), write: None };
    }
    if n > 1 && !replace_all {
        let mut m: Vec<char> = Vec::new();
        push_str_chars(&mut m, "old_string found ");
        push_decimal(&mut m, n as u64);
        push_str_chars(&mut m, " times in ");
        push_str_chars(&mut m, path);
        push_str_chars(&mut m, ". Provide more context or set replace_all=true.");
        return EditOutcome { result: ToolResult::error_result(string_of(&m)), write: None };
    }
    let edited = if replace_all {
        replace_all_exec(&cs, &os, &ns)
    } else {
        replace_first_exec(&cs, &os, &ns)
    };
    if chars_eq(&edited, &cs) {
        let m = chars_of("No change made - old_string equals new_string");
        return EditOutcome { result: ToolResult::error_result(string_of(&m)), write: None };
    }
    let mut m: Vec<char> = Vec::new();
    push_str_chars(&mut m, "Edited ");
    push_str_chars(&mut m, path);
    let mut result = ToolResult::success_result(string_of(&m));
    result.diff = Some(FileDiff {
        path: string_of(&chars_of(path)),
        old_content: string_of(&cs),
        new_content: string_of(&edited),
        is_new_file: false,
        is_deletion: false,
    });
    EditOutcome { result, write: Some(string_of(&edited)) }
}

/// The confirmation shown before an edit: the diff between the current content
/// (empty for a missing file) and the edited text.
pub fn edit_confirmation(
    path: &str,
    exists: bool,
    old_content: &str,
    old_string: &str,
    new_string: &str,
    replace_all: bool,
) -> (r: ToolConfirmation)
    ensures
        r.tool_name@ == "edit"@,
        r.description@ == "Edit file: "@ + path@,
        diff_is(r.diff, path@, old_content@, spec_edited(exists, old_content@, old_string@, new_string@, replace_all), !exists),
        r.affected_paths@.len() == 1 && r.affected_paths@[0]@ == path@,
        r.command.is_none(),
        !r.is_dangerous,
{
    let cs = chars_of(old_content);
    let os = chars_of(old_string);
    let ns = chars_of(new_string);
    let edited = if !exists {
        string_of(&ns)
    } else if replace_all {
        string_of(&replace_all_exec(&cs, &os, &ns))
    } else {
        string_of(&replace_first_exec(&cs, &os, &ns))
    };
    let mut paths: Vec<String> = Vec::new();
    paths.push(string_of(&chars_of(path)));
    let mut d: Vec<char> = Vec::new();
    push_str_chars(&mut d, "Edit file: ");
    push_str_chars(&mut d, path);
    ToolConfirmation {
        tool_name: string_of(&chars_of("edit")),
        description: string_of(&d),
        diff: Some(FileDiff {
            path: string_of(&chars_of(path)),
            old_content: string_of(&cs),
            new_content: edited,
            is_new_file: !exists,
            is_deletion: false,
        }),
        affected_paths: paths,
        command: None,
        is_dangerous: false,
    }
}

} // verus!
