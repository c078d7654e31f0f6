//! What the file tools report: numbered file contents, directory listings and
//! the results of writing a file.
use vstd::prelude::*;
use crate::edit::diff_is;
use crate::sorting::{lex_order, sort_strings};
use crate::strings::{chars_of, decimal, join_seq, join_strings, push_all, push_decimal, push_str_chars, string_of, string_views};
use crate::text::{lines_of, split_lines, views};
use crate::paths::{relative_or_full, strip_path_prefix, strip_prefix_text};
use crate::strings::concat;
use crate::tool_base::{FileDiff, ToolConfirmation, ToolResult, is_error_with, is_success_with};

verus! {

/// `k` spaces.
pub open spec fn spaces(k: nat) -> Seq<char> {
    Seq::new(k, |i: int| ' ')
}

/// `n` right-aligned in a field of six characters (`{:6}`).
pub open spec fn pad6(n: nat) -> Seq<char> {
    let d = decimal(n);
    if d.len() >= 6 {
        d
    } else {
        spaces((6 - d.len()) as nat) + d
    }
}

/// Line `line` shown with its number `n`.
pub open spec fn numbered_line(n: nat, line: Seq<char>) -> Seq<char> {
    pad6(n) + "|"@ + line
}

/// Lines `start..end` of `ls`, each with its number (counted from 1).
pub open spec fn numbered_lines(ls: Seq<Seq<char>>, start: int, end: int) -> Seq<Seq<char>> {
    Seq::new((end - start) as nat, |k: int| numbered_line((start + k + 1) as nat, ls[start + k]))
}

/// The first line shown: `offset` counts from 1, and 0 also means the first line.
pub open spec fn first_shown(offset: nat) -> nat {
    if offset > 0 {
        (offset - 1) as nat
    } else {
        0
    }
}

/// One past the last line shown: `limit` lines from the first, or to the end.
pub open spec fn end_shown(n_lines: nat, start: nat, limit: Option<usize>) -> nat {
    match limit {
        Some(v) => if start + v < n_lines {
            (start + v) as nat
        } else {
            n_lines
        },
        None => n_lines,
    }
}

/// The text the file-reading tool shows for `content`.
pub open spec fn spec_read_output(content: Seq<char>, offset: nat, limit: Option<usize>) -> Seq<char> {
    let ls = lines_of(content);
    let start = first_shown(offset);
    let end = end_shown(ls.len(), start, limit);
    if end <= start {
        "File is empty."@
    } else {
        join_seq(numbered_lines(ls, start as int, end as int), "\n"@)
    }
}

fn push_pad6(out: &mut Vec<char>, n: u64)
    ensures
        final(out)@ == old(out)@ + pad6(n as nat),
{
    let mut d: Vec<char> = Vec::new();
    push_decimal(&mut d, n);
    if d.len() < 6 {
        let k = 6 - d.len();
        let ghost start = out@;
        for j in 0..k
            invariant
                out@ == start + spaces(j as nat),
        {
            out.push(' ');
            assert(spaces((j + 1) as nat) =~= spaces(j as nat).push(' '));
        }
    }
    push_all(out, &d);
    assert(final(out)@ =~= old(out)@ + pad6(n as nat));
}

/// The lines `offset..offset + limit` of `content` (counted from 1), each
/// shown with its number; `File is empty.` when no line is shown.
pub fn format_file_lines(content: &str, offset: usize, limit: Option<usize>) -> (r: ToolResult)
    requires
        first_shown(offset as nat) <= lines_of(content@).len(),
        limit matches Some(v) ==> first_shown(offset as nat) + v <= usize::MAX,
    ensures
        is_success_with(r, spec_read_output(content@, offset as nat, limit)),
{
    let cs = chars_of(content);
    let ls = split_lines(&cs);
    let ghost l = lines_of(content@);
    let start = if offset > 0 {
        offset - 1
    } else {
        0
    };
    let end = match limit {
        Some(v) => if start + v < ls.len() {
            start + v
        } else {
            ls.len()
        },
        None => ls.len(),
    };
    assert(views(ls@).len() == ls@.len());
    if end <= start {
        return ToolResult::success_result(string_of(&chars_of("File is empty.")));
    }
    let ghost shown = numbered_lines(l, start as int, end as int);
    let mut out: Vec<char> = Vec::new();
    for i in start..end
        invariant
            views(ls@) == l,
            start < end <= l.len(),
            shown == numbered_lines(l, start as int, end as int),
            out@ == join_seq(shown.take(i - start), "\n"@),
    {
        if i > start {
            out.push('\n');
        }
        push_pad6(&mut out, (i + 1) as u64);
        out.push('|');
        assert(ls@[i as int]@ == l[i as int]);
        push_all(&mut out, &ls[i]);
        proof {
            reveal_strlit("\n");
            reveal_strlit("|");
            let t = shown.take(i + 1 - start);
            assert(t.drop_last() == shown.take(i - start));
            assert(t.last() == numbered_line((i + 1) as nat, l[i as int]));
            if i == start {
                assert(join_seq(t, "\n"@) == t[0]);
            }
            assert(out@ =~= join_seq(t, "\n"@));
        }
    }
    assert(shown.take(end - start) == shown);
    ToolResult::success_result(string_of(&out))
}

/// Offsets count lines from 1: read from offset `k` (a line of the file)
/// with no limit, the tool shows line `k` first, numbered `k`, and every line
/// after it, each with its own number; offset 0 shows the same as offset 1,
/// the whole file.
pub proof fn law_read_starts_at_offset_line(content: Seq<char>, k: nat)
    requires
        1 <= k <= lines_of(content).len(),
    ensures
        spec_read_output(content, k, None) == join_seq(
            Seq::new(
                (lines_of(content).len() - k + 1) as nat,
                |j: int| numbered_line((k + j) as nat, lines_of(content)[k - 1 + j]),
            ),
            "\n"@,
        ),
        spec_read_output(content, 0, None) == spec_read_output(content, 1, None),
{
    let ls = lines_of(content);
    assert(numbered_lines(ls, k - 1, ls.len() as int) =~= Seq::new(
        (ls.len() - k + 1) as nat,
        |j: int| numbered_line((k + j) as nat, ls[k - 1 + j]),
    ));
}

/// The entries of a directory listing: hidden names (starting with `.`) only
/// when asked for, directories marked with a trailing `/`.
pub open spec fn listed_items(entries: Seq<(Seq<char>, bool)>, include_hidden: bool) -> Seq<Seq<char>>
    decreases entries.len(),
{
    if entries.len() == 0 {
        seq![]
    } else {
        let prev = listed_items(entries.drop_last(), include_hidden);
        let (name, is_dir) = entries.last();
        if !include_hidden && name.len() > 0 && name[0] == '.' {
            prev
        } else if is_dir {
            prev.push(name + seq!['/'])
        } else {
            prev.push(name)
        }
    }
}

/// The text of a directory listing: the entries sorted, one per line, or
/// `Directory is empty`.
pub open spec fn spec_listing(entries: Seq<(Seq<char>, bool)>, include_hidden: bool) -> Seq<char> {
    let items = listed_items(entries, include_hidden);
    if items.len() == 0 {
        "Directory is empty"@
    } else {
        join_seq(items.sort_by(lex_order()), "\n"@)
    }
}

/// The names and directory flags of directory entries.
pub open spec fn entry_views(entries: Seq<(String, bool)>) -> Seq<(Seq<char>, bool)> {
    entries.map_values(|e: (String, bool)| (e.0@, e.1))
}

/// The listing of a directory whose entries are `(name, is_directory)`.
pub fn format_listing(entries: &Vec<(String, bool)>, include_hidden: bool) -> (r: ToolResult)
    ensures
        is_success_with(r, spec_listing(entry_views(entries@), include_hidden)),
{
    let ghost ev = entry_views(entries@);
    let mut items: Vec<String> = Vec::new();
    for i in 0..entries.len()
        invariant
            ev == entry_views(entries@),
            string_views(items@) == listed_items(ev.take(i as int), include_hidden),
    {
        let name = chars_of(entries[i].0.as_str());
        let is_dir = entries[i].1;
        proof {
            assert(ev.take(i + 1).drop_last() == ev.take(i as int));
            assert(ev.take(i + 1).last() == (name@, is_dir));
        }
        let ghost prev0 = listed_items(ev.take(i as int), include_hidden);
        if !include_hidden && name.len() > 0 && name[0] == '.' {
            assert(listed_items(ev.take(i + 1), include_hidden) == prev0);
        } else if is_dir {
            let mut n = name;
            n.push('/');
            assert(n@ =~= name@ + seq!['/']);
            let ghost prev = string_views(items@);
            items.push(string_of(&n));
            assert(string_views(items@) =~= prev.push(n@));
            assert(listed_items(ev.take(i + 1), include_hidden) == prev0.push(name@ + seq!['/']));
        } else {
            let ghost prev = string_views(items@);
            items.push(string_of(&name));
            assert(string_views(items@) =~= prev.push(name@));
        }
    }
    assert(ev.take(entries@.len() as int) == ev);
    if items.len() == 0 {
        return ToolResult::success_result(string_of(&chars_of("Directory is empty")));
    }
    let sorted = sort_strings(&items);
    ToolResult::success_result(join_strings(&sorted, "\n"))
}

/// `Created` for a new file, `Updated` for an existing one.
pub open spec fn write_verb(is_new: bool) -> Seq<char> {
    if is_new {
        "Created"@
    } else {
        "Updated"@
    }
}

/// The result of writing `content` to the file at `path`.
pub fn write_file_result(path: &str, is_new_file: bool, old_content: &str, content: &str) -> (r: ToolResult)
    ensures
        r.success,
        r.output@ == write_verb(is_new_file) + " "@ + path@ + " "@ + decimal(lines_of(content@).len()) + " lines"@,
        r.error.is_none(),
        diff_is(r.diff, path@, old_content@, content@, is_new_file),
{
    let cs = chars_of(content);
    let ls = split_lines(&cs);
    assert(views(ls@).len() == ls@.len());
    let mut m: Vec<char> = Vec::new();
    if is_new_file {
        push_str_chars(&mut m, "Created");
    } else {
        push_str_chars(&mut m, "Updated");
    }
    push_str_chars(&mut m, " ");
    push_str_chars(&mut m, path);
    push_str_chars(&mut m, " ");
    push_decimal(&mut m, ls.len() as u64);
    push_str_chars(&mut m, " lines");
    let mut result = ToolResult::success_result(string_of(&m));
    result.diff = Some(FileDiff {
        path: string_of(&chars_of(path)),
        old_content: string_of(&chars_of(old_content)),
        new_content: string_of(&cs),
        is_new_file,
        is_deletion: false,
    });
    result
}

/// The confirmation shown before writing a file; overwriting an existing file
/// counts as dangerous.
pub fn write_file_confirmation(path: &str, is_new_file: bool, old_content: &str, content: &str) -> (r: ToolConfirmation)
    ensures
        r.tool_name@ == "write_file"@,
        r.description@ == (if is_new_file {
            "Created file: "@
        } else {
            "Updated file: "@
        }) + path@,
        diff_is(r.diff, path@, old_content@, content@, is_new_file),
        r.affected_paths@.len() == 1 && r.affected_paths@[0]@ == path@,
        r.command.is_none(),
        r.is_dangerous == !is_new_file,
{
    let mut d: Vec<char> = Vec::new();
    if is_new_file {
        push_str_chars(&mut d, "Created file: ");
    } else {
        push_str_chars(&mut d, "Updated file: ");
    }
    push_str_chars(&mut d, path);
    let mut paths: Vec<String> = Vec::new();
    paths.push(string_of(&chars_of(path)));
    ToolConfirmation {
        tool_name: string_of(&chars_of("write_file")),
        description: string_of(&d),
        diff: Some(FileDiff {
            path: string_of(&chars_of(path)),
            old_content: string_of(&chars_of(old_content)),
            new_content: string_of(&chars_of(content)),
            is_new_file,
            is_deletion: false,
        }),
        affected_paths: paths,
        command: None,
        is_dangerous: !is_new_file,
    }
}

/// The result for a path that is not an existing file.
pub fn file_not_found(path: &str) -> (r: ToolResult)
    ensures
        is_error_with(r, "File not found: "@ + path@),
{
    ToolResult::error_result(concat("File not found: ", path))
}

/// The result for a file that looks binary.
pub fn binary_file(path: &str) -> (r: ToolResult)
    ensures
        is_error_with(r, "Cannot read binary file: "@ + path@),
{
    ToolResult::error_result(concat("Cannot read binary file: ", path))
}

/// The result for a path that is not an existing directory.
pub fn missing_directory(path: &str) -> (r: ToolResult)
    ensures
        is_error_with(r, "Directory does not exist: "@ + path@),
{
    ToolResult::error_result(concat("Directory does not exist: ", path))
}

/// The most matches the glob tool reports.
pub const GLOB_LIMIT: usize = 1000;

/// A matched path as the glob tool shows it: relative to `cwd` when it lies
/// under it, else as it is.
pub open spec fn shown_path(path: Seq<char>, cwd: Seq<char>) -> Seq<char> {
    match strip_prefix_text(path, cwd) {
        Some(r) => r,
        None => path,
    }
}

/// The lines of the glob tool for the matches `(path, is_file)`, in order: the
/// files only, and no more than `GLOB_LIMIT` of them.
pub open spec fn glob_lines(items: Seq<(Seq<char>, bool)>, cwd: Seq<char>) -> Seq<Seq<char>>
    decreases items.len(),
{
    if items.len() == 0 {
        seq![]
    } else {
        let prev = glob_lines(items.drop_last(), cwd);
        if prev.len() >= GLOB_LIMIT {
            prev
        } else if items.last().1 {
            prev.push(shown_path(items.last().0, cwd))
        } else {
            prev
        }
    }
}

proof fn lemma_glob_lines_capped(items: Seq<(Seq<char>, bool)>, cwd: Seq<char>)
    ensures
        glob_lines(items, cwd).len() <= GLOB_LIMIT,
    decreases items.len(),
{
    if items.len() > 0 {
        lemma_glob_lines_capped(items.drop_last(), cwd);
    }
}

proof fn lemma_glob_lines_full(items: Seq<(Seq<char>, bool)>, cwd: Seq<char>, j: int)
    requires
        0 <= j <= items.len(),
        glob_lines(items.take(j), cwd).len() >= GLOB_LIMIT,
    ensures
        glob_lines(items, cwd) == glob_lines(items.take(j), cwd),
    decreases items.len() - j,
{
    if j < items.len() {
        assert(items.take(j + 1).drop_last() =~= items.take(j));
        lemma_glob_lines_full(items, cwd, j + 1);
    } else {
        assert(items.take(j) =~= items);
    }
}

/// The result of the glob tool for the matches `(path, is_file)` of its
/// pattern, in the order they were found.
pub fn glob_report(items: &Vec<(String, bool)>, cwd: &str) -> (r: ToolResult)
    ensures
        is_success_with(r, join_seq(glob_lines(entry_views(items@), cwd@), "\n"@)),
{
    let ghost ev = entry_views(items@);
    let mut out: Vec<String> = Vec::new();
    let mut i: usize = 0;
    while i < items.len()
        invariant
            ev == entry_views(items@),
            i <= items@.len(),
            out@.len() < GLOB_LIMIT,
            string_views(out@) == glob_lines(ev.take(i as int), cwd@),
        decreases items@.len() - i,
    {
        proof {
            assert(ev.take(i + 1).drop_last() =~= ev.take(i as int));
            assert(ev.take(i + 1).last() == (items@[i as int].0@, items@[i as int].1));
            lemma_glob_lines_capped(ev.take(i as int), cwd@);
        }
        if items[i].1 {
            let rel = strip_path_prefix(items[i].0.as_str(), cwd);
            let shown = relative_or_full(items[i].0.as_str(), rel);
            let ghost prev = string_views(out@);
            out.push(shown);
            assert(string_views(out@) =~= prev.push(shown@));
        }
        assert(string_views(out@) == glob_lines(ev.take(i + 1), cwd@));
        i = i + 1;
        if out.len() >= GLOB_LIMIT {
            proof {
                lemma_glob_lines_full(ev, cwd@, i as int);
            }
            return ToolResult::success_result(join_strings(&out, "\n"));
        }
    }
    assert(ev.take(items@.len() as int) =~= ev);
    ToolResult::success_result(join_strings(&out, "\n"))
}

/// The result for a file whose parent directory does not exist, when the
/// call does not ask for it to be created.
pub fn missing_parent(parent: &str) -> (r: ToolResult)
    ensures
        is_error_with(r, "Parent directory does not exist: "@ + parent@),
{
    ToolResult::error_result(concat("Parent directory does not exist: ", parent))
}

} // verus!
