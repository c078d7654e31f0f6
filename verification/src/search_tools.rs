//! What the grep and web-search tools report, with the `regex` and
//! `urlencoding` crates doing the pattern matching and the escaping.
use vstd::prelude::*;
use vstd::utf8::encode_utf8;
use crate::strings::{chars_of, concat, decimal, join_seq, join_strings, owned, push_all, push_decimal, push_str_chars, str_eq, string_of, string_views};
use crate::text::{lines_of, split_lines, trim, trim_chars, views};
use crate::tool_base::{ToolResult, is_error_with, is_success_with};

verus! {

/// `regex::Regex`, a compiled regular expression.
#[verifier::external_type_specification]
#[verifier::external_body]
pub struct ExRegex(regex::Regex);

/// What `RegexBuilder::new(pattern).case_insensitive(ci).build()` gives: success,
/// or the message (`Display`) of the error it reports.
pub uninterp spec fn regex_build(pattern: Seq<char>, case_insensitive: bool) -> Result<(), Seq<char>>;

/// The pattern compiles.
pub open spec fn regex_accepts(pattern: Seq<char>, case_insensitive: bool) -> bool {
    regex_build(pattern, case_insensitive) is Ok
}

/// The message of the error that compiling the pattern reports.
pub open spec fn regex_error_text(pattern: Seq<char>, case_insensitive: bool) -> Seq<char> {
    match regex_build(pattern, case_insensitive) {
        Err(e) => e,
        Ok(_) => seq![],
    }
}

/// `Regex::is_match`: the compiled pattern matches somewhere in `line`.
pub uninterp spec fn regex_is_match(pattern: Seq<char>, case_insensitive: bool, line: Seq<char>) -> bool;

/// A regular expression compiled from `pattern`.
pub struct LinePattern {
    pattern: String,
    case_insensitive: bool,
    re: regex::Regex,
}

impl LinePattern {
    /// The pattern text this was compiled from.
    pub closed spec fn spec_pattern(&self) -> Seq<char> {
        self.pattern@
    }

    /// Whether case is ignored.
    pub closed spec fn spec_case_insensitive(&self) -> bool {
        self.case_insensitive
    }
}

/// Compiles `pattern` with `regex::RegexBuilder` (ignoring case when asked);
/// the outcome is named `regex_build`. `Regex::new(p)` is this builder with
/// case respected.
#[verifier::external_body]
pub(crate) fn compile_pattern(pattern: &str, case_insensitive: bool) -> (r: Result<LinePattern, String>)
    ensures
        match r {
            Ok(p) => regex_build(pattern@, case_insensitive) is Ok && p.spec_pattern() == pattern@
                && p.spec_case_insensitive() == case_insensitive,
            Err(e) => regex_build(pattern@, case_insensitive) == Err::<(), Seq<char>>(e@),
        },
{
    regex::RegexBuilder::new(pattern)
        .case_insensitive(case_insensitive)
        .build()
        .map(|re| LinePattern { pattern: pattern.to_string(), case_insensitive, re })
        .map_err(|e| e.to_string())
}

/// `Regex::is_match` of the compiled pattern on `line`.
#[verifier::external_body]
pub(crate) fn pattern_matches(p: &LinePattern, line: &str) -> (r: bool)
    ensures
        r == regex_is_match(p.spec_pattern(), p.spec_case_insensitive(), line@),
{
    p.re.is_match(line)
}

/// The matching lines of a file, numbered from 1 as `<n>:<line>`.
pub open spec fn grep_hits(ls: Seq<Seq<char>>, pattern: Seq<char>, ci: bool) -> Seq<Seq<char>>
    decreases ls.len(),
{
    if ls.len() == 0 {
        seq![]
    } else if regex_is_match(pattern, ci, ls.last()) {
        grep_hits(ls.drop_last(), pattern, ci).push(decimal(ls.len()) + ":"@ + ls.last())
    } else {
        grep_hits(ls.drop_last(), pattern, ci)
    }
}

/// The report lines of one file: a `=== <path> ===` header, its matching
/// lines, and an empty line; nothing when no line matches.
pub open spec fn file_report(path: Seq<char>, content: Seq<char>, pattern: Seq<char>, ci: bool) -> Seq<Seq<char>> {
    let hits = grep_hits(lines_of(content), pattern, ci);
    if hits.len() == 0 {
        seq![]
    } else {
        seq!["=== "@ + path + " ==="@] + hits + seq![seq![]]
    }
}

/// The report lines of all files, in order.
pub open spec fn all_reports(files: Seq<(Seq<char>, Seq<char>)>, pattern: Seq<char>, ci: bool) -> Seq<Seq<char>>
    decreases files.len(),
{
    if files.len() == 0 {
        seq![]
    } else {
        all_reports(files.drop_last(), pattern, ci) + file_report(files.last().0, files.last().1, pattern, ci)
    }
}

/// The report of files one after another is the report of the first ones
/// followed by the report of the others: no file's section depends on the
/// files before it.
pub proof fn law_grep_reports_concatenate(
    a: Seq<(Seq<char>, Seq<char>)>,
    b: Seq<(Seq<char>, Seq<char>)>,
    pattern: Seq<char>,
    ci: bool,
)
    ensures
        all_reports(a + b, pattern, ci) == all_reports(a, pattern, ci) + all_reports(b, pattern, ci),
    decreases b.len(),
{
    if b.len() == 0 {
        assert(a + b =~= a);
        assert(all_reports(a, pattern, ci) + all_reports(b, pattern, ci) =~= all_reports(a, pattern, ci));
    } else {
        assert((a + b).drop_last() =~= a + b.drop_last());
        assert((a + b).last() == b.last());
        law_grep_reports_concatenate(a, b.drop_last(), pattern, ci);
        let fr = file_report(b.last().0, b.last().1, pattern, ci);
        assert(all_reports(a, pattern, ci) + all_reports(b.drop_last(), pattern, ci) + fr =~= all_reports(a, pattern, ci)
            + (all_reports(b.drop_last(), pattern, ci) + fr));
    }
}

/// Every file has its own section, in its place: the report of the files is
/// the report of those before file `i`, then the section of file `i` (its
/// header `=== path ===`, its matching lines and a blank line, when it has a
/// matching line), then the report of those after it.
pub proof fn law_grep_reports_every_file(files: Seq<(Seq<char>, Seq<char>)>, i: int, pattern: Seq<char>, ci: bool)
    requires
        0 <= i < files.len(),
    ensures
        all_reports(files, pattern, ci) == all_reports(files.take(i), pattern, ci) + file_report(files[i].0, files[i].1, pattern, ci)
            + all_reports(files.skip(i + 1), pattern, ci),
{
    let one = seq![files[i]];
    assert(files =~= files.take(i) + one + files.skip(i + 1));
    law_grep_reports_concatenate(files.take(i) + one, files.skip(i + 1), pattern, ci);
    law_grep_reports_concatenate(files.take(i), one, pattern, ci);
    assert(one.drop_last() =~= Seq::<(Seq<char>, Seq<char>)>::empty());
    assert(one.last() == files[i]);
    assert(all_reports(one.drop_last(), pattern, ci) == Seq::<Seq<char>>::empty());
    assert(all_reports(one, pattern, ci) =~= file_report(files[i].0, files[i].1, pattern, ci));
}

/// The text the grep tool answers with.
pub open spec fn spec_grep_text(files: Seq<(Seq<char>, Seq<char>)>, pattern: Seq<char>, ci: bool) -> Seq<char> {
    let out = all_reports(files, pattern, ci);
    if out.len() == 0 {
        "No matches found for pattern '"@ + pattern + "'"@
    } else {
        join_seq(out, "\n"@)
    }
}

/// The paths and contents of files.
pub open spec fn file_views(files: Seq<(String, String)>) -> Seq<(Seq<char>, Seq<char>)> {
    files.map_values(|f: (String, String)| (f.0@, f.1@))
}

fn file_hits(p: &LinePattern, path: &str, content: &str, out: &mut Vec<String>)
    ensures
        string_views(final(out)@) == string_views(old(out)@) + file_report(path@, content@, p.spec_pattern(), p.spec_case_insensitive()),
{
    let cs = chars_of(content);
    let ls = split_lines(&cs);
    let ghost l = lines_of(content@);
    let ghost pat = p.spec_pattern();
    let ghost ci = p.spec_case_insensitive();
    let mut hits: Vec<String> = Vec::new();
    for i in 0..ls.len()
        invariant
            views(ls@) == l,
            string_views(hits@) == grep_hits(l.take(i as int), pat, ci),
            pat == p.spec_pattern(),
            ci == p.spec_case_insensitive(),
    {
        proof {
            assert(l.take(i + 1).drop_last() == l.take(i as int));
            assert(ls@[i as int]@ == l[i as int]);
        }
        let line = string_of(&ls[i]);
        if pattern_matches(p, line.as_str()) {
            let mut h: Vec<char> = Vec::new();
            push_decimal(&mut h, (i + 1) as u64);
            h.push(':');
            push_all(&mut h, &ls[i]);
            proof {
                reveal_strlit(":");
                assert(h@ =~= decimal((i + 1) as nat) + ":"@ + l[i as int]);
            }
            let ghost prev = string_views(hits@);
            hits.push(string_of(&h));
            assert(string_views(hits@) =~= prev.push(h@));
            assert(grep_hits(l.take(i + 1), pat, ci) == prev.push(h@));
        } else {
            assert(grep_hits(l.take(i + 1), pat, ci) == grep_hits(l.take(i as int), pat, ci));
        }
    }
    assert(l.take(ls@.len() as int) == l);
    if hits.len() > 0 {
        let mut header = chars_of("=== ");
        push_str_chars(&mut header, path);
        push_str_chars(&mut header, " ===");
        let ghost before = string_views(out@);
        out.push(string_of(&header));
        for j in 0..hits.len()
            invariant
                string_views(out@) == before + seq![header@] + string_views(hits@).take(j as int),
        {
            let ghost prev = string_views(out@);
            out.push(hits[j].clone());
            assert(string_views(out@) =~= prev.push(hits@[j as int]@));
            assert(string_views(hits@).take(j + 1) == string_views(hits@).take(j as int).push(hits@[j as int]@));
        }
        let ghost prev = string_views(out@);
        out.push(String::new());
        assert(string_views(out@) =~= prev.push(seq![]));
        assert(string_views(hits@).take(hits@.len() as int) == string_views(hits@));
        assert(string_views(out@) =~= before + file_report(path@, content@, pat, ci));
    } else {
        assert(string_views(out@) =~= string_views(old(out)@) + file_report(path@, content@, pat, ci));
    }
}

/// Searches the files `(path, content)` for lines matching `pattern` (ignoring
/// case when asked). A pattern that does not compile gives the compiler's message.
pub fn grep_report(pattern: &str, case_insensitive: bool, files: &Vec<(String, String)>) -> (r: Result<ToolResult, String>)
    ensures
        match r {
            Ok(res) => regex_accepts(pattern@, case_insensitive)
                && is_success_with(res, spec_grep_text(file_views(files@), pattern@, case_insensitive)),
            Err(e) => !regex_accepts(pattern@, case_insensitive) && e@ == regex_error_text(pattern@, case_insensitive),
        },
{
    let p = match compile_pattern(pattern, case_insensitive) {
        Ok(p) => p,
        Err(e) => return Err(e),
    };
    let ghost fv = file_views(files@);
    let mut out: Vec<String> = Vec::new();
    for i in 0..files.len()
        invariant
            fv == file_views(files@),
            p.spec_pattern() == pattern@,
            p.spec_case_insensitive() == case_insensitive,
            string_views(out@) == all_reports(fv.take(i as int), pattern@, case_insensitive),
    {
        proof {
            assert(fv.take(i + 1).drop_last() == fv.take(i as int));
            assert(fv.take(i + 1).last() == fv[i as int]);
        }
        file_hits(&p, files[i].0.as_str(), files[i].1.as_str(), &mut out);
    }
    assert(fv.take(files@.len() as int) == fv);
    if out.len() == 0 {
        let mut m = chars_of("No matches found for pattern '");
        push_str_chars(&mut m, pattern);
        push_str_chars(&mut m, "'");
        return Ok(ToolResult::success_result(string_of(&m)));
    }
    Ok(ToolResult::success_result(join_strings(&out, "\n")))
}

/// Bytes that `urlencoding` leaves as they are: ASCII letters and digits, `-`,
/// `.`, `_` and `~`.
pub open spec fn url_safe(b: u8) -> bool {
    (0x30 <= b <= 0x39) || (0x41 <= b <= 0x5a) || (0x61 <= b <= 0x7a) || b == 0x2d || b == 0x2e
        || b == 0x5f || b == 0x7e
}

/// The upper-case hexadecimal digit for `d` (`d < 16`).
pub open spec fn hex_digit(d: u8) -> char {
    if d < 10 {
        (0x30 + d) as char
    } else {
        (0x41 - 10 + d) as char
    }
}

/// The percent-encoding of the bytes `bs`: safe bytes as themselves, every
/// other byte as `%` and two upper-case hexadecimal digits.
pub open spec fn percent_encode(bs: Seq<u8>) -> Seq<char>
    decreases bs.len(),
{
    if bs.len() == 0 {
        seq![]
    } else {
        let b = bs[0];
        (if url_safe(b) {
            seq![b as char]
        } else {
            seq!['%', hex_digit(b >> 4), hex_digit(b & 15)]
        }) + percent_encode(bs.drop_first())
    }
}

/// `urlencoding::encode`: the percent-encoding of the UTF-8 bytes of `s`.
#[verifier::external_body]
pub(crate) fn url_encode(s: &str) -> (r: String)
    ensures
        r@ == percent_encode(encode_utf8(s@)),
{
    urlencoding::encode(s).into_owned()
}

/// The address of the search page for `query`.
pub fn search_url(query: &str) -> (r: String)
    ensures
        r@ == "https://html.duckduckgo.com/html/?q="@ + percent_encode(encode_utf8(query@)),
{
    let q = url_encode(query);
    concat("https://html.duckduckgo.com/html/?q=", q.as_str())
}

/// The number of results asked for, kept between 1 and 20.
pub open spec fn clamp_results(n: nat) -> nat {
    if n < 1 {
        1
    } else if n > 20 {
        20
    } else {
        n
    }
}

/// The number of results asked for, kept between 1 and 20.
pub fn clamp_max_results(n: usize) -> (r: usize)
    ensures
        r == clamp_results(n as nat),
{
    if n < 1 {
        1
    } else if n > 20 {
        20
    } else {
        n
    }
}

/// For each match of the compiled `pattern` in `text`, left to right
/// (`captures_iter`), the text of each named group in `names` (`None` for a
/// group that took no part).
pub uninterp spec fn regex_captures(
    pattern: Seq<char>,
    case_insensitive: bool,
    text: Seq<char>,
    names: Seq<Seq<char>>,
) -> Seq<Seq<Option<Seq<char>>>>;

/// `text` with every match of the compiled `pattern` replaced by `replacement`
/// (`replace_all`).
pub uninterp spec fn regex_replaced(pattern: Seq<char>, case_insensitive: bool, text: Seq<char>, replacement: Seq<char>) -> Seq<char>;

/// The optional texts of one match's groups.
pub open spec fn group_views(g: Seq<Option<String>>) -> Seq<Option<Seq<char>>> {
    g.map_values(|o: Option<String>| crate::strings::opt_view(o))
}

/// `Regex::captures_iter(text)`, reading the named groups of each match; the
/// outcome is named `regex_captures`. Each match gives one entry per name.
#[verifier::external_body]
pub(crate) fn pattern_captures(p: &LinePattern, text: &str, names: &Vec<String>) -> (r: Vec<Vec<Option<String>>>)
    ensures
        r@.map_values(|g: Vec<Option<String>>| group_views(g@)) == regex_captures(
            p.spec_pattern(),
            p.spec_case_insensitive(),
            text@,
            string_views(names@),
        ),
        forall|k: int| 0 <= k < r@.len() ==> #[trigger] r@[k]@.len() == names@.len(),
{
    p.re.captures_iter(text).map(|c| names.iter().map(|n| c.name(n).map(|m| m.as_str().to_string())).collect()).collect()
}

/// `Regex::replace_all(text, replacement)`; the outcome is named `regex_replaced`.
#[verifier::external_body]
pub(crate) fn pattern_replace_all(p: &LinePattern, text: &str, replacement: &str) -> (r: String)
    ensures
        r@ == regex_replaced(p.spec_pattern(), p.spec_case_insensitive(), text@, replacement@),
{
    p.re.replace_all(text, replacement).into_owned()
}

/// The pattern of a search result's link: its address and its title.
pub open spec fn result_link_pattern() -> Seq<char> {
    "<a[^>]*class=\"[^\"]*result__a[^\"]*\"[^>]*href=\"(?P<href>[^\"]+)\"[^>]*>(?P<title>.*?)</a>"@
}

/// The pattern of a search result's snippet.
pub open spec fn result_snippet_pattern() -> Seq<char> {
    "<a[^>]*class=\"[^\"]*result__snippet[^\"]*\"[^>]*>(?P<snippet>.*?)</a>|<div[^>]*class=\"[^\"]*result__snippet[^\"]*\"[^>]*>(?P<snippet2>.*?)</div>"@
}

/// The pattern of an HTML tag.
pub open spec fn tag_pattern() -> Seq<char> {
    "<[^>]+>"@
}

/// The text of an optional group, empty when absent.
pub open spec fn opt_text(o: Option<Seq<char>>) -> Seq<char> {
    match o {
        Some(s) => s,
        None => seq![],
    }
}

/// `s` without HTML tags.
pub open spec fn strip_tags(s: Seq<char>) -> Seq<char> {
    regex_replaced(tag_pattern(), false, s, seq![])
}

/// The (title without tags, address) of each link match.
pub open spec fn titles_and_links(ms: Seq<Seq<Option<Seq<char>>>>) -> Seq<(Seq<char>, Seq<char>)> {
    ms.map_values(|m: Seq<Option<Seq<char>>>| (strip_tags(opt_text(m[1])), opt_text(m[0])))
}

/// The text of a snippet match: its first group when that took part, else the second.
pub open spec fn snippet_raw(m: Seq<Option<Seq<char>>>) -> Seq<char> {
    match m[0] {
        Some(s) => s,
        None => opt_text(m[1]),
    }
}

/// The text, without tags, of each snippet match.
pub open spec fn snippet_texts(ms: Seq<Seq<Option<Seq<char>>>>) -> Seq<Seq<char>> {
    ms.map_values(|m: Seq<Option<Seq<char>>>| strip_tags(snippet_raw(m)))
}

/// The lines that show result `i` (counted from 0): its number and title, its
/// address, its snippet when there is one that is not blank, and an empty line.
pub open spec fn result_block(i: nat, r: (Seq<char>, Seq<char>), sn: Seq<Seq<char>>) -> Seq<Seq<char>> {
    seq![decimal(i + 1) + ". Title: "@ + r.0, "   URL: "@ + r.1] + (if i < sn.len() && trim(sn[i as int]).len() > 0 {
        seq!["   Snippet: "@ + trim(sn[i as int])]
    } else {
        seq![]
    }) + seq![seq![]]
}

/// The lines of all results.
pub open spec fn result_blocks(rs: Seq<(Seq<char>, Seq<char>)>, sn: Seq<Seq<char>>) -> Seq<Seq<char>>
    decreases rs.len(),
{
    if rs.len() == 0 {
        seq![]
    } else {
        result_blocks(rs.drop_last(), sn) + result_block((rs.len() - 1) as nat, rs.last(), sn)
    }
}

/// The names of the link pattern's groups.
pub open spec fn link_groups() -> Seq<Seq<char>> {
    seq!["href"@, "title"@]
}

/// The names of the snippet pattern's groups.
pub open spec fn snippet_groups() -> Seq<Seq<char>> {
    seq!["snippet"@, "snippet2"@]
}

/// The first `n` elements of `s`, or all of them when there are fewer.
pub open spec fn first_n<A>(s: Seq<A>, n: nat) -> Seq<A> {
    if s.len() <= n {
        s
    } else {
        s.take(n as int)
    }
}

/// All three fixed patterns of the search compile.
pub open spec fn search_patterns_compile() -> bool {
    regex_accepts(result_link_pattern(), false) && regex_accepts(result_snippet_pattern(), false) && regex_accepts(
        tag_pattern(),
        false,
    )
}

/// The message of the first fixed pattern that does not compile.
pub open spec fn search_pattern_error() -> Seq<char> {
    if !regex_accepts(result_link_pattern(), false) {
        regex_error_text(result_link_pattern(), false)
    } else if !regex_accepts(result_snippet_pattern(), false) {
        regex_error_text(result_snippet_pattern(), false)
    } else {
        regex_error_text(tag_pattern(), false)
    }
}

/// The answer of the web-search tool for the page `html` (when the fixed
/// patterns compile): the first `clamp_results(max)` results with their
/// snippets, or a note that there were none.
pub open spec fn spec_search_text(query: Seq<char>, html: Seq<char>, max: nat) -> Seq<char> {
    let rs = titles_and_links(first_n(regex_captures(result_link_pattern(), false, html, link_groups()), clamp_results(max)));
    if rs.len() == 0 {
        "No results found for: "@ + query
    } else {
        let sn = snippet_texts(regex_captures(result_snippet_pattern(), false, html, snippet_groups()));
        join_seq(seq!["Search results for: "@ + query] + result_blocks(rs, sn), "\n"@)
    }
}

fn group_text(g: &Vec<Option<String>>, k: usize) -> (r: String)
    requires
        k < g@.len(),
    ensures
        r@ == opt_text(crate::strings::opt_view(g@[k as int])),
{
    match &g[k] {
        Some(s) => s.clone(),
        None => String::new(),
    }
}

/// The search answer for the fetched page `html` (see `spec_search_text`); an
/// error with the compiler's message when a fixed pattern does not compile.
pub fn web_search_report(query: &str, html: &str, max_results: usize) -> (r: Result<ToolResult, String>)
    ensures
        match r {
            Ok(res) => search_patterns_compile() && is_success_with(res, spec_search_text(query@, html@, max_results as nat)),
            Err(e) => !search_patterns_compile() && e@ == search_pattern_error(),
        },
{
    let link_pat = compile_pattern(
        "<a[^>]*class=\"[^\"]*result__a[^\"]*\"[^>]*href=\"(?P<href>[^\"]+)\"[^>]*>(?P<title>.*?)</a>",
        false,
    );
    let link = match link_pat {
        Ok(p) => p,
        Err(e) => return Err(e),
    };
    let snippet = match compile_pattern(
        "<a[^>]*class=\"[^\"]*result__snippet[^\"]*\"[^>]*>(?P<snippet>.*?)</a>|<div[^>]*class=\"[^\"]*result__snippet[^\"]*\"[^>]*>(?P<snippet2>.*?)</div>",
        false,
    ) {
        Ok(p) => p,
        Err(e) => return Err(e),
    };
    let tags = match compile_pattern("<[^>]+>", false) {
        Ok(p) => p,
        Err(e) => return Err(e),
    };
    let max = clamp_max_results(max_results);
    proof {
        reveal_strlit("");
    }
    let mut names: Vec<String> = Vec::new();
    names.push(owned("href"));
    names.push(owned("title"));
    assert(string_views(names@) =~= link_groups());
    let ms = pattern_captures(&link, html, &names);
    let ghost gms = ms@.map_values(|g: Vec<Option<String>>| group_views(g@));
    let n = if ms.len() <= max {
        ms.len()
    } else {
        max
    };
    let ghost firsts = first_n(gms, clamp_results(max_results as nat));
    assert(firsts =~= gms.take(n as int));
    let mut results: Vec<(String, String)> = Vec::new();
    for i in 0..n
        invariant
            n <= ms@.len(),
            gms == ms@.map_values(|g: Vec<Option<String>>| group_views(g@)),
            firsts == gms.take(n as int),
            forall|k: int| 0 <= k < ms@.len() ==> #[trigger] ms@[k]@.len() == 2,
            tags.spec_pattern() == tag_pattern(),
            !tags.spec_case_insensitive(),
            pair_views(results@) == titles_and_links(firsts.take(i as int)),
    {
        let g = &ms[i];
        let href = group_text(g, 0);
        let title_raw = group_text(g, 1);
        proof {
            reveal_strlit("");
            assert(""@ =~= Seq::<char>::empty());
            assert(firsts[i as int] == group_views(g@));
            assert(group_views(g@)[0] == crate::strings::opt_view(g@[0]));
            assert(group_views(g@)[1] == crate::strings::opt_view(g@[1]));
        }
        let title = pattern_replace_all(&tags, title_raw.as_str(), "");
        let ghost prev = pair_views(results@);
        results.push((title, href));
        assert(pair_views(results@) =~= prev.push((title@, href@)));
        assert(titles_and_links(firsts.take(i + 1)) =~= titles_and_links(firsts.take(i as int)).push(
            (strip_tags(opt_text(firsts[i as int][1])), opt_text(firsts[i as int][0])),
        ));
    }
    assert(firsts.take(n as int) =~= firsts);
    let ghost rs = pair_views(results@);
    if results.len() == 0 {
        return Ok(ToolResult::success_result(concat("No results found for: ", query)));
    }
    let mut snames: Vec<String> = Vec::new();
    snames.push(owned("snippet"));
    snames.push(owned("snippet2"));
    assert(string_views(snames@) =~= snippet_groups());
    let ss = pattern_captures(&snippet, html, &snames);
    let ghost gss = ss@.map_values(|g: Vec<Option<String>>| group_views(g@));
    let mut sn: Vec<String> = Vec::new();
    for i in 0..ss.len()
        invariant
            gss == ss@.map_values(|g: Vec<Option<String>>| group_views(g@)),
            forall|k: int| 0 <= k < ss@.len() ==> #[trigger] ss@[k]@.len() == 2,
            tags.spec_pattern() == tag_pattern(),
            !tags.spec_case_insensitive(),
            string_views(sn@) == snippet_texts(gss.take(i as int)),
    {
        let g = &ss[i];
        let raw = match &g[0] {
            Some(t) => t.clone(),
            None => group_text(g, 1),
        };
        proof {
            reveal_strlit("");
            assert(""@ =~= Seq::<char>::empty());
            assert(gss[i as int] == group_views(g@));
            assert(group_views(g@)[0] == crate::strings::opt_view(g@[0]));
            assert(group_views(g@)[1] == crate::strings::opt_view(g@[1]));
            assert(raw@ == snippet_raw(gss[i as int]));
        }
        let t = pattern_replace_all(&tags, raw.as_str(), "");
        let ghost prev = string_views(sn@);
        sn.push(t);
        assert(string_views(sn@) =~= prev.push(t@));
        assert(snippet_texts(gss.take(i + 1)) =~= snippet_texts(gss.take(i as int)).push(strip_tags(snippet_raw(gss[i as int]))));
    }
    assert(gss.take(gss.len() as int) =~= gss);
    let ghost snv = string_views(sn@);
    let mut lines: Vec<String> = Vec::new();
    lines.push(concat("Search results for: ", query));
    let ghost header = "Search results for: "@ + query@;
    for i in 0..results.len()
        invariant
            rs == pair_views(results@),
            snv == string_views(sn@),
            string_views(lines@) == seq![header] + result_blocks(rs.take(i as int), snv),
    {
        let ghost before = string_views(lines@);
        let mut a = chars_of("");
        push_decimal(&mut a, (i + 1) as u64);
        push_str_chars(&mut a, ". Title: ");
        push_str_chars(&mut a, results[i].0.as_str());
        lines.push(string_of(&a));
        lines.push(concat("   URL: ", results[i].1.as_str()));
        if i < sn.len() {
            let t = trim_chars(&chars_of(sn[i].as_str()));
            if t.len() > 0 {
                let mut c = chars_of("   Snippet: ");
                push_all(&mut c, &t);
                lines.push(string_of(&c));
            }
        }
        lines.push(String::new());
        proof {
            reveal_strlit("");
            assert(rs.take(i + 1).drop_last() == rs.take(i as int));
            assert(rs.take(i + 1).last() == rs[i as int]);
            assert(a@ == decimal((i + 1) as nat) + ". Title: "@ + rs[i as int].0);
            assert(string_views(lines@) =~= before + result_block(i as nat, rs[i as int], snv));
        }
    }
    assert(rs.take(rs.len() as int) == rs);
    Ok(ToolResult::success_result(join_strings(&lines, "\n")))
}

/// The texts of pairs of strings.
pub open spec fn pair_views(s: Seq<(String, String)>) -> Seq<(Seq<char>, Seq<char>)> {
    s.map_values(|p: (String, String)| (p.0@, p.1@))
}

/// The result for a search path that does not exist.
pub fn path_missing(path: &str) -> (r: ToolResult)
    ensures
        is_error_with(r, "Path does not exist: "@ + path@),
{
    let mut v = chars_of("Path does not exist: ");
    push_str_chars(&mut v, path);
    ToolResult::error_result(string_of(&v))
}

/// The most files the content search reads.
pub const GREP_FILE_LIMIT: usize = 500;

/// Directories that the content search does not enter.
pub open spec fn spec_skipped_dir(name: Seq<char>) -> bool {
    name == ".git"@ || name == "node_modules"@ || name == "__pycache__"@ || name == ".venv"@ || name == "venv"@
}

/// Whether the content search skips a directory of this name.
pub fn is_skipped_dir(name: &str) -> (r: bool)
    ensures
        r == spec_skipped_dir(name@),
{
    str_eq(name, ".git") || str_eq(name, "node_modules") || str_eq(name, "__pycache__") || str_eq(name, ".venv")
        || str_eq(name, "venv")
}

/// The result when the search page answers with a status that is no
/// success; `status` is the status as `{}` shows it.
pub fn search_failed(status: &str) -> (r: ToolResult)
    ensures
        is_error_with(r, "Search failed: HTTP "@ + status@),
{
    let mut v = chars_of("Search failed: HTTP ");
    push_str_chars(&mut v, status);
    ToolResult::error_result(string_of(&v))
}

} // verus!
