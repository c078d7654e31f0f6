//! Reading the JSON messages out of a server-sent-event stream.
use vstd::prelude::*;
use crate::json::{Json, JsonValue, json_parse, parse_json};
use crate::strings::{chars_of, push_all, starts_with, starts_with_exec, string_of};
use crate::text::{is_ws, line_split, lines_of, split_lines, trim, trim_chars, trim_end, trim_end_cr, trim_end_cr_chars, trim_start, views};

verus! {

/// `out`, with the JSON value in `data` appended when `data` is not blank and
/// parses.
pub open spec fn sse_flush(out: Seq<Json>, data: Seq<char>) -> Seq<Json> {
    let t = trim(data);
    if t.len() > 0 {
        match json_parse(t) {
            Some(j) => out.push(j),
            None => out,
        }
    } else {
        out
    }
}

/// One line of the stream applied to the values read so far and the pending data.
pub open spec fn sse_step(st: (Seq<Json>, Seq<char>), raw: Seq<char>) -> (Seq<Json>, Seq<char>) {
    let line = trim_end_cr(raw);
    if line.len() == 0 {
        (sse_flush(st.0, st.1), seq![])
    } else if starts_with(line, seq![':']) || starts_with(line, "event:"@) || starts_with(
        line,
        "id:"@,
    ) {
        st
    } else if starts_with(line, "data:"@) {
        let sep = if st.1.len() > 0 {
            seq!['\n']
        } else {
            seq![]
        };
        (st.0, st.1 + sep + trim(line.skip(5)))
    } else {
        st
    }
}

/// The state after the lines `ls`.
pub open spec fn sse_fold(ls: Seq<Seq<char>>) -> (Seq<Json>, Seq<char>)
    decreases ls.len(),
{
    if ls.len() == 0 {
        (seq![], seq![])
    } else {
        sse_step(sse_fold(ls.drop_last()), ls.last())
    }
}

/// The JSON values that the `data:` fields of the events in `text` carry: the
/// data lines of an event are joined with `\n`, a blank line ends an event, and
/// comments, `event:` and `id:` lines are skipped; data that is not JSON is dropped.
pub open spec fn spec_parse_sse(text: Seq<char>) -> Seq<Json> {
    let st = sse_fold(lines_of(text));
    sse_flush(st.0, st.1)
}

/// The models of a sequence of JSON values.
pub open spec fn models(s: Seq<JsonValue>) -> Seq<Json> {
    s.map_values(|v: JsonValue| v@)
}

fn flush(out: &mut Vec<JsonValue>, data: &Vec<char>)
    ensures
        models(final(out)@) == sse_flush(models(old(out)@), data@),
{
    let t = trim_chars(data);
    if t.len() > 0 {
        let ts = string_of(&t);
        match parse_json(ts.as_str()) {
            Some(v) => {
                let ghost prev = out@;
                out.push(v);
                assert(models(out@) =~= models(prev).push(v@));
            },
            None => {},
        }
    }
}

/// The JSON values carried by the `data:` fields of the server-sent events in `text`.
pub fn parse_sse_events(text: &str) -> (r: Vec<JsonValue>)
    ensures
        models(r@) == spec_parse_sse(text@),
{
    let chars = chars_of(text);
    let lines = split_lines(&chars);
    let ghost ls = lines_of(text@);
    let colon = chars_of(":");
    let event = chars_of("event:");
    let id = chars_of("id:");
    let data_prefix = chars_of("data:");
    proof {
        reveal_strlit(":");
        reveal_strlit("event:");
        reveal_strlit("id:");
        reveal_strlit("data:");
        assert(colon@ == seq![':']);
    }
    let mut out: Vec<JsonValue> = Vec::new();
    let mut current: Vec<char> = Vec::new();
    for i in 0..lines.len()
        invariant
            views(lines@) == ls,
            colon@ == seq![':'],
            event@ == "event:"@,
            id@ == "id:"@,
            data_prefix@ == "data:"@,
            "data:"@.len() == 5,
            (models(out@), current@) == sse_fold(ls.take(i as int)),
    {
        let ghost st = (models(out@), current@);
        proof {
            assert(ls.take(i + 1).drop_last() == ls.take(i as int));
            assert(lines@[i as int]@ == ls[i as int]);
        }
        let line = trim_end_cr_chars(&lines[i]);
        if line.len() == 0 {
            flush(&mut out, &current);
            current = Vec::new();
        } else if starts_with_exec(&line, &colon) || starts_with_exec(&line, &event)
            || starts_with_exec(&line, &id) {
        } else if starts_with_exec(&line, &data_prefix) {
            let rest = crate::text::skip_chars(&line, 5);
            let d = trim_chars(&rest);
            if current.len() > 0 {
                current.push('\n');
            }
            push_all(&mut current, &d);
        }
        assert((models(out@), current@) == sse_step(st, ls[i as int]));
    }
    assert(ls.take(ls.len() as int) == ls);
    flush(&mut out, &current);
    out
}

proof fn lemma_one_line(s: Seq<char>)
    requires
        forall|i: int| 0 <= i < s.len() ==> s[i] != '\n',
    ensures
        line_split(s) == (Seq::<Seq<char>>::empty(), s),
    decreases s.len(),
{
    if s.len() > 0 {
        lemma_one_line(s.drop_last());
        assert(s.drop_last().push(s.last()) =~= s);
    }
}

proof fn lemma_trim_start_spaces(w: Seq<char>, t: Seq<char>)
    requires
        forall|i: int| 0 <= i < w.len() ==> w[i] == ' ',
        t.len() > 0,
        !is_ws(t[0]),
    ensures
        trim_start(w + t) == t,
    decreases w.len(),
{
    if w.len() == 0 {
        assert(w + t =~= t);
    } else {
        assert((w + t)[0] == ' ');
        assert((w + t).drop_first() =~= w.drop_first() + t);
        lemma_trim_start_spaces(w.drop_first(), t);
    }
}

/// A data line carries its whole payload: `data:`, any spaces, then a JSON
/// text `t` (on one line, with no white space around it) is read as the value
/// of `t`, whether or not a space follows the colon.
pub proof fn law_sse_data_line_payload(w: Seq<char>, t: Seq<char>, j: Json)
    requires
        forall|i: int| 0 <= i < w.len() ==> w[i] == ' ',
        t.len() > 0,
        !is_ws(t[0]),
        !is_ws(t.last()),
        forall|i: int| 0 <= i < t.len() ==> t[i] != '\n',
        json_parse(t) == Some(j),
    ensures
        spec_parse_sse("data:"@ + w + t) == seq![j],
{
    reveal_strlit("data:");
    reveal_strlit("event:");
    reveal_strlit("id:");
    let line = "data:"@ + w + t;
    assert forall|i: int| 0 <= i < line.len() implies line[i] != '\n' by {
        if i >= 5 + w.len() {
            assert(line[i] == t[i - 5 - w.len()]);
        } else if i >= 5 {
            assert(line[i] == w[i - 5]);
        }
    }
    lemma_one_line(line);
    assert(lines_of(line) == seq![line]);
    assert(line.last() == t.last());
    assert(trim_end_cr(line) == line);
    assert(seq![line].drop_last() =~= Seq::<Seq<char>>::empty());
    assert(line[0] == 'd');
    assert(line.len() >= 5);
    assert(line.take(1)[0] == 'd');
    assert(seq![':'][0] == ':');
    assert(!starts_with(line, seq![':']));
    if line.len() >= 6 {
        assert(line.take(6)[0] == 'd');
    }
    assert(!starts_with(line, "event:"@));
    assert(line.take(3)[0] == 'd');
    assert(!starts_with(line, "id:"@));
    assert(line.take(5) =~= "data:"@);
    assert(line.skip(5) =~= w + t);
    assert((w + t).last() == t.last());
    assert(trim_end(w + t) == w + t);
    lemma_trim_start_spaces(w, t);
    assert(trim(w + t) == t);
    assert(trim_end(t) == t);
    assert(trim_start(t) == t);
    let st0 = sse_fold(seq![line].drop_last());
    assert(st0 == sse_fold(Seq::<Seq<char>>::empty()));
    assert(st0 == (Seq::<Json>::empty(), Seq::<char>::empty()));
    assert(seq![line].last() == line);
    assert(st0.1 + Seq::<char>::empty() + trim(line.skip(5)) =~= t);
    assert(sse_step(st0, line) == (Seq::<Json>::empty(), t));
    assert(sse_fold(seq![line]) == (Seq::<Json>::empty(), t));
}

} // verus!
