//! What the terminal shows: the welcome banner, help, and tool-call lines.
use vstd::prelude::*;
use crate::strings::{chars_of, concat, owned, push_str_chars, string_of, string_views};

verus! {

/// The console of the terminal interface; there is nothing to set up.
pub fn get_console() {
}

/// `true` or `false`, as `{}` formats a boolean.
pub open spec fn bool_text(b: bool) -> Seq<char> {
    if b { "true"@ } else { "false"@ }
}

fn bool_string(b: bool) -> (r: String)
    ensures
        r@ == bool_text(b),
{
    if b { owned("true") } else { owned("false") }
}

/// The help line: every command the prompt understands.
pub open spec fn help_line() -> Seq<char> {
    "/help /exit /quit /clear /config /model /approval /stats /tools /mcp /save /checkpoint /checkpoints /restore /sessions /resume"@
}

/// The lines of the welcome banner: the title between `==` marks, then each line.
pub open spec fn spec_welcome(title: Seq<char>, lines: Seq<Seq<char>>) -> Seq<Seq<char>> {
    seq!["== "@ + title + " =="@] + lines
}

/// The line that announces a tool call.
pub open spec fn spec_tool_start(call_id: Seq<char>, name: Seq<char>, args: Seq<char>) -> Seq<char> {
    "\n[tool:start] "@ + name + " #"@ + call_id + " args="@ + args
}

/// The lines that report a finished tool call: its outcome, and its error if it had one.
pub open spec fn spec_tool_complete(
    call_id: Seq<char>,
    name: Seq<char>,
    success: bool,
    output: Seq<char>,
    error: Option<Seq<char>>,
) -> Seq<Seq<char>> {
    seq!["\n[tool:done] "@ + name + " #"@ + call_id + " success="@ + bool_text(success) + " output="@ + output]
        + match error {
        Some(e) => seq!["[tool:error] "@ + e],
        None => seq![],
    }
}

/// The terminal interface.
pub struct Tui {}

impl Tui {
    pub fn new() -> (r: Self) {
        Tui {}
    }

    /// The welcome banner.
    pub fn print_welcome(&self, title: &str, lines: &Vec<String>) -> (r: Vec<String>)
        ensures
            string_views(r@) == spec_welcome(title@, string_views(lines@)),
    {
        let mut out: Vec<String> = Vec::new();
        let mut head = chars_of("== ");
        push_str_chars(&mut head, title);
        push_str_chars(&mut head, " ==");
        out.push(string_of(&head));
        for i in 0..lines.len()
            invariant
                string_views(out@) == seq!["== "@ + title@ + " =="@] + string_views(lines@).take(i as int),
        {
            let ghost prev = string_views(out@);
            out.push(lines[i].clone());
            assert(string_views(out@) =~= prev.push(lines@[i as int]@));
            assert(string_views(lines@).take(i + 1) =~= string_views(lines@).take(i as int).push(lines@[i as int]@));
        }
        assert(string_views(lines@).take(lines@.len() as int) =~= string_views(lines@));
        out
    }

    /// What starts the assistant's answer.
    pub fn begin_assistant(&self) -> (r: String)
        ensures
            r@ == "\n[assistant]> "@,
    {
        owned("\n[assistant]> ")
    }

    /// What ends the assistant's answer: a line break.
    pub fn end_assistant(&self) -> (r: String)
        ensures
            r@ == "\n"@,
    {
        owned("\n")
    }

    /// A piece of the assistant's answer as it streams in, shown as it is.
    pub fn stream_assistant_delta(&self, content: &str) -> (r: String)
        ensures
            r@ == content@,
    {
        owned(content)
    }

    /// The line that announces a tool call; `args` is the arguments as JSON text.
    pub fn tool_call_start(&self, call_id: &str, name: &str, args: &str) -> (r: String)
        ensures
            r@ == spec_tool_start(call_id@, name@, args@),
    {
        let mut v = chars_of("\n[tool:start] ");
        push_str_chars(&mut v, name);
        push_str_chars(&mut v, " #");
        push_str_chars(&mut v, call_id);
        push_str_chars(&mut v, " args=");
        push_str_chars(&mut v, args);
        string_of(&v)
    }

    /// The lines that report a finished tool call.
    pub fn tool_call_complete(&self, call_id: &str, name: &str, success: bool, output: &str, error: Option<&str>) -> (r: Vec<String>)
        ensures
            string_views(r@) == spec_tool_complete(
                call_id@,
                name@,
                success,
                output@,
                match error {
                    Some(e) => Some(e@),
                    None => None,
                },
            ),
    {
        let mut v = chars_of("\n[tool:done] ");
        push_str_chars(&mut v, name);
        push_str_chars(&mut v, " #");
        push_str_chars(&mut v, call_id);
        push_str_chars(&mut v, " success=");
        let b = bool_string(success);
        push_str_chars(&mut v, b.as_str());
        push_str_chars(&mut v, " output=");
        push_str_chars(&mut v, output);
        let mut out: Vec<String> = Vec::new();
        out.push(string_of(&v));
        match error {
            Some(e) => out.push(concat("[tool:error] ", e)),
            None => {},
        }
        assert(string_views(out@) =~= spec_tool_complete(
            call_id@,
            name@,
            success,
            output@,
            match error {
                Some(e) => Some(e@),
                None => None,
            },
        ));
        out
    }

    /// Asks the user to confirm an action; the terminal cannot ask yet, so the
    /// answer is always no.
    pub fn handle_confirmation(&self, description: &str) -> (r: bool)
        ensures
            !r,
    {
        false
    }

    /// The help line.
    pub fn show_help(&self) -> (r: String)
        ensures
            r@ == help_line(),
    {
        owned("/help /exit /quit /clear /config /model /approval /stats /tools /mcp /save /checkpoint /checkpoints /restore /sessions /resume")
    }
}

} // verus!
