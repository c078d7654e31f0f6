//! What the command-running tools report, and the checks made before running
//! a command or fetching a page.
use vstd::prelude::*;
use vstd::string::StringSliceAdditionalSpecFns;
use vstd::utf8::encode_utf8;
use crate::approval::{is_dangerous_command, lower_text, mentions_blocked};
use crate::strings::{chars_of, decimal, opt_view, push_all, push_decimal, push_str_chars, starts_with, starts_with_exec, string_of};
use crate::text::{boundary_index, byte_len, chars_in_bytes, is_boundary, lemma_byte_len_is_utf8_len, take_chars, trim, trim_chars, trim_end, trim_end_chars};
use crate::tool_base::{ToolConfirmation, ToolResult, is_error_with, is_success_with};

verus! {

/// The output a command shows: its standard output without trailing
/// whitespace, then, if it wrote to standard error, a `--- stderr ---` line and
/// that text without trailing whitespace (blank streams are left out).
pub open spec fn spec_merged_output(stdout: Seq<char>, stderr: Seq<char>) -> Seq<char> {
    let a = if trim(stdout).len() > 0 {
        trim_end(stdout)
    } else {
        seq![]
    };
    if trim(stderr).len() > 0 {
        a + (if a.len() > 0 {
            seq!['\n']
        } else {
            seq![]
        }) + "--- stderr ---\n"@ + trim_end(stderr)
    } else {
        a
    }
}

/// The result of a finished shell command.
pub fn shell_command_result(stdout: &str, stderr: &str, success: bool, exit_code: i32) -> (r: ToolResult)
    ensures
        r.success == success,
        r.output@ == spec_merged_output(stdout@, stderr@),
        opt_view(r.error) == if success {
            None
        } else {
            Some(stderr@)
        },
        r.exit_code == Some(exit_code),
        r.diff.is_none(),
        !r.truncated,
{
    let so = chars_of(stdout);
    let se = chars_of(stderr);
    let mut merged: Vec<char> = Vec::new();
    if trim_chars(&so).len() > 0 {
        let t = trim_end_chars(&so);
        push_all(&mut merged, &t);
    }
    if trim_chars(&se).len() > 0 {
        if merged.len() > 0 {
            merged.push('\n');
        }
        push_str_chars(&mut merged, "--- stderr ---\n");
        let t = trim_end_chars(&se);
        push_all(&mut merged, &t);
    }
    assert(merged@ =~= spec_merged_output(stdout@, stderr@));
    let mut result = ToolResult::success_result(string_of(&merged));
    result.success = success;
    if !success {
        result.error = Some(string_of(&se));
    }
    result.exit_code = Some(exit_code);
    result
}

/// The refusal of a dangerous command, if it is one.
pub fn shell_block_check(command: &str) -> (r: Option<ToolResult>)
    ensures
        match r {
            Some(res) => mentions_blocked(lower_text(command@)) && is_error_with(res, "Command blocked for safety: "@ + command@),
            None => !mentions_blocked(lower_text(command@)),
        },
{
    if is_dangerous_command(command) {
        let mut m: Vec<char> = Vec::new();
        push_str_chars(&mut m, "Command blocked for safety: ");
        push_str_chars(&mut m, command);
        Some(ToolResult::error_result(string_of(&m)))
    } else {
        None
    }
}

/// The result of a command that did not finish in time.
pub fn shell_timeout_result(timeout_secs: u64) -> (r: ToolResult)
    ensures
        is_error_with(r, "Command timed out after "@ + decimal(timeout_secs as nat) + "s"@),
{
    let mut m: Vec<char> = Vec::new();
    push_str_chars(&mut m, "Command timed out after ");
    push_decimal(&mut m, timeout_secs);
    push_str_chars(&mut m, "s");
    ToolResult::error_result(string_of(&m))
}

/// The confirmation shown before running a shell command.
pub fn shell_confirmation(command: &str) -> (r: ToolConfirmation)
    ensures
        r.tool_name@ == "shell"@,
        r.description@ == "Execute: "@ + command@,
        r.diff.is_none(),
        r.affected_paths@.len() == 0,
        opt_view(r.command) == Some(command@),
        r.is_dangerous == mentions_blocked(lower_text(command@)),
{
    let mut d: Vec<char> = Vec::new();
    push_str_chars(&mut d, "Execute: ");
    push_str_chars(&mut d, command);
    ToolConfirmation {
        tool_name: string_of(&chars_of("shell")),
        description: string_of(&d),
        diff: None,
        affected_paths: Vec::new(),
        command: Some(string_of(&chars_of(command))),
        is_dangerous: is_dangerous_command(command),
    }
}

/// The result of a discovered tool's command: its trimmed output; its trimmed
/// standard error as the error when there is any; a failure without error text
/// reports `Discovered tool failed`.
pub fn discovered_tool_result(stdout: &str, stderr: &str, success: bool, exit_code: Option<i32>) -> (r: ToolResult)
    ensures
        r.success == success,
        r.output@ == trim(stdout@),
        r.exit_code == exit_code,
        opt_view(r.error) == if trim(stderr@).len() > 0 {
            Some(trim(stderr@))
        } else if !success {
            Some("Discovered tool failed"@)
        } else {
            None
        },
        r.diff.is_none(),
{
    let so = chars_of(stdout);
    let se = chars_of(stderr);
    let mut result = ToolResult::success_result(string_of(&trim_chars(&so)));
    result.success = success;
    result.exit_code = exit_code;
    let te = trim_chars(&se);
    if te.len() > 0 {
        result.error = Some(string_of(&te));
    }
    if !success && result.error.is_none() {
        result.error = Some(string_of(&chars_of("Discovered tool failed")));
    }
    result
}

/// A discovered tool needs a name, a description and a command that are not blank.
pub fn is_complete_tool_spec(name: &str, description: &str, command: &str) -> (r: bool)
    ensures
        r == (trim(name@).len() > 0 && trim(description@).len() > 0 && trim(command@).len() > 0),
{
    trim_chars(&chars_of(name)).len() > 0 && trim_chars(&chars_of(description)).len() > 0
        && trim_chars(&chars_of(command)).len() > 0
}

/// Only `http://` and `https://` addresses are fetched.
pub fn is_http_url(url: &str) -> (r: bool)
    ensures
        r == (starts_with(url@, "http://"@) || starts_with(url@, "https://"@)),
{
    let u = chars_of(url);
    starts_with_exec(&u, &chars_of("http://")) || starts_with_exec(&u, &chars_of("https://"))
}

/// The most bytes of a fetched page that are kept.
pub open spec fn fetch_limit() -> nat {
    102400
}

/// A fetched page, cut to its first 100 KiB with a note appended when it is longer.
pub open spec fn spec_fetched_body(body: Seq<char>) -> Seq<char> {
    if byte_len(body) > fetch_limit() {
        body.take(chars_in_bytes(body, fetch_limit() as int)) + "\n... [content truncated]"@
    } else {
        body
    }
}

/// Cuts a fetched page to 100 KiB (see `spec_fetched_body`).
pub fn truncate_fetched_body(body: &str) -> (r: String)
    requires
        byte_len(body@) <= usize::MAX,
        byte_len(body@) <= fetch_limit() || is_boundary(body@, fetch_limit() as int),
    ensures
        r@ == spec_fetched_body(body@),
{
    proof {
        lemma_byte_len_is_utf8_len(body@);
    }
    let v = chars_of(body);
    assert(body.spec_bytes() == encode_utf8(body@));
    if body.len() <= 102400 {
        return string_of(&v);
    }
    let k = boundary_index(&v, 102400);
    let mut out = take_chars(&v, k);
    push_str_chars(&mut out, "\n... [content truncated]");
    string_of(&out)
}

/// The result for an address that the page-fetching tool refuses.
pub fn url_refused() -> (r: ToolResult)
    ensures
        is_error_with(r, "Url must be http:// or https://"@),
{
    ToolResult::error_result(string_of(&chars_of("Url must be http:// or https://")))
}

/// The result for a page whose status is no success; `status` is the status
/// as `{}` shows it (such as `404 Not Found`).
pub fn http_status_error(status: &str) -> (r: ToolResult)
    ensures
        is_error_with(r, "HTTP "@ + status@),
{
    let mut v = chars_of("HTTP ");
    push_str_chars(&mut v, status);
    ToolResult::error_result(string_of(&v))
}

/// The result for a fetched page: its body cut to 100 KiB when the status is
/// a success, else the status as an error.
pub fn fetch_result(status_ok: bool, status: &str, body: &str) -> (r: ToolResult)
    requires
        byte_len(body@) <= usize::MAX,
        status_ok ==> (byte_len(body@) <= fetch_limit() || is_boundary(body@, fetch_limit() as int)),
    ensures
        status_ok ==> is_success_with(r, spec_fetched_body(body@)),
        !status_ok ==> is_error_with(r, "HTTP "@ + status@),
{
    if !status_ok {
        return http_status_error(status);
    }
    ToolResult::success_result(truncate_fetched_body(body))
}

/// The result for a working directory that does not exist.
pub fn missing_working_dir(path: &str) -> (r: ToolResult)
    ensures
        is_error_with(r, "Working directory doesn't exist: "@ + path@),
{
    let mut v = chars_of("Working directory doesn't exist: ");
    push_str_chars(&mut v, path);
    ToolResult::error_result(string_of(&v))
}

/// The result of a discovered tool whose command did not finish in time.
pub fn discovered_timeout() -> (r: ToolResult)
    ensures
        is_error_with(r, "Discovered tool timed out"@),
{
    ToolResult::error_result(string_of(&chars_of("Discovered tool timed out")))
}

} // verus!
