//! What every tool reports back, and the defaults that tools share.
use vstd::prelude::*;
use crate::json::{Json, JsonValue, json_members, json_seq, lemma_json_members_step, lemma_json_seq_step};
use crate::strings::{concat, opt_view, owned, string_views};

verus! {

/// What a tool touches, which decides whether it mutates by default.
#[derive(Debug, Clone, Copy, PartialEq, Eq)]
pub enum ToolKind {
    Read,
    Write,
    Shell,
    Network,
    Memory,
    Mcp,
}

/// A change to one file.
#[derive(Debug)]
pub struct FileDiff {
    pub path: String,
    pub old_content: String,
    pub new_content: String,
    pub is_new_file: bool,
    pub is_deletion: bool,
}

/// The outcome of running a tool.
#[derive(Debug)]
pub struct ToolResult {
    pub success: bool,
    pub output: String,
    pub error: Option<String>,
    pub metadata: Vec<(String, JsonValue)>,
    pub truncated: bool,
    pub diff: Option<FileDiff>,
    pub exit_code: Option<i32>,
}

/// What the user is asked to confirm before a tool runs.
#[derive(Debug)]
pub struct ToolConfirmation {
    pub tool_name: String,
    pub description: String,
    pub diff: Option<FileDiff>,
    pub affected_paths: Vec<String>,
    pub command: Option<String>,
    pub is_dangerous: bool,
}

/// A tool call: its parameters and the directory it runs in.
pub struct ToolInvocation {
    pub params: JsonValue,
    pub cwd: String,
}

/// The result is a plain success with `output`: no error, metadata, diff or
/// exit code, not truncated.
pub open spec fn is_success_with(r: ToolResult, output: Seq<char>) -> bool {
    &&& r.success
    &&& r.output@ == output
    &&& r.error.is_none()
    &&& r.metadata@.len() == 0
    &&& !r.truncated
    &&& r.diff.is_none()
    &&& r.exit_code.is_none()
}

/// The result is a plain failure with message `error`: empty output, no
/// metadata, diff or exit code, not truncated.
pub open spec fn is_error_with(r: ToolResult, error: Seq<char>) -> bool {
    &&& !r.success
    &&& r.output@.len() == 0
    &&& opt_view(r.error) == Some(error)
    &&& r.metadata@.len() == 0
    &&& !r.truncated
    &&& r.diff.is_none()
    &&& r.exit_code.is_none()
}

/// The text the model is shown for a result.
pub open spec fn spec_model_output(success: bool, output: Seq<char>, error: Option<Seq<char>>) -> Seq<char> {
    if success {
        output
    } else {
        "Error: "@ + match error {
            Some(e) => e,
            None => "unknown"@,
        } + "\n\nOutput:\n"@ + output
    }
}

impl ToolResult {
    /// A successful result with `output`.
    pub fn success_result(output: String) -> (r: Self)
        ensures
            is_success_with(r, output@),
    {
        ToolResult {
            success: true,
            output,
            error: None,
            metadata: Vec::new(),
            truncated: false,
            diff: None,
            exit_code: None,
        }
    }

    /// A failed result with the message `error`.
    pub fn error_result(error: String) -> (r: Self)
        ensures
            is_error_with(r, error@),
    {
        ToolResult {
            success: false,
            output: String::new(),
            error: Some(error),
            metadata: Vec::new(),
            truncated: false,
            diff: None,
            exit_code: None,
        }
    }

    /// The text the model is shown: the output of a success; for a failure the
    /// error (or `unknown`) followed by the output.
    pub fn to_model_output(&self) -> (r: String)
        ensures
            r@ == spec_model_output(self.success, self.output@, opt_view(self.error)),
    {
        if self.success {
            return self.output.clone();
        }
        let e = match &self.error {
            Some(e) => e.clone(),
            None => owned("unknown"),
        };
        let a = concat("Error: ", e.as_str());
        let b = concat(a.as_str(), "\n\nOutput:\n");
        concat(b.as_str(), self.output.as_str())
    }
}

/// A success shows the model exactly its output, and a failure built from a
/// message shows that message with an empty output.
pub proof fn law_model_output_of_results(r: ToolResult, text: Seq<char>)
    ensures
        is_success_with(r, text) ==> spec_model_output(r.success, r.output@, opt_view(r.error)) == text,
        is_error_with(r, text) ==> spec_model_output(r.success, r.output@, opt_view(r.error))
            == "Error: "@ + text + "\n\nOutput:\n"@,
{
    if is_error_with(r, text) {
        assert(r.output@ =~= Seq::<char>::empty());
        assert("Error: "@ + text + "\n\nOutput:\n"@ + r.output@ =~= "Error: "@ + text + "\n\nOutput:\n"@);
    }
}

/// Tools that write, run commands, reach the network or keep memory mutate.
pub open spec fn spec_kind_mutates(kind: ToolKind) -> bool {
    match kind {
        ToolKind::Write | ToolKind::Shell | ToolKind::Network | ToolKind::Memory => true,
        _ => false,
    }
}

/// Whether a tool of this kind mutates, unless the tool says otherwise.
pub fn kind_is_mutating(kind: ToolKind) -> (r: bool)
    ensures
        r == spec_kind_mutates(kind),
{
    match kind {
        ToolKind::Write | ToolKind::Shell | ToolKind::Network | ToolKind::Memory => true,
        _ => false,
    }
}

/// The confirmation a tool asks for by default: none when the call does not
/// mutate, else `Execute <name>` with no diff, paths or command, not dangerous.
pub fn default_confirmation(tool_name: &str, is_mutating: bool) -> (r: Option<ToolConfirmation>)
    ensures
        !is_mutating ==> r.is_none(),
        is_mutating ==> (r matches Some(c) && c.tool_name@ == tool_name@
            && c.description@ == "Execute "@ + tool_name@ && c.diff.is_none()
            && c.affected_paths@.len() == 0 && c.command.is_none() && !c.is_dangerous),
{
    if !is_mutating {
        return None;
    }
    Some(ToolConfirmation {
        tool_name: owned(tool_name),
        description: concat("Execute ", tool_name),
        diff: None,
        affected_paths: Vec::new(),
        command: None,
        is_dangerous: false,
    })
}

/// The parameter schema of a tool: an object whose members `props` (name,
/// type) have the given JSON types, with the names that must be given (members
/// in the order in which `serde_json` keeps them).
pub open spec fn object_schema_json(props: Seq<(Seq<char>, Seq<char>)>, required: Option<Seq<Seq<char>>>) -> Json {
    Json::Object(
        seq![
            (
                "properties"@,
                Json::Object(props.map_values(|p: (Seq<char>, Seq<char>)| (p.0, Json::Object(seq![("type"@, Json::Str(p.1))])))),
            ),
        ] + match required {
            Some(r) => seq![("required"@, Json::Array(r.map_values(|x: Seq<char>| Json::Str(x))))],
            None => seq![],
        } + seq![("type"@, Json::Str("object"@))],
    )
}

fn type_object(t: &str) -> (r: JsonValue)
    ensures
        r@ == Json::Object(seq![("type"@, Json::Str(t@))]),
{
    let mut ms: Vec<(String, JsonValue)> = Vec::new();
    ms.push((owned("type"), JsonValue::Str(owned(t))));
    proof {
        reveal_with_fuel(json_members, 2);
    }
    assert(json_members(ms@) =~= seq![("type"@, Json::Str(t@))]);
    JsonValue::Object(ms)
}

/// The parameter schema of a tool (see `object_schema_json`).
pub fn object_schema(props: &Vec<(String, String)>, required: Option<&Vec<String>>) -> (r: JsonValue)
    ensures
        r@ == object_schema_json(
            props@.map_values(|p: (String, String)| (p.0@, p.1@)),
            match required {
                Some(v) => Some(string_views(v@)),
                None => None,
            },
        ),
{
    let ghost pv = props@.map_values(|p: (String, String)| (p.0@, p.1@));
    let ghost f = |p: (Seq<char>, Seq<char>)| (p.0, Json::Object(seq![("type"@, Json::Str(p.1))]));
    let mut ps: Vec<(String, JsonValue)> = Vec::new();
    for i in 0..props.len()
        invariant
            pv == props@.map_values(|p: (String, String)| (p.0@, p.1@)),
            f == (|p: (Seq<char>, Seq<char>)| (p.0, Json::Object(seq![("type"@, Json::Str(p.1))]))),
            json_members(ps@) == pv.take(i as int).map_values(f),
    {
        let ghost before = ps@;
        ps.push((props[i].0.clone(), type_object(props[i].1.as_str())));
        proof {
            assert(ps@.drop_last() == before);
            assert(pv.take(i + 1).map_values(f) =~= pv.take(i as int).map_values(f).push(f(pv[i as int])));
        }
    }
    assert(pv.take(props@.len() as int) =~= pv);
    let mut top: Vec<(String, JsonValue)> = Vec::new();
    top.push((owned("properties"), JsonValue::Object(ps)));
    let ghost t1 = json_members(top@);
    proof {
        reveal_with_fuel(json_members, 2);
    }
    match required {
        Some(v) => {
            let ghost rv = string_views(v@);
            let mut items: Vec<JsonValue> = Vec::new();
            for i in 0..v.len()
                invariant
                    rv == string_views(v@),
                    json_seq(items@) == rv.take(i as int).map_values(|x: Seq<char>| Json::Str(x)),
            {
                let ghost before = items@;
                items.push(JsonValue::Str(v[i].clone()));
                proof {
                    assert(items@.drop_last() == before);
                    assert(json_seq(items@) == json_seq(before).push(crate::json::json_of(items@.last())));
                    assert(rv[i as int] == v@[i as int]@);
                    assert(rv.take(i + 1).map_values(|x: Seq<char>| Json::Str(x)) =~= rv.take(i as int).map_values(
                        |x: Seq<char>| Json::Str(x),
                    ).push(Json::Str(rv[i as int])));
                }
            }
            assert(rv.take(v@.len() as int) =~= rv);
            let ghost before = top@;
            top.push((owned("required"), JsonValue::Array(items)));
            assert(top@.drop_last() == before);
        },
        None => {},
    }
    let ghost before = top@;
    top.push((owned("type"), JsonValue::Str(owned("object"))));
    assert(top@.drop_last() == before);
    let r = JsonValue::Object(top);
    proof {
        reveal_with_fuel(json_members, 4);
    }
    assert(json_members(top@) =~= object_schema_json(
        pv,
        match required {
            Some(v) => Some(string_views(v@)),
            None => None,
        },
    )->Object_0);
    r
}

} // verus!
