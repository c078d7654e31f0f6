//! Sub-agents: tools that hand a goal to a separate agent with a narrower set
//! of tools, and report how it went.
use vstd::prelude::*;
use crate::agent::{AgentEvent, AgentEventType, event_view, events_view};
use crate::cli::str_member_or;
use crate::config::Config;
use crate::json::{Json, JsonValue, get_str, json_get_str};
use crate::strings::{chars_of, concat, join_seq, join_strings, owned, push_str_chars, str_eq, string_of, string_views};
use crate::text::{trim, trim_chars};
use crate::tool_base::{ToolKind, ToolResult, is_error_with, is_success_with};

verus! {

/// What a sub-agent is for and what it may do.
pub struct SubagentDefinition {
    pub name: String,
    pub description: String,
    pub goal_prompt: String,
    pub allowed_tools: Option<Vec<String>>,
    pub max_turns: u32,
    pub timeout_seconds: u64,
}

/// The names of an optional list of tools.
pub open spec fn opt_names(o: Option<Vec<String>>) -> Option<Seq<Seq<char>>> {
    match o {
        Some(v) => Some(string_views(v@)),
        None => None,
    }
}

/// The definition has these texts, tools and limits.
pub open spec fn defines(
    d: SubagentDefinition,
    name: Seq<char>,
    description: Seq<char>,
    goal_prompt: Seq<char>,
    tools: Seq<Seq<char>>,
    max_turns: u32,
    timeout_seconds: u64,
) -> bool {
    &&& d.name@ == name
    &&& d.description@ == description
    &&& d.goal_prompt@ == goal_prompt
    &&& opt_names(d.allowed_tools) == Some(tools)
    &&& d.max_turns == max_turns
    &&& d.timeout_seconds == timeout_seconds
}

fn names(a: &str, b: &str, c: &str, d: Option<&str>) -> (r: Vec<String>)
    ensures
        string_views(r@) == match d {
            Some(x) => seq![a@, b@, c@, x@],
            None => seq![a@, b@, c@],
        },
{
    let mut v: Vec<String> = Vec::new();
    v.push(owned(a));
    v.push(owned(b));
    v.push(owned(c));
    match d {
        Some(x) => v.push(owned(x)),
        None => {},
    }
    assert(string_views(v@) =~= match d {
        Some(x) => seq![a@, b@, c@, x@],
        None => seq![a@, b@, c@],
    });
    v
}

/// The default sub-agents: one that investigates a codebase and one that
/// reviews code; both may only read.
pub fn get_default_subagent_definitions() -> (r: Vec<SubagentDefinition>)
    ensures
        r@.len() == 2,
        defines(
            r@[0],
            "codebase_investigator"@,
            "Investigates the codebase to answer questions about code structure, patterns, and implementations"@,
            "Use read_file, grep, glob, and list_dir to investigate. Do not modify any files."@,
            seq!["read_file"@, "grep"@, "glob"@, "list_dir"@],
            20,
            600,
        ),
        defines(
            r@[1],
            "code_reviewer"@,
            "Reviews code changes and provides feedback on quality, bugs, and improvements"@,
            "Use read_file, list_dir and grep to examine code. Do not modify files."@,
            seq!["read_file"@, "grep"@, "list_dir"@],
            10,
            300,
        ),
{
    let mut out: Vec<SubagentDefinition> = Vec::new();
    out.push(SubagentDefinition {
        name: owned("codebase_investigator"),
        description: owned(
            "Investigates the codebase to answer questions about code structure, patterns, and implementations",
        ),
        goal_prompt: owned("Use read_file, grep, glob, and list_dir to investigate. Do not modify any files."),
        allowed_tools: Some(names("read_file", "grep", "glob", Some("list_dir"))),
        max_turns: 20,
        timeout_seconds: 600,
    });
    out.push(SubagentDefinition {
        name: owned("code_reviewer"),
        description: owned("Reviews code changes and provides feedback on quality, bugs, and improvements"),
        goal_prompt: owned("Use read_file, list_dir and grep to examine code. Do not modify files."),
        allowed_tools: Some(names("read_file", "grep", "list_dir", None)),
        max_turns: 10,
        timeout_seconds: 300,
    });
    out
}

fn copy_strings(v: &Vec<String>) -> (r: Vec<String>)
    ensures
        string_views(r@) == string_views(v@),
{
    let mut out: Vec<String> = Vec::new();
    for i in 0..v.len()
        invariant
            string_views(out@) == string_views(v@).take(i as int),
    {
        let ghost prev = string_views(out@);
        out.push(v[i].clone());
        assert(string_views(out@) =~= prev.push(v@[i as int]@));
        assert(string_views(v@).take(i + 1) =~= string_views(v@).take(i as int).push(v@[i as int]@));
    }
    assert(string_views(v@).take(v@.len() as int) =~= string_views(v@));
    out
}

/// The task text that a sub-agent is given for `goal`.
pub open spec fn spec_subagent_prompt(goal_prompt: Seq<char>, goal: Seq<char>) -> Seq<char> {
    "You are a specialized sub-agent with a specific task to complete.\n\n"@ + goal_prompt + "\n\nYOUR TASK:\n"@ + goal
        + "\n\nIMPORTANT:\n- Focus only on completing the specified task\n- Do not engage in unrelated actions\n- Once complete, provide final response\n- Be concise and direct"@
}

/// What is gathered from the events of a sub-agent's run: the tools it called,
/// its answer, and whether it reported an error.
pub struct RunSummary {
    pub tools: Seq<Seq<char>>,
    pub response: Seq<char>,
    pub errored: bool,
}

/// The summary after one more event: a tool call adds the tool's name, a
/// completed text becomes the answer, the end gives its `response` when there
/// is no answer yet, and an error becomes the answer and marks the run.
pub open spec fn summary_step(s: RunSummary, e: (AgentEventType, Json)) -> RunSummary {
    match e.0 {
        AgentEventType::ToolCallStart => match json_get_str(e.1, "name"@) {
            Some(n) => RunSummary { tools: s.tools.push(n), ..s },
            None => s,
        },
        AgentEventType::TextComplete => match json_get_str(e.1, "content"@) {
            Some(c) => RunSummary { response: c, ..s },
            None => s,
        },
        AgentEventType::AgentEnd => if s.response.len() == 0 {
            RunSummary { response: str_member_or(e.1, "response"@, seq![]), ..s }
        } else {
            s
        },
        AgentEventType::AgentError => RunSummary {
            response: "Sub-agent error: "@ + str_member_or(e.1, "error"@, "Unknown"@),
            errored: true,
            ..s
        },
        _ => s,
    }
}

/// The summary of a run's events.
pub open spec fn summarize(es: Seq<(AgentEventType, Json)>) -> RunSummary
    decreases es.len(),
{
    if es.len() == 0 {
        RunSummary { tools: seq![], response: seq![], errored: false }
    } else {
        summary_step(summarize(es.drop_last()), es.last())
    }
}

/// How a sub-agent's run ended.
pub enum SubagentRun {
    /// It ran to its end and reported these events.
    Finished(Vec<AgentEvent>),
    /// It could not run; the error's text.
    Failed(String),
    /// It did not finish in time.
    TimedOut,
}

/// The report of a run: the termination reason, the tools called, and the answer.
pub open spec fn spec_report(name: Seq<char>, reason: Seq<char>, tools: Seq<Seq<char>>, response: Seq<char>) -> Seq<char> {
    "Sub-agent '"@ + name + "' completed.\nTermination: "@ + reason + "\nTools called: "@ + (if tools.len() == 0 {
        "None"@
    } else {
        join_seq(tools, ", "@)
    }) + "\n\nResult:\n"@ + (if response.len() == 0 {
        "No response"@
    } else {
        response
    })
}

/// The termination reason, tools and answer of a run.
pub open spec fn run_outcome(run: SubagentRun) -> (Seq<char>, Seq<Seq<char>>, Seq<char>) {
    match run {
        SubagentRun::Finished(es) => {
            let s = summarize(events_view(es@));
            (if s.errored { "error"@ } else { "goal"@ }, s.tools, s.response)
        },
        SubagentRun::Failed(e) => ("error"@, seq![], "Sub-agent failed: "@ + e@),
        SubagentRun::TimedOut => ("timeout"@, seq![], "Sub-agent timed out"@),
    }
}

/// A tool that runs a sub-agent.
pub struct SubagentTool {
    pub definition: SubagentDefinition,
    pub name: String,
    pub description: String,
}

fn gather(events: &Vec<AgentEvent>) -> (r: (Vec<String>, String, bool))
    ensures
        string_views(r.0@) == summarize(events_view(events@)).tools,
        r.1@ == summarize(events_view(events@)).response,
        r.2 == summarize(events_view(events@)).errored,
{
    let ghost es = events_view(events@);
    let mut tools: Vec<String> = Vec::new();
    let mut response = String::new();
    let mut errored = false;
    proof {
        reveal_strlit("");
    }
    for i in 0..events.len()
        invariant
            es == events_view(events@),
            string_views(tools@) == summarize(es.take(i as int)).tools,
            response@ == summarize(es.take(i as int)).response,
            errored == summarize(es.take(i as int)).errored,
    {
        proof {
            reveal_strlit("");
            assert(es.take(i + 1).drop_last() == es.take(i as int));
            assert(es.take(i + 1).last() == event_view(events@[i as int]));
        }
        let e = &events[i];
        match e.event_type {
            AgentEventType::ToolCallStart => {
                match get_str(&e.data, "name") {
                    Some(n) => {
                        let ghost prev = string_views(tools@);
                        tools.push(owned(n));
                        assert(string_views(tools@) =~= prev.push(n@));
                    },
                    None => {},
                }
            },
            AgentEventType::TextComplete => {
                match get_str(&e.data, "content") {
                    Some(c) => response = owned(c),
                    None => {},
                }
            },
            AgentEventType::AgentEnd => {
                if response.unicode_len() == 0 {
                    response = match get_str(&e.data, "response") {
                        Some(t) => owned(t),
                        None => String::new(),
                    };
                }
            },
            AgentEventType::AgentError => {
                errored = true;
                let m = match get_str(&e.data, "error") {
                    Some(t) => owned(t),
                    None => owned("Unknown"),
                };
                response = concat("Sub-agent error: ", m.as_str());
            },
            _ => {},
        }
    }
    assert(es.take(events@.len() as int) == es);
    (tools, response, errored)
}

impl SubagentTool {
    /// The tool for a definition: named `subagent_<name>`, described as
    /// `subagent_<description>`.
    pub fn new(definition: SubagentDefinition) -> (r: Self)
        ensures
            r.name@ == "subagent_"@ + definition.name@,
            r.description@ == "subagent_"@ + definition.description@,
            r.definition == definition,
    {
        let name = concat("subagent_", definition.name.as_str());
        let description = concat("subagent_", definition.description.as_str());
        SubagentTool { definition, name, description }
    }

    /// Sub-agents count as writing tools.
    pub fn kind(&self) -> (r: ToolKind)
        ensures
            r == ToolKind::Write,
    {
        ToolKind::Write
    }

    /// The parameters of a call: the goal, as a JSON schema.
    pub fn schema(&self) -> (r: JsonValue)
        ensures
            r@ == crate::tool_base::object_schema_json(seq![("goal"@, "string"@)], Some(seq!["goal"@])),
    {
        let mut props: Vec<(String, String)> = Vec::new();
        props.push((owned("goal"), owned("string")));
        assert(props@.map_values(|p: (String, String)| (p.0@, p.1@)) =~= seq![("goal"@, "string"@)]);
        let mut required: Vec<String> = Vec::new();
        required.push(owned("goal"));
        assert(string_views(required@) =~= seq!["goal"@]);
        crate::tool_base::object_schema(&props, Some(&required))
    }

    /// Running a sub-agent always counts as mutating.
    pub fn is_mutating(&self, params: &JsonValue) -> (r: bool)
        ensures
            r,
    {
        true
    }

    /// The settings a sub-agent runs with: those of the agent, with the
    /// definition's turn limit and, where it has one, its list of tools.
    pub fn sub_config(&self, base: Config) -> (r: Config)
        ensures
            r.max_turns == self.definition.max_turns,
            opt_names(r.allowed_tools) == match self.definition.allowed_tools {
                Some(v) => Some(string_views(v@)),
                None => opt_names(base.allowed_tools),
            },
            r.model_name == base.model_name,
            r.approval == base.approval,
            r.cwd == base.cwd,
            r.hooks_enabled == base.hooks_enabled,
            r.hooks == base.hooks,
            r.mcp_servers == base.mcp_servers,
    {
        let mut c = base;
        c.max_turns = self.definition.max_turns;
        match &self.definition.allowed_tools {
            Some(v) => c.allowed_tools = Some(copy_strings(v)),
            None => {},
        }
        c
    }

    /// The task for the sub-agent, or the result to give at once when the goal
    /// is blank.
    pub fn prepare(&self, goal: &str) -> (r: Result<String, ToolResult>)
        ensures
            match r {
                Ok(p) => trim(goal@).len() > 0 && p@ == spec_subagent_prompt(self.definition.goal_prompt@, goal@),
                Err(res) => trim(goal@).len() == 0 && is_error_with(res, "No goal specified for sub-agent"@),
            },
    {
        let t = trim_chars(&chars_of(goal));
        if t.len() == 0 {
            return Err(ToolResult::error_result(owned("No goal specified for sub-agent")));
        }
        let mut v = chars_of("You are a specialized sub-agent with a specific task to complete.\n\n");
        push_str_chars(&mut v, self.definition.goal_prompt.as_str());
        push_str_chars(&mut v, "\n\nYOUR TASK:\n");
        push_str_chars(&mut v, goal);
        push_str_chars(
            &mut v,
            "\n\nIMPORTANT:\n- Focus only on completing the specified task\n- Do not engage in unrelated actions\n- Once complete, provide final response\n- Be concise and direct",
        );
        Ok(string_of(&v))
    }

    /// The result of a run: the report, as an error when the run ended in an
    /// error and as a success otherwise (a time-out included).
    pub fn finish(&self, run: SubagentRun) -> (r: ToolResult)
        ensures
            ({
                let (reason, tools, response) = run_outcome(run);
                let text = spec_report(self.definition.name@, reason, tools, response);
                if reason == "error"@ {
                    is_error_with(r, text)
                } else {
                    is_success_with(r, text)
                }
            }),
    {
        let ghost outcome = run_outcome(run);
        let (reason, tools, response) = match run {
            SubagentRun::Finished(events) => {
                let (tools, response, errored) = gather(&events);
                let reason = if errored { owned("error") } else { owned("goal") };
                (reason, tools, response)
            },
            SubagentRun::Failed(e) => (owned("error"), Vec::new(), concat("Sub-agent failed: ", e.as_str())),
            SubagentRun::TimedOut => (owned("timeout"), Vec::new(), owned("Sub-agent timed out")),
        };
        assert(string_views(tools@) == outcome.1);
        let mut v = chars_of("Sub-agent '");
        push_str_chars(&mut v, self.definition.name.as_str());
        push_str_chars(&mut v, "' completed.\nTermination: ");
        push_str_chars(&mut v, reason.as_str());
        push_str_chars(&mut v, "\nTools called: ");
        if tools.len() == 0 {
            push_str_chars(&mut v, "None");
        } else {
            let j = join_strings(&tools, ", ");
            push_str_chars(&mut v, j.as_str());
        }
        push_str_chars(&mut v, "\n\nResult:\n");
        if response.unicode_len() == 0 {
            push_str_chars(&mut v, "No response");
        } else {
            push_str_chars(&mut v, response.as_str());
        }
        let text = string_of(&v);
        proof {
            reveal_strlit("error");
            reveal_strlit("goal");
            reveal_strlit("timeout");
            assert("goal"@.len() == 4 && "error"@.len() == 5 && "timeout"@.len() == 7);
        }
        if str_eq(reason.as_str(), "error") {
            ToolResult::error_result(text)
        } else {
            ToolResult::success_result(text)
        }
    }
}

/// The sub-agent tools that come with the agent, one per default definition.
pub fn get_subagent_tools() -> (r: Vec<SubagentTool>)
    ensures
        r@.len() == 2,
        r@[0].name@ == "subagent_codebase_investigator"@,
        r@[1].name@ == "subagent_code_reviewer"@,
        forall|i: int| 0 <= i < 2 ==> (#[trigger] r@[i]).name@ == "subagent_"@ + r@[i].definition.name@
            && r@[i].description@ == "subagent_"@ + r@[i].definition.description@,
        defines(
            r@[0].definition,
            "codebase_investigator"@,
            "Investigates the codebase to answer questions about code structure, patterns, and implementations"@,
            "Use read_file, grep, glob, and list_dir to investigate. Do not modify any files."@,
            seq!["read_file"@, "grep"@, "glob"@, "list_dir"@],
            20,
            600,
        ),
        defines(
            r@[1].definition,
            "code_reviewer"@,
            "Reviews code changes and provides feedback on quality, bugs, and improvements"@,
            "Use read_file, list_dir and grep to examine code. Do not modify files."@,
            seq!["read_file"@, "grep"@, "list_dir"@],
            10,
            300,
        ),
{
    let mut defs = get_default_subagent_definitions();
    let second = defs.pop().unwrap();
    let first = defs.pop().unwrap();
    let mut out: Vec<SubagentTool> = Vec::new();
    out.push(SubagentTool::new(first));
    out.push(SubagentTool::new(second));
    proof {
        reveal_strlit("subagent_");
        reveal_strlit("codebase_investigator");
        reveal_strlit("code_reviewer");
        reveal_strlit("subagent_codebase_investigator");
        reveal_strlit("subagent_code_reviewer");
        assert("subagent_"@ + "codebase_investigator"@ =~= "subagent_codebase_investigator"@);
        assert("subagent_"@ + "code_reviewer"@ =~= "subagent_code_reviewer"@);
    }
    out
}

/// A run counts as failed exactly when one of its events is an error,
/// whatever comes after it.
pub proof fn law_error_marks_the_run(es: Seq<(AgentEventType, Json)>)
    ensures
        summarize(es).errored <==> exists|i: int| 0 <= i < es.len() && (#[trigger] es[i]).0 == AgentEventType::AgentError,
    decreases es.len(),
{
    if es.len() > 0 {
        let init = es.drop_last();
        law_error_marks_the_run(init);
        if summarize(es).errored {
            if es.last().0 != AgentEventType::AgentError {
                let i = choose|i: int| 0 <= i < init.len() && (#[trigger] init[i]).0 == AgentEventType::AgentError;
                assert(es[i] == init[i]);
            } else {
                assert(es[es.len() - 1].0 == AgentEventType::AgentError);
            }
        } else {
            assert forall|i: int| 0 <= i < es.len() implies (#[trigger] es[i]).0 != AgentEventType::AgentError by {
                if i < es.len() - 1 {
                    assert(es[i] == init[i]);
                }
            }
        }
    }
}

} // verus!
