//! Which tools the agent has, which of them it may use, and the approval
//! check that stands before every tool call.
use vstd::prelude::*;
use crate::approval::{ApprovalContext, ApprovalDecision, ApprovalManager, spec_decision};
use crate::config::Config;
use crate::json::{Json, JsonValue};
use crate::strings::{concat, owned, str_eq, string_views};
use crate::tool_base::{ToolConfirmation, ToolResult, is_error_with};

verus! {

/// Where a tool of the registry comes from.
#[derive(Debug, Clone, Copy, PartialEq, Eq, Structural)]
pub enum ToolSource {
    /// A tool that comes with the agent (or a sub-agent).
    Builtin,
    /// A tool of an MCP server.
    Mcp,
}

/// The names after `name` is registered: a name that is there stays in its
/// place, a new one goes at the end.
pub open spec fn registered(names: Seq<Seq<char>>, name: Seq<char>) -> Seq<Seq<char>> {
    if names.contains(name) {
        names
    } else {
        names.push(name)
    }
}

/// The names in `names` that the allow-list admits (all of them when there is
/// no allow-list), in order.
pub open spec fn allowed_names(names: Seq<Seq<char>>, allow: Option<Seq<Seq<char>>>) -> Seq<Seq<char>>
    decreases names.len(),
{
    if names.len() == 0 {
        seq![]
    } else {
        let prev = allowed_names(names.drop_last(), allow);
        match allow {
            Some(a) => if a.contains(names.last()) {
                prev.push(names.last())
            } else {
                prev
            },
            None => prev.push(names.last()),
        }
    }
}

/// The names of the tools the agent has, built-in ones apart from those of MCP
/// servers, each name at most once in each part, and the allow-list of the
/// settings.
pub struct ToolRegistry {
    tools: Vec<String>,
    mcp_tools: Vec<String>,
    allowed_tools: Option<Vec<String>>,
}

fn find(v: &Vec<String>, name: &str) -> (r: Option<usize>)
    ensures
        match r {
            Some(i) => i < v@.len() && v@[i as int]@ == name@ && string_views(v@).contains(name@),
            None => !string_views(v@).contains(name@),
        },
{
    for i in 0..v.len()
        invariant
            forall|j: int| 0 <= j < i ==> v@[j]@ != name@,
    {
        if str_eq(v[i].as_str(), name) {
            assert(string_views(v@)[i as int] == name@);
            return Some(i);
        }
    }
    proof {
        if string_views(v@).contains(name@) {
            let j = choose|j: int| 0 <= j < v@.len() && string_views(v@)[j] == name@;
            assert(v@[j]@ == name@);
        }
    }
    None
}

impl ToolRegistry {
    /// The names of the built-in tools, in the order in which they were registered.
    pub closed spec fn spec_tools(&self) -> Seq<Seq<char>> {
        string_views(self.tools@)
    }

    /// The names of the MCP tools, in the order in which they were registered.
    pub closed spec fn spec_mcp_tools(&self) -> Seq<Seq<char>> {
        string_views(self.mcp_tools@)
    }

    /// The allow-list, if the settings have one.
    pub closed spec fn spec_allowed(&self) -> Option<Seq<Seq<char>>> {
        match self.allowed_tools {
            Some(v) => Some(string_views(v@)),
            None => None,
        }
    }

    /// The names the registry offers: its tools, then the MCP tools, those
    /// that the allow-list admits.
    pub open spec fn spec_offered(&self) -> Seq<Seq<char>> {
        allowed_names(self.spec_tools() + self.spec_mcp_tools(), self.spec_allowed())
    }

    #[verifier::type_invariant]
    closed spec fn inv(&self) -> bool {
        &&& self.spec_tools().no_duplicates()
        &&& self.spec_mcp_tools().no_duplicates()
    }

    /// An empty registry with the allow-list of the settings.
    pub fn new(allowed_tools: Option<Vec<String>>) -> (r: Self)
        ensures
            r.spec_tools() == Seq::<Seq<char>>::empty(),
            r.spec_mcp_tools() == Seq::<Seq<char>>::empty(),
            r.spec_allowed() == match allowed_tools {
                Some(v) => Some(string_views(v@)),
                None => None,
            },
    {
        let r = ToolRegistry { tools: Vec::new(), mcp_tools: Vec::new(), allowed_tools };
        assert(r.spec_tools() =~= Seq::<Seq<char>>::empty());
        assert(r.spec_mcp_tools() =~= Seq::<Seq<char>>::empty());
        r
    }

    /// Adds a built-in tool; a tool of the same name is replaced and keeps its place.
    pub fn register(&mut self, name: String)
        ensures
            final(self).spec_tools() == registered(old(self).spec_tools(), name@),
            final(self).spec_mcp_tools() == old(self).spec_mcp_tools(),
            final(self).spec_allowed() == old(self).spec_allowed(),
    {
        proof {
            use_type_invariant(&*self);
        }
        match find(&self.tools, name.as_str()) {
            Some(_) => {},
            None => {
                let ghost n = name@;
                let ghost prev = string_views(self.tools@);
                let mut tools: Vec<String> = Vec::new();
                std::mem::swap(&mut tools, &mut self.tools);
                tools.push(name);
                assert(string_views(tools@) =~= prev.push(n));
                self.tools = tools;
            },
        }
    }

    /// Adds a tool of an MCP server; a tool of the same name is replaced and keeps its place.
    pub fn register_mcp_tool(&mut self, name: String)
        ensures
            final(self).spec_mcp_tools() == registered(old(self).spec_mcp_tools(), name@),
            final(self).spec_tools() == old(self).spec_tools(),
            final(self).spec_allowed() == old(self).spec_allowed(),
    {
        proof {
            use_type_invariant(&*self);
        }
        match find(&self.mcp_tools, name.as_str()) {
            Some(_) => {},
            None => {
                let ghost n = name@;
                let ghost prev = string_views(self.mcp_tools@);
                let mut tools: Vec<String> = Vec::new();
                std::mem::swap(&mut tools, &mut self.mcp_tools);
                tools.push(name);
                assert(string_views(tools@) =~= prev.push(n));
                self.mcp_tools = tools;
            },
        }
    }

    /// Removes a built-in tool; says whether there was one of that name.
    pub fn unregister(&mut self, name: &str) -> (r: bool)
        ensures
            r == old(self).spec_tools().contains(name@),
            r ==> final(self).spec_tools() == old(self).spec_tools().remove(old(self).spec_tools().index_of(name@)),
            !r ==> final(self).spec_tools() == old(self).spec_tools(),
            !final(self).spec_tools().contains(name@),
            final(self).spec_mcp_tools() == old(self).spec_mcp_tools(),
            final(self).spec_allowed() == old(self).spec_allowed(),
    {
        proof {
            use_type_invariant(&*self);
        }
        match find(&self.tools, name) {
            Some(i) => {
                let ghost prev = string_views(self.tools@);
                let mut tools: Vec<String> = Vec::new();
                std::mem::swap(&mut tools, &mut self.tools);
                tools.remove(i);
                proof {
                    assert(prev[i as int] == name@);
                    assert(prev.contains(name@));
                    let k = prev.index_of(name@);
                    assert(prev[k] == name@);
                    assert(k == i);
                    assert(string_views(tools@) =~= prev.remove(i as int));
                    assert forall|j: int| 0 <= j < string_views(tools@).len() implies string_views(tools@)[j] != name@ by {
                        if j < i {
                            assert(string_views(tools@)[j] == prev[j]);
                        } else {
                            assert(string_views(tools@)[j] == prev[j + 1]);
                        }
                    }
                    assert(prev.remove(i as int).no_duplicates()) by {
                        assert forall|a: int, b: int| 0 <= a < string_views(tools@).len() && 0 <= b < string_views(tools@).len() && a != b
                            implies string_views(tools@)[a] != string_views(tools@)[b] by {
                            let a2 = if a < i { a } else { a + 1 };
                            let b2 = if b < i { b } else { b + 1 };
                            assert(string_views(tools@)[a] == prev[a2]);
                            assert(string_views(tools@)[b] == prev[b2]);
                        }
                    }
                }
                self.tools = tools;
                true
            },
            None => false,
        }
    }

    /// Where the tool `name` comes from: a built-in tool is found before an
    /// MCP tool of the same name.
    pub fn get(&self, name: &str) -> (r: Option<ToolSource>)
        ensures
            r == if self.spec_tools().contains(name@) {
                Some(ToolSource::Builtin)
            } else if self.spec_mcp_tools().contains(name@) {
                Some(ToolSource::Mcp)
            } else {
                None
            },
    {
        if find(&self.tools, name).is_some() {
            Some(ToolSource::Builtin)
        } else if find(&self.mcp_tools, name).is_some() {
            Some(ToolSource::Mcp)
        } else {
            None
        }
    }

    /// The names of the tools the agent may use: the built-in ones, then the
    /// MCP ones, without those that the allow-list leaves out.
    pub fn get_tools(&self) -> (r: Vec<String>)
        ensures
            string_views(r@) == allowed_names(self.spec_tools() + self.spec_mcp_tools(), self.spec_allowed()),
    {
        let ghost all = self.spec_tools() + self.spec_mcp_tools();
        let ghost allow = self.spec_allowed();
        let ghost n1: int = self.tools@.len() as int;
        let mut out: Vec<String> = Vec::new();
        for i in 0..self.tools.len()
            invariant
                all == self.spec_tools() + self.spec_mcp_tools(),
                allow == self.spec_allowed(),
                n1 == self.tools@.len() as int,
                string_views(out@) == allowed_names(all.take(i as int), allow),
        {
            let t = &self.tools[i];
            self.keep_allowed(&mut out, t);
            assert(all[i as int] == t@);
            assert(all.take(i + 1).drop_last() =~= all.take(i as int));
        }
        for j in 0..self.mcp_tools.len()
            invariant
                all == self.spec_tools() + self.spec_mcp_tools(),
                allow == self.spec_allowed(),
                n1 == self.tools@.len() as int,
                string_views(out@) == allowed_names(all.take(n1 + j), allow),
        {
            let t = &self.mcp_tools[j];
            self.keep_allowed(&mut out, t);
            assert(all[n1 + j] == t@);
            assert(all.take(n1 + j + 1).drop_last() =~= all.take(n1 + j));
        }
        assert(all.take(n1 + self.mcp_tools@.len() as int) =~= all);
        out
    }

    fn keep_allowed(&self, out: &mut Vec<String>, t: &String)
        ensures
            string_views(final(out)@) == match self.spec_allowed() {
                Some(a) => if a.contains(t@) {
                    string_views(old(out)@).push(t@)
                } else {
                    string_views(old(out)@)
                },
                None => string_views(old(out)@).push(t@),
            },
    {
        let keep = match &self.allowed_tools {
            Some(a) => find(a, t.as_str()).is_some(),
            None => true,
        };
        let ghost prev = string_views(out@);
        if keep {
            out.push(t.clone());
            assert(string_views(out@) =~= prev.push(t@));
        }
    }
}

/// The result for a call of a tool the registry does not have.
pub fn unknown_tool(name: &str) -> (r: ToolResult)
    ensures
        is_error_with(r, "Unknown tool: "@ + name@),
{
    ToolResult::error_result(concat("Unknown tool: ", name))
}

/// What stands before a tool call, when there is a policy to apply (`manager`)
/// and the tool asks for a confirmation: the policy's decision, and for a
/// decision to ask, the user's answer. `None` lets the call go ahead; else the
/// result to give in its place.
pub fn approval_gate(
    manager: Option<&ApprovalManager>,
    tool_name: &str,
    is_mutating: bool,
    confirmation: Option<ToolConfirmation>,
) -> (r: Option<ToolResult>)
    ensures
        match (manager, confirmation) {
            (Some(m), Some(c)) => match spec_decision(m.spec_policy(), is_mutating, c.is_dangerous) {
                ApprovalDecision::Approved => r is None,
                ApprovalDecision::Rejected => r matches Some(res) && is_error_with(res, "Operation rejected by safety policy"@),
                ApprovalDecision::NeedsConfirmation => r matches Some(res) && is_error_with(res, "User rejected the operation"@),
            },
            _ => r is None,
        },
{
    let m = match manager {
        Some(m) => m,
        None => return None,
    };
    let c = match confirmation {
        Some(c) => c,
        None => return None,
    };
    let ctx = ApprovalContext {
        tool_name: owned(tool_name),
        is_mutating,
        affected_paths: c.affected_paths,
        command: c.command,
        is_dangerous: c.is_dangerous,
    };
    match m.check_approval(&ctx) {
        ApprovalDecision::Rejected => Some(ToolResult::error_result(owned("Operation rejected by safety policy"))),
        ApprovalDecision::NeedsConfirmation => {
            if !m.request_confirmation(&ctx) {
                Some(ToolResult::error_result(owned("User rejected the operation")))
            } else {
                None
            }
        },
        ApprovalDecision::Approved => None,
    }
}

/// The entry of a tool in the list of tools the model is offered.
pub open spec fn spec_schema_entry(name: Seq<char>, description: Seq<char>, parameters: Json) -> Json {
    Json::Object(
        seq![("description"@, Json::Str(description)), ("name"@, Json::Str(name)), ("parameters"@, parameters)],
    )
}

/// The entry of a tool in the list of tools the model is offered: its name,
/// description and parameter schema.
pub fn schema_entry(name: &str, description: &str, parameters: JsonValue) -> (r: JsonValue)
    ensures
        r@ == spec_schema_entry(name@, description@, parameters@),
{
    let ghost p = parameters@;
    let mut ms: Vec<(String, JsonValue)> = Vec::new();
    ms.push((owned("description"), JsonValue::Str(owned(description))));
    ms.push((owned("name"), JsonValue::Str(owned(name))));
    ms.push((owned("parameters"), parameters));
    proof {
        reveal_with_fuel(crate::json::json_members, 4);
    }
    assert(crate::json::json_members(ms@) =~= spec_schema_entry(name@, description@, p)->Object_0);
    JsonValue::Object(ms)
}

/// The names of the tools a registry starts with: those that come with the
/// agent, then the sub-agents.
pub open spec fn default_tool_names() -> Seq<Seq<char>> {
    seq![
        "read_file"@,
        "write_file"@,
        "edit"@,
        "shell"@,
        "list_dir"@,
        "grep"@,
        "glob"@,
        "web_search"@,
        "web_fetch"@,
        "todos"@,
        "memory"@,
        "subagent_codebase_investigator"@,
        "subagent_code_reviewer"@,
    ]
}

proof fn lemma_default_names_distinct()
    ensures
        default_tool_names().no_duplicates(),
{
    let s = default_tool_names();
    reveal_strlit("read_file");
    reveal_strlit("write_file");
    reveal_strlit("edit");
    reveal_strlit("shell");
    reveal_strlit("list_dir");
    reveal_strlit("grep");
    reveal_strlit("glob");
    reveal_strlit("web_search");
    reveal_strlit("web_fetch");
    reveal_strlit("todos");
    reveal_strlit("memory");
    reveal_strlit("subagent_codebase_investigator");
    reveal_strlit("subagent_code_reviewer");
    assert(s[0].len() == 9 && s[1].len() == 10 && s[2].len() == 4 && s[3].len() == 5 && s[4].len() == 8);
    assert(s[5].len() == 4 && s[6].len() == 4 && s[7].len() == 10 && s[8].len() == 9 && s[9].len() == 5);
    assert(s[10].len() == 6 && s[11].len() == 30 && s[12].len() == 22);
    assert(s[2][0] != s[5][0] && s[2][0] != s[6][0] && s[5][1] != s[6][1]);
    assert(s[3][0] != s[9][0]);
    assert(s[0][0] != s[8][0]);
    assert(s[1][1] != s[7][1]);
    assert forall|i: int, j: int| 0 <= i < s.len() && 0 <= j < s.len() && i != j implies s[i] != s[j] by {
        if s[i] == s[j] {
            assert(s[i].len() == s[j].len());
            assert(s[i][0] == s[j][0]);
            assert(s[i][1] == s[j][1]);
        }
    }
}

/// The registry of the settings: the allow-list of the settings, the tools
/// that come with the agent, and the sub-agents.
pub fn create_default_registry(config: &Config) -> (r: ToolRegistry)
    ensures
        r.spec_tools() == default_tool_names(),
        r.spec_mcp_tools() == Seq::<Seq<char>>::empty(),
        r.spec_allowed() == match config.allowed_tools {
            Some(v) => Some(string_views(v@)),
            None => None,
        },
{
    let allowed = match &config.allowed_tools {
        Some(v) => {
            let mut c: Vec<String> = Vec::new();
            for i in 0..v.len()
                invariant
                    string_views(c@) == string_views(v@).take(i as int),
            {
                let ghost prev = string_views(c@);
                c.push(v[i].clone());
                assert(string_views(c@) =~= prev.push(v@[i as int]@));
                assert(string_views(v@).take(i + 1) =~= string_views(v@).take(i as int).push(v@[i as int]@));
            }
            assert(string_views(v@).take(v@.len() as int) =~= string_views(v@));
            Some(c)
        },
        None => None,
    };
    let mut registry = ToolRegistry::new(allowed);
    let mut names = crate::builtin::builtin_tool_names();
    let ghost b0 = string_views(names@);
    let subagents = crate::subagents::get_subagent_tools();
    names.push(subagents[0].name.clone());
    names.push(subagents[1].name.clone());
    assert(string_views(names@) =~= b0.push(subagents@[0].name@).push(subagents@[1].name@));
    let ghost all = default_tool_names();
    proof {
        lemma_default_names_distinct();
        reveal_strlit("read_file");
        reveal_strlit("write_file");
        reveal_strlit("edit");
        reveal_strlit("shell");
        reveal_strlit("list_dir");
        reveal_strlit("grep");
        reveal_strlit("glob");
        reveal_strlit("web_search");
        reveal_strlit("web_fetch");
        reveal_strlit("todos");
        reveal_strlit("memory");
        reveal_strlit("subagent_codebase_investigator");
        reveal_strlit("subagent_code_reviewer");
        assert(string_views(names@) =~= all);
    }
    for i in 0..names.len()
        invariant
            string_views(names@) == all,
            all.no_duplicates(),
            registry.spec_tools() == all.take(i as int),
            registry.spec_mcp_tools() == Seq::<Seq<char>>::empty(),
            registry.spec_allowed() == match config.allowed_tools {
                Some(v) => Some(string_views(v@)),
                None => None,
            },
    {
        proof {
            assert(all[i as int] == names@[i as int]@);
            if all.take(i as int).contains(all[i as int]) {
                let k = choose|k: int| 0 <= k < i && all.take(i as int)[k] == all[i as int];
                assert(all[k] == all[i as int]);
            }
        }
        registry.register(names[i].clone());
        assert(all.take(i + 1) =~= all.take(i as int).push(all[i as int]));
    }
    assert(all.take(all.len() as int) =~= all);
    registry
}

/// A tool that was just registered is found: `get` answers for it.
pub proof fn law_register_then_get(tools: Seq<Seq<char>>, name: Seq<char>)
    ensures
        registered(tools, name).contains(name),
        registered(registered(tools, name), name) == registered(tools, name),
{
    if !tools.contains(name) {
        assert(tools.push(name)[tools.len() as int] == name);
    }
}

} // verus!
