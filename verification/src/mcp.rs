//! MCP servers: the state of the connection to each, the tools each offers,
//! and the requests that calling a tool makes.
use vstd::prelude::*;
use crate::config::{Config, MCPServerConfig, MCPToolConfig, server_view, servers_view};
use crate::json::{Json, JsonValue};
use crate::mcp_tool::MCPTool;
use crate::strings::{chars_of, concat, owned, push_str_chars, str_eq, string_of, decimal, u64_to_string};

verus! {

/// The state of the connection to an MCP server.
#[derive(Debug, Clone, Copy, PartialEq, Eq, Structural)]
pub enum MCPServerStatus {
    Disconnected,
    Connecting,
    Connected,
    Error,
}

/// The word under which a status is listed.
pub open spec fn status_label(s: MCPServerStatus) -> Seq<char> {
    match s {
        MCPServerStatus::Connected => "connected"@,
        MCPServerStatus::Connecting => "connecting"@,
        MCPServerStatus::Disconnected => "disconnected"@,
        MCPServerStatus::Error => "error"@,
    }
}

fn status_text(s: MCPServerStatus) -> (r: String)
    ensures
        r@ == status_label(s),
{
    match s {
        MCPServerStatus::Connected => owned("connected"),
        MCPServerStatus::Connecting => owned("connecting"),
        MCPServerStatus::Disconnected => owned("disconnected"),
        MCPServerStatus::Error => owned("error"),
    }
}

/// A tool that a server offers.
pub struct MCPToolInfo {
    pub name: String,
    pub description: String,
    pub input_schema: JsonValue,
    pub server_name: String,
}

/// The model of a tool: name, description, parameters, server.
pub type ToolModel = (Seq<char>, Seq<char>, Json, Seq<char>);

/// The model of a tool.
pub open spec fn tool_info_view(t: MCPToolInfo) -> ToolModel {
    (t.name@, t.description@, t.input_schema@, t.server_name@)
}

/// The models of a list of tools.
pub open spec fn tool_infos_view(ts: Seq<MCPToolInfo>) -> Seq<ToolModel> {
    ts.map_values(|t: MCPToolInfo| tool_info_view(t))
}

impl MCPToolInfo {
    /// A copy of this description.
    pub fn copy(&self) -> (r: MCPToolInfo)
        ensures
            tool_info_view(r) == tool_info_view(*self),
    {
        MCPToolInfo {
            name: self.name.clone(),
            description: self.description.clone(),
            input_schema: self.input_schema.deep_clone(),
            server_name: self.server_name.clone(),
        }
    }
}

/// The position of the tool named `name` in `ts`, or -1.
pub open spec fn tool_position(ts: Seq<ToolModel>, name: Seq<char>) -> int
    decreases ts.len(),
{
    if ts.len() == 0 {
        -1
    } else if ts.last().0 == name {
        ts.len() - 1
    } else {
        tool_position(ts.drop_last(), name)
    }
}

proof fn lemma_tool_position(ts: Seq<ToolModel>, name: Seq<char>)
    ensures
        -1 <= tool_position(ts, name) < ts.len(),
        tool_position(ts, name) >= 0 ==> ts[tool_position(ts, name)].0 == name,
        tool_position(ts, name) == -1 <==> forall|i: int| 0 <= i < ts.len() ==> (#[trigger] ts[i]).0 != name,
    decreases ts.len(),
{
    if ts.len() > 0 {
        lemma_tool_position(ts.drop_last(), name);
        if ts.last().0 != name {
            assert forall|i: int| 0 <= i < ts.len() - 1 implies (#[trigger] ts[i]).0 == ts.drop_last()[i].0 by {}
        }
    }
}

proof fn lemma_tool_position_at(ts: Seq<ToolModel>, name: Seq<char>, p: int)
    requires
        0 <= p < ts.len(),
        ts[p].0 == name,
        forall|k: int| p < k < ts.len() ==> (#[trigger] ts[k]).0 != name,
    ensures
        tool_position(ts, name) == p,
    decreases ts.len(),
{
    if p < ts.len() - 1 {
        lemma_tool_position_at(ts.drop_last(), name, p);
    }
}

/// The tools after `t` is added: a tool of the same name is replaced in place,
/// a new one goes at the end.
pub open spec fn put_tool(ts: Seq<ToolModel>, t: ToolModel) -> Seq<ToolModel> {
    let i = tool_position(ts, t.0);
    if i >= 0 {
        ts.update(i, t)
    } else {
        ts.push(t)
    }
}

/// The tools that a server's configuration lists, each described as a tool of
/// the server `server` (a later tool of the same name replaces an earlier one).
pub open spec fn configured_tools(cfg: Seq<MCPToolConfig>, server: Seq<char>) -> Seq<ToolModel>
    decreases cfg.len(),
{
    if cfg.len() == 0 {
        seq![]
    } else {
        let t = cfg.last();
        put_tool(configured_tools(cfg.drop_last(), server), (t.name@, t.description@, t.input_schema@, server))
    }
}

/// How the program is to reach a server.
pub enum Transport {
    /// Start this command and talk over its standard streams.
    Stdio(String),
    /// Talk to this URL over HTTP.
    Http(String),
}

/// What calling a tool of a server comes to.
pub enum ToolCallPlan {
    /// Post this JSON request to this URL; its JSON answer is the result.
    Http(String, JsonValue),
    /// The result, without any request.
    Local(JsonValue),
}

/// The request that calls `tool` with `arguments`.
pub open spec fn call_payload(tool: Seq<char>, arguments: Json) -> Json {
    Json::Object(seq![("arguments"@, arguments), ("tool"@, Json::Str(tool))])
}

/// The result of calling a tool of a server that is reached over its standard
/// streams (no request is made yet).
pub open spec fn local_call_result(tool: Seq<char>) -> Json {
    Json::Object(
        seq![
            ("is_error"@, Json::Bool(false)),
            ("output"@, Json::Str("MCP stdio tool '"@ + tool + "' invoked (placeholder)"@)),
        ],
    )
}

/// The result that stands for an answer that is no JSON.
pub open spec fn invalid_response_json() -> Json {
    Json::Object(
        seq![
            ("error"@, Json::Str("invalid json response"@)),
            ("is_error"@, Json::Bool(true)),
            ("output"@, Json::Str(seq![])),
        ],
    )
}

/// The result that stands for an answer that is no JSON.
pub fn invalid_response() -> (r: JsonValue)
    ensures
        r@ == invalid_response_json(),
{
    let mut ms: Vec<(String, JsonValue)> = Vec::new();
    ms.push((owned("error"), JsonValue::Str(owned("invalid json response"))));
    ms.push((owned("is_error"), JsonValue::Bool(true)));
    ms.push((owned("output"), JsonValue::Str(String::new())));
    proof {
        reveal_with_fuel(crate::json::json_members, 4);
    }
    assert(crate::json::json_members(ms@) =~= invalid_response_json()->Object_0);
    JsonValue::Object(ms)
}

/// The client of one MCP server.
pub struct MCPClient {
    name: String,
    config: MCPServerConfig,
    cwd: String,
    status: MCPServerStatus,
    tools: Vec<MCPToolInfo>,
}

impl MCPClient {
    /// The name of the server.
    pub closed spec fn spec_name(&self) -> Seq<char> {
        self.name@
    }

    /// The configuration of the server.
    pub closed spec fn spec_config(&self) -> MCPServerConfig {
        self.config
    }

    /// The directory the server's command runs in when its configuration names none.
    pub closed spec fn spec_cwd(&self) -> Seq<char> {
        self.cwd@
    }

    /// The name of the server.
    pub fn name(&self) -> (r: &str)
        ensures
            r@ == self.spec_name(),
    {
        self.name.as_str()
    }

    /// The configuration of the server.
    pub fn config(&self) -> (r: &MCPServerConfig)
        ensures
            *r == self.spec_config(),
    {
        &self.config
    }

    /// The directory the server's command runs in when its configuration names none.
    pub fn cwd(&self) -> (r: &str)
        ensures
            r@ == self.spec_cwd(),
    {
        self.cwd.as_str()
    }

    /// The state of the connection.
    pub closed spec fn spec_status(&self) -> MCPServerStatus {
        self.status
    }

    /// The tools the server offers, as far as they are known.
    pub closed spec fn spec_tools(&self) -> Seq<ToolModel> {
        tool_infos_view(self.tools@)
    }

    /// A client that is not connected and knows no tools.
    pub fn new(name: String, config: MCPServerConfig, cwd: String) -> (r: Self)
        ensures
            r.spec_name() == name@,
            r.spec_config() == config,
            r.spec_cwd() == cwd@,
            r.spec_status() == MCPServerStatus::Disconnected,
            r.spec_tools() == Seq::<ToolModel>::empty(),
    {
        let r = MCPClient { name, config, cwd, status: MCPServerStatus::Disconnected, tools: Vec::new() };
        assert(r.spec_tools() =~= Seq::<ToolModel>::empty());
        r
    }

    pub fn status(&self) -> (r: MCPServerStatus)
        ensures
            r == self.spec_status(),
    {
        self.status
    }

    /// Copies of the tools the server offers.
    pub fn tools(&self) -> (r: Vec<MCPToolInfo>)
        ensures
            tool_infos_view(r@) == self.spec_tools(),
    {
        let mut out: Vec<MCPToolInfo> = Vec::new();
        for i in 0..self.tools.len()
            invariant
                tool_infos_view(out@) == tool_infos_view(self.tools@).take(i as int),
        {
            let ghost prev = tool_infos_view(out@);
            let t = self.tools[i].copy();
            out.push(t);
            assert(tool_infos_view(out@) =~= prev.push(tool_info_view(self.tools@[i as int])));
            assert(tool_infos_view(self.tools@).take(i + 1) =~= tool_infos_view(self.tools@).take(i as int).push(
                tool_info_view(self.tools@[i as int]),
            ));
        }
        assert(tool_infos_view(self.tools@).take(self.tools@.len() as int) =~= tool_infos_view(self.tools@));
        out
    }

    /// How long to wait for the server at start-up, in seconds (at least one).
    pub fn startup_timeout(&self) -> (r: u64)
        ensures
            r == if self.spec_config().startup_timeout_sec >= 1 { self.spec_config().startup_timeout_sec } else { 1 },
    {
        if self.config.startup_timeout_sec >= 1 {
            self.config.startup_timeout_sec
        } else {
            1
        }
    }

    /// Starts connecting. A connected client stays as it is (`Ok(None)`);
    /// otherwise it is marked connecting and the answer says how to reach the
    /// server: by its command, else by its URL. A server with neither is
    /// marked as failed, with an error.
    pub fn begin_connect(&mut self) -> (r: Result<Option<Transport>, String>)
        ensures
            final(self).spec_name() == old(self).spec_name(),
            final(self).spec_config() == old(self).spec_config(),
            final(self).spec_cwd() == old(self).spec_cwd(),
            final(self).spec_tools() == old(self).spec_tools(),
            old(self).spec_status() == MCPServerStatus::Connected ==> (r matches Ok(None) && final(self).spec_status()
                == MCPServerStatus::Connected),
            old(self).spec_status() != MCPServerStatus::Connected ==> match old(self).spec_config().command {
                Some(c) => (r matches Ok(Some(Transport::Stdio(x))) && x@ == c@) && final(self).spec_status()
                    == MCPServerStatus::Connecting,
                None => match old(self).spec_config().url {
                    Some(u) => (r matches Ok(Some(Transport::Http(x))) && x@ == u@) && final(self).spec_status()
                        == MCPServerStatus::Connecting,
                    None => (r matches Err(e) && e@ == "MCP server '"@ + old(self).spec_name() + "' has no command or URL"@)
                        && final(self).spec_status() == MCPServerStatus::Error,
                },
            },
    {
        if self.status == MCPServerStatus::Connected {
            return Ok(None);
        }
        self.status = MCPServerStatus::Connecting;
        match &self.config.command {
            Some(c) => Ok(Some(Transport::Stdio(c.clone()))),
            None => match &self.config.url {
                Some(u) => Ok(Some(Transport::Http(u.clone()))),
                None => {
                    self.status = MCPServerStatus::Error;
                    let mut v = chars_of("MCP server '");
                    push_str_chars(&mut v, self.name.as_str());
                    push_str_chars(&mut v, "' has no command or URL");
                    Err(string_of(&v))
                },
            },
        }
    }

    /// Ends connecting: when the server was reached the client is connected
    /// and knows the tools its configuration lists; otherwise it is marked as
    /// failed.
    pub fn finish_connect(&mut self, reached: bool)
        ensures
            final(self).spec_name() == old(self).spec_name(),
            final(self).spec_config() == old(self).spec_config(),
            final(self).spec_cwd() == old(self).spec_cwd(),
            reached ==> final(self).spec_status() == MCPServerStatus::Connected && final(self).spec_tools()
                == configured_tools(old(self).spec_config().tools@, old(self).spec_name()),
            !reached ==> final(self).spec_status() == MCPServerStatus::Error && final(self).spec_tools()
                == old(self).spec_tools(),
    {
        if reached {
            self.load_tools_from_config();
            self.status = MCPServerStatus::Connected;
        } else {
            self.status = MCPServerStatus::Error;
        }
    }

    /// Replaces the known tools with those that the configuration lists.
    pub fn load_tools_from_config(&mut self)
        ensures
            final(self).spec_name() == old(self).spec_name(),
            final(self).spec_config() == old(self).spec_config(),
            final(self).spec_cwd() == old(self).spec_cwd(),
            final(self).spec_status() == old(self).spec_status(),
            final(self).spec_tools() == configured_tools(old(self).spec_config().tools@, old(self).spec_name()),
    {
        let mut tools: Vec<MCPToolInfo> = Vec::new();
        let ghost cfg = self.config.tools@;
        let ghost server = self.name@;
        for i in 0..self.config.tools.len()
            invariant
                cfg == self.config.tools@,
                server == self.name@,
                tool_infos_view(tools@) == configured_tools(cfg.take(i as int), server),
        {
            let t = &self.config.tools[i];
            let info = MCPToolInfo {
                name: t.name.clone(),
                description: t.description.clone(),
                input_schema: t.input_schema.deep_clone(),
                server_name: self.name.clone(),
            };
            let ghost tv = tool_info_view(info);
            let ghost prev = tool_infos_view(tools@);
            proof {
                lemma_tool_position(prev, tv.0);
                assert(cfg.take(i + 1).drop_last() =~= cfg.take(i as int));
                assert(cfg.take(i + 1).last() == cfg[i as int]);
            }
            let mut j: usize = tools.len();
            while j > 0
                invariant
                    prev == tool_infos_view(tools@),
                    j <= tools@.len(),
                    info.name@ == tv.0,
                    forall|k: int| j <= k < prev.len() ==> (#[trigger] prev[k]).0 != tv.0,
                ensures
                    j <= tools@.len(),
                    forall|k: int| j <= k < prev.len() ==> (#[trigger] prev[k]).0 != tv.0,
                    j > 0 ==> prev[j - 1].0 == tv.0,
                decreases j,
            {
                if str_eq(tools[j - 1].name.as_str(), info.name.as_str()) {
                    break;
                }
                j = j - 1;
            }
            if j > 0 {
                proof {
                    lemma_tool_position_at(prev, tv.0, j - 1);
                }
                tools.set(j - 1, info);
                assert(tool_infos_view(tools@) =~= prev.update(j - 1, tv));
            } else {
                proof {
                    assert(tool_position(prev, tv.0) == -1);
                }
                tools.push(info);
                assert(tool_infos_view(tools@) =~= prev.push(tv));
            }
        }
        assert(cfg.take(cfg.len() as int) =~= cfg);
        self.tools = tools;
    }
}

impl MCPClient {
    /// What calling `tool_name` with `arguments` comes to: an error when the
    /// client is not connected; a request to the server's URL when it has one;
    /// else the placeholder result of a server reached over its standard streams.
    pub fn call_tool(&self, tool_name: &str, arguments: JsonValue) -> (r: Result<ToolCallPlan, String>)
        ensures
            self.spec_status() != MCPServerStatus::Connected ==> (r matches Err(e) && e@ == "Not connected to server "@
                + self.spec_name()),
            self.spec_status() == MCPServerStatus::Connected ==> match self.spec_config().url {
                Some(u) => r matches Ok(ToolCallPlan::Http(x, p)) && x@ == u@ && p@ == call_payload(tool_name@, arguments@),
                None => r matches Ok(ToolCallPlan::Local(j)) && j@ == local_call_result(tool_name@),
            },
    {
        if self.status != MCPServerStatus::Connected {
            return Err(concat("Not connected to server ", self.name.as_str()));
        }
        match &self.config.url {
            Some(u) => {
                let ghost a = arguments@;
                let mut ms: Vec<(String, JsonValue)> = Vec::new();
                ms.push((owned("arguments"), arguments));
                ms.push((owned("tool"), JsonValue::Str(owned(tool_name))));
                proof {
                    reveal_with_fuel(crate::json::json_members, 3);
                }
                assert(crate::json::json_members(ms@) =~= call_payload(tool_name@, a)->Object_0);
                Ok(ToolCallPlan::Http(u.clone(), JsonValue::Object(ms)))
            },
            None => {
                let mut v = chars_of("MCP stdio tool '");
                push_str_chars(&mut v, tool_name);
                push_str_chars(&mut v, "' invoked (placeholder)");
                let mut ms: Vec<(String, JsonValue)> = Vec::new();
                ms.push((owned("is_error"), JsonValue::Bool(false)));
                ms.push((owned("output"), JsonValue::Str(string_of(&v))));
                proof {
                    reveal_with_fuel(crate::json::json_members, 3);
                }
                assert(crate::json::json_members(ms@) =~= local_call_result(tool_name@)->Object_0);
                Ok(ToolCallPlan::Local(JsonValue::Object(ms)))
            },
        }
    }

    /// Forgets the tools and marks the client as not connected.
    pub fn disconnect(&mut self)
        ensures
            final(self).spec_name() == old(self).spec_name(),
            final(self).spec_config() == old(self).spec_config(),
            final(self).spec_cwd() == old(self).spec_cwd(),
            final(self).spec_status() == MCPServerStatus::Disconnected,
            final(self).spec_tools() == Seq::<ToolModel>::empty(),
    {
        self.tools = Vec::new();
        self.status = MCPServerStatus::Disconnected;
        assert(self.spec_tools() =~= Seq::<ToolModel>::empty());
    }
}

/// The names of a list of clients.
pub open spec fn client_names(cs: Seq<MCPClient>) -> Seq<Seq<char>> {
    cs.map_values(|c: MCPClient| c.spec_name())
}

/// The servers of the configuration that are switched on, in order.
pub open spec fn enabled_servers(servers: Seq<MCPServerConfig>) -> Seq<MCPServerConfig> {
    servers.filter(|c: MCPServerConfig| c.enabled)
}

/// The entry under which a server is listed: its name, its status, and how
/// many tools it offers.
pub open spec fn server_entry(name: Seq<char>, status: MCPServerStatus, tools: nat) -> Json {
    Json::Object(
        seq![
            ("name"@, Json::Str(name)),
            ("status"@, Json::Str(status_label(status))),
            ("tools"@, Json::Number(decimal(tools))),
        ],
    )
}

/// The entries under which the servers are listed, in order.
pub open spec fn server_entries(cs: Seq<MCPClient>) -> Seq<Json> {
    cs.map_values(|c: MCPClient| server_entry(c.spec_name(), c.spec_status(), c.spec_tools().len()))
}

/// The agent's tools that the connected servers offer: each named
/// `<server>__<tool>`, with the tool's description and parameters.
pub open spec fn offered_tools(cs: Seq<MCPClient>) -> Seq<(Seq<char>, Seq<char>, Json)>
    decreases cs.len(),
{
    if cs.len() == 0 {
        seq![]
    } else {
        let c = cs.last();
        offered_tools(cs.drop_last()) + if c.spec_status() == MCPServerStatus::Connected {
            c.spec_tools().map_values(|t: ToolModel| (c.spec_name() + "__"@ + t.0, t.1, t.2))
        } else {
            seq![]
        }
    }
}

/// The model of an MCP tool of the agent: its name, description, parameters.
pub open spec fn mcp_tool_view(t: MCPTool) -> (Seq<char>, Seq<char>, Json) {
    (t.tool_name@, t.tool_description@, t.tool_schema@)
}

/// The clients of all configured MCP servers, each name at most once.
pub struct MCPManager {
    clients: Vec<MCPClient>,
    initialized: bool,
}

impl MCPManager {
    /// The clients, in the order in which they were added.
    pub closed spec fn spec_clients(&self) -> Seq<MCPClient> {
        self.clients@
    }

    /// Whether the servers were started.
    pub closed spec fn spec_initialized(&self) -> bool {
        self.initialized
    }

    #[verifier::type_invariant]
    closed spec fn inv(&self) -> bool {
        client_names(self.clients@).no_duplicates()
    }

    pub fn new() -> (r: Self)
        ensures
            r.spec_clients() == Seq::<MCPClient>::empty(),
            !r.spec_initialized(),
    {
        let r = MCPManager { clients: Vec::new(), initialized: false };
        assert(client_names(r.clients@) =~= Seq::<Seq<char>>::empty());
        r
    }

    /// Starts the servers once: the first call marks the manager as started
    /// and gives a fresh client for each enabled server of the configuration,
    /// which the program then connects (see `MCPClient::begin_connect`) and
    /// adds (see `add_client`); a later call gives none.
    pub fn initialize(&mut self, config: &Config) -> (r: Vec<MCPClient>)
        ensures
            final(self).spec_clients() == old(self).spec_clients(),
            final(self).spec_initialized(),
            old(self).spec_initialized() ==> r@.len() == 0,
            !old(self).spec_initialized() ==> {
                &&& r@.len() == enabled_servers(config.mcp_servers@).len()
                &&& forall|i: int| 0 <= i < r@.len() ==> {
                    &&& (#[trigger] r@[i]).spec_name() == enabled_servers(config.mcp_servers@)[i].name@
                    &&& server_view(r@[i].spec_config()) == server_view(enabled_servers(config.mcp_servers@)[i])
                    &&& r@[i].spec_cwd() == config.cwd@
                    &&& r@[i].spec_status() == MCPServerStatus::Disconnected
                    &&& r@[i].spec_tools() == Seq::<ToolModel>::empty()
                }
            },
    {
        proof {
            use_type_invariant(&*self);
        }
        let mut out: Vec<MCPClient> = Vec::new();
        if self.initialized {
            return out;
        }
        let ghost all = config.mcp_servers@;
        let ghost en = Seq::<MCPServerConfig>::empty();
        for i in 0..config.mcp_servers.len()
            invariant
                all == config.mcp_servers@,
                out@.len() == enabled_servers(all.take(i as int)).len(),
                forall|k: int| 0 <= k < out@.len() ==> {
                    &&& (#[trigger] out@[k]).spec_name() == enabled_servers(all.take(i as int))[k].name@
                    &&& server_view(out@[k].spec_config()) == server_view(enabled_servers(all.take(i as int))[k])
                    &&& out@[k].spec_cwd() == config.cwd@
                    &&& out@[k].spec_status() == MCPServerStatus::Disconnected
                    &&& out@[k].spec_tools() == Seq::<ToolModel>::empty()
                },
        {
            let s = &config.mcp_servers[i];
            proof {
                reveal(Seq::filter);
                assert(all.take(i + 1).drop_last() =~= all.take(i as int));
                assert(all.take(i + 1).last() == all[i as int]);
            }
            if s.enabled {
                let c = MCPClient::new(s.name.clone(), s.copy(), config.cwd.clone());
                out.push(c);
            }
        }
        assert(all.take(all.len() as int) =~= all);
        self.initialized = true;
        out
    }

    /// The agent's tools that the connected servers offer (see `offered_tools`).
    pub fn register_tools(&self) -> (r: Vec<MCPTool>)
        ensures
            r@.map_values(|t: MCPTool| mcp_tool_view(t)) == offered_tools(self.spec_clients()),
    {
        let ghost cs = self.clients@;
        let mut out: Vec<MCPTool> = Vec::new();
        for i in 0..self.clients.len()
            invariant
                cs == self.clients@,
                out@.map_values(|t: MCPTool| mcp_tool_view(t)) == offered_tools(cs.take(i as int)),
        {
            let c = &self.clients[i];
            proof {
                assert(cs.take(i + 1).drop_last() =~= cs.take(i as int));
                assert(cs.take(i + 1).last() == cs[i as int]);
            }
            let ghost base = out@.map_values(|t: MCPTool| mcp_tool_view(t));
            if c.status() == MCPServerStatus::Connected {
                let tools = c.tools();
                let ghost ts = c.spec_tools();
                let ghost f = |t: ToolModel| (c.spec_name() + "__"@ + t.0, t.1, t.2);
                for j in 0..tools.len()
                    invariant
                        ts == tool_infos_view(tools@),
                        out@.map_values(|t: MCPTool| mcp_tool_view(t)) == base + ts.take(j as int).map_values(f),
                        f == (|t: ToolModel| (c.spec_name() + "__"@ + t.0, t.1, t.2)),
                {
                    let mut name = chars_of(c.name());
                    push_str_chars(&mut name, "__");
                    push_str_chars(&mut name, tools[j].name.as_str());
                    let tool = MCPTool::new(string_of(&name), tools[j].description.clone(), tools[j].input_schema.deep_clone());
                    let ghost prev = out@.map_values(|t: MCPTool| mcp_tool_view(t));
                    let ghost tv = mcp_tool_view(tool);
                    out.push(tool);
                    proof {
                        assert(out@.map_values(|t: MCPTool| mcp_tool_view(t)) =~= prev.push(tv));
                        assert(tv == f(ts[j as int]));
                        assert(ts.take(j + 1).map_values(f) =~= ts.take(j as int).map_values(f).push(f(ts[j as int])));
                    }
                }
                assert(ts.take(ts.len() as int) =~= ts);
            } else {
                assert(base + Seq::<(Seq<char>, Seq<char>, Json)>::empty() =~= base);
            }
        }
        assert(cs.take(cs.len() as int) =~= cs);
        out
    }

    /// Disconnects every client and forgets them; the servers may be started again.
    pub fn shutdown(&mut self)
        ensures
            final(self).spec_clients() == Seq::<MCPClient>::empty(),
            !final(self).spec_initialized(),
    {
        self.clients = Vec::new();
        self.initialized = false;
        assert(client_names(self.clients@) =~= Seq::<Seq<char>>::empty());
    }

    /// The listing entry of every server (see `server_entry`).
    pub fn get_all_servers(&self) -> (r: Vec<JsonValue>)
        ensures
            r@.len() == self.spec_clients().len(),
            forall|i: int| 0 <= i < r@.len() ==> (#[trigger] r@[i])@ == server_entry(
                self.spec_clients()[i].spec_name(),
                self.spec_clients()[i].spec_status(),
                self.spec_clients()[i].spec_tools().len(),
            ),
            r@.map_values(|v: JsonValue| v@) == server_entries(self.spec_clients()),
    {
        let mut out: Vec<JsonValue> = Vec::new();
        for i in 0..self.clients.len()
            invariant
                out@.len() == i,
                forall|k: int| 0 <= k < i ==> (#[trigger] out@[k])@ == server_entry(
                    self.clients@[k].spec_name(),
                    self.clients@[k].spec_status(),
                    self.clients@[k].spec_tools().len(),
                ),
        {
            let c = &self.clients[i];
            let n = c.tools().len();
            let mut ms: Vec<(String, JsonValue)> = Vec::new();
            ms.push((owned("name"), JsonValue::Str(owned(c.name()))));
            ms.push((owned("status"), JsonValue::Str(status_text(c.status()))));
            ms.push((owned("tools"), JsonValue::Number(u64_to_string(n as u64))));
            proof {
                reveal_with_fuel(crate::json::json_members, 4);
            }
            assert(crate::json::json_members(ms@) =~= server_entry(c.spec_name(), c.spec_status(), c.spec_tools().len())->Object_0);
            out.push(JsonValue::Object(ms));
        }
        assert(out@.map_values(|v: JsonValue| v@) =~= server_entries(self.spec_clients()));
        out
    }

    /// Adds a client that was connected (or tried); it replaces a client of
    /// the same name.
    pub fn add_client(&mut self, client: MCPClient)
        ensures
            final(self).spec_initialized() == old(self).spec_initialized(),
            ({
                let cs = old(self).spec_clients();
                if client_names(cs).contains(client.spec_name()) {
                    final(self).spec_clients() == cs.update(client_names(cs).index_of(client.spec_name()), client)
                } else {
                    final(self).spec_clients() == cs.push(client)
                }
            }),
    {
        proof {
            use_type_invariant(&*self);
        }
        let ghost cs = self.clients@;
        let ghost names = client_names(cs);
        let ghost name = client.spec_name();
        let mut i: usize = 0;
        while i < self.clients.len()
            invariant
                cs == self.clients@,
                names == client_names(cs),
                name == client.spec_name(),
                i <= cs.len(),
                forall|k: int| 0 <= k < i ==> names[k] != name,
            ensures
                i <= cs.len(),
                forall|k: int| 0 <= k < i ==> names[k] != name,
                i < cs.len() ==> names[i as int] == name,
            decreases cs.len() - i,
        {
            assert(names[i as int] == self.clients@[i as int].spec_name());
            if str_eq(self.clients[i].name(), client.name()) {
                break;
            }
            i = i + 1;
        }
        let mut clients: Vec<MCPClient> = Vec::new();
        std::mem::swap(&mut clients, &mut self.clients);
        if i < clients.len() {
            proof {
                assert(names.contains(name));
                let k = names.index_of(name);
                assert(names[k] == name);
                assert(k == i);
            }
            clients.set(i, client);
            proof {
                assert(client_names(clients@) =~= names.update(i as int, name));
                assert forall|a: int, b: int| 0 <= a < b < names.len() implies client_names(clients@)[a] != client_names(clients@)[b] by {
                    if a != i && b != i {
                        assert(names[a] != names[b]);
                    } else if a == i {
                        assert(names[b] != names[a]);
                    } else {
                        assert(names[a] != names[b]);
                    }
                }
            }
        } else {
            proof {
                assert(!names.contains(name));
            }
            clients.push(client);
            proof {
                assert(client_names(clients@) =~= names.push(name));
            }
        }
        self.clients = clients;
    }
}

/// Servers that are not connected offer the agent no tools.
pub proof fn law_offline_servers_offer_nothing(cs: Seq<MCPClient>)
    requires
        forall|i: int| 0 <= i < cs.len() ==> (#[trigger] cs[i]).spec_status() != MCPServerStatus::Connected,
    ensures
        offered_tools(cs) == Seq::<(Seq<char>, Seq<char>, Json)>::empty(),
    decreases cs.len(),
{
    if cs.len() > 0 {
        assert(cs.last() == cs[cs.len() - 1]);
        law_offline_servers_offer_nothing(cs.drop_last());
        assert(offered_tools(cs.drop_last()) + Seq::<(Seq<char>, Seq<char>, Json)>::empty() =~= Seq::<
            (Seq<char>, Seq<char>, Json),
        >::empty());
    }
}

} // verus!
