//! The settings that steer the agent: approval policy, hooks, MCP servers and
//! the plain (non-numeric-precision) parts of the configuration.
use vstd::prelude::*;
use crate::json::JsonValue;
use crate::strings::{chars_of, concat, owned, str_eq, string_views};

verus! {

/// How cautious the agent is about running mutating or dangerous actions.
#[derive(Debug, Clone, Copy, PartialEq, Eq)]
pub enum ApprovalPolicy {
    OnRequest,
    Auto,
    Never,
    Yolo,
}

/// When a hook runs.
#[derive(Debug, Clone, Copy, PartialEq, Eq, Structural)]
pub enum HookTrigger {
    BeforeRun,
    AfterRun,
    BeforeAgent,
    AfterAgent,
    BeforeTool,
    AfterTool,
    OnError,
}

/// A command or script that runs on a trigger.
pub struct HookConfig {
    pub trigger: HookTrigger,
    pub command: Option<String>,
    pub script: Option<String>,
    pub enabled: bool,
    pub timeout_sec: u64,
}

/// Which environment variables shell commands see.
pub struct ShellEnvironmentPolicy {
    pub ignore_default_excludes: bool,
    pub exclude_patterns: Vec<String>,
    pub set_vars: Option<Vec<(String, String)>>,
}

/// A tool that an MCP server offers, as the configuration describes it.
pub struct MCPToolConfig {
    pub name: String,
    pub description: String,
    pub input_schema: JsonValue,
}

/// How to reach one MCP server.
pub struct MCPServerConfig {
    pub name: String,
    pub transport: String,
    pub command: Option<String>,
    pub url: Option<String>,
    pub enabled: bool,
    pub startup_timeout_sec: u64,
    pub cwd: Option<String>,
    pub env: Vec<(String, String)>,
    pub tools: Vec<MCPToolConfig>,
}

/// The policy that a configuration or command names: `on-request`, `auto`,
/// `never` or `yolo`.
pub open spec fn spec_policy_named(s: Seq<char>) -> Option<ApprovalPolicy> {
    if s == "on-request"@ {
        Some(ApprovalPolicy::OnRequest)
    } else if s == "auto"@ {
        Some(ApprovalPolicy::Auto)
    } else if s == "never"@ {
        Some(ApprovalPolicy::Never)
    } else if s == "yolo"@ {
        Some(ApprovalPolicy::Yolo)
    } else {
        None
    }
}

/// The approval policy that `name` spells, if any.
pub fn parse_approval_policy(name: &str) -> (r: Option<ApprovalPolicy>)
    ensures
        r == spec_policy_named(name@),
{
    proof {
        reveal_strlit("on-request");
        reveal_strlit("auto");
        reveal_strlit("never");
        reveal_strlit("yolo");
    }
    if str_eq(name, "on-request") {
        Some(ApprovalPolicy::OnRequest)
    } else if str_eq(name, "auto") {
        Some(ApprovalPolicy::Auto)
    } else if str_eq(name, "never") {
        Some(ApprovalPolicy::Never)
    } else if str_eq(name, "yolo") {
        Some(ApprovalPolicy::Yolo)
    } else {
        None
    }
}

/// The name under which a policy is written in configuration files.
pub open spec fn spec_policy_name(p: ApprovalPolicy) -> Seq<char> {
    match p {
        ApprovalPolicy::OnRequest => "on-request"@,
        ApprovalPolicy::Auto => "auto"@,
        ApprovalPolicy::Never => "never"@,
        ApprovalPolicy::Yolo => "yolo"@,
    }
}

/// The name of a policy, as `parse_approval_policy` reads it back.
pub fn approval_policy_name(p: ApprovalPolicy) -> (r: String)
    ensures
        r@ == spec_policy_name(p),
{
    match p {
        ApprovalPolicy::OnRequest => owned("on-request"),
        ApprovalPolicy::Auto => owned("auto"),
        ApprovalPolicy::Never => owned("never"),
        ApprovalPolicy::Yolo => owned("yolo"),
    }
}

/// Every policy is read back from its own name.
pub proof fn law_policy_name_round_trip(p: ApprovalPolicy)
    ensures
        spec_policy_named(spec_policy_name(p)) == Some(p),
{
    reveal_strlit("on-request");
    reveal_strlit("auto");
    reveal_strlit("never");
    reveal_strlit("yolo");
    assert("auto"@.len() == 4 && "on-request"@.len() == 10 && "never"@.len() == 5 && "yolo"@.len() == 4);
    assert("auto"@ != "on-request"@);
    assert("never"@ != "on-request"@ && "never"@ != "auto"@);
    assert("yolo"@[0] != "auto"@[0]);
    assert("yolo"@ != "on-request"@ && "yolo"@ != "auto"@ && "yolo"@ != "never"@);
}

/// The settings of the agent (the model's sampling temperature is kept beside
/// them by the program, as a floating-point number).
pub struct Config {
    pub shell_environment: ShellEnvironmentPolicy,
    pub mcp_servers: Vec<MCPServerConfig>,
    pub hooks: Vec<HookConfig>,
    pub model_name: String,
    pub approval: ApprovalPolicy,
    pub cwd: String,
    pub max_turns: u32,
    pub hooks_enabled: bool,
    pub allowed_tools: Option<Vec<String>>,
    pub api_key: Option<String>,
    pub base_url: String,
}

/// The settings that a configuration file gives; an absent one leaves the
/// setting as it was.
pub struct ConfigPartial {
    pub model_name: Option<String>,
    pub approval: Option<String>,
    pub max_turns: Option<u32>,
    pub hooks_enabled: Option<bool>,
    pub allowed_tools: Option<Vec<String>>,
    pub api_key: Option<String>,
    pub base_url: Option<String>,
    pub shell_environment: Option<ShellEnvironmentPolicy>,
    pub mcp_servers: Option<Vec<MCPServerConfig>>,
    pub hooks: Option<Vec<HookConfig>>,
}

/// The environment variables that shell commands never see by default.
pub open spec fn default_exclude_patterns() -> Seq<Seq<char>> {
    seq!["*TOKEN*"@, "*SECRET*"@, "*PASSWORD*"@]
}

/// The default settings for the working directory `cwd`.
pub open spec fn is_default_config(c: Config, cwd: Seq<char>) -> bool {
    &&& c.shell_environment.ignore_default_excludes == false
    &&& string_views(c.shell_environment.exclude_patterns@) == default_exclude_patterns()
    &&& c.shell_environment.set_vars is None
    &&& c.mcp_servers@.len() == 0
    &&& c.hooks@.len() == 0
    &&& c.model_name@ == "gpt-5"@
    &&& c.approval == ApprovalPolicy::OnRequest
    &&& c.cwd@ == cwd
    &&& c.max_turns == 40
    &&& c.hooks_enabled
    &&& c.allowed_tools is None
    &&& c.api_key is None
    &&& c.base_url@ == Seq::<char>::empty()
}

/// The settings after the file settings `p` are laid over `c`.
pub open spec fn applied(c: Config, p: ConfigPartial) -> Config {
    Config {
        shell_environment: match p.shell_environment {
            Some(v) => v,
            None => c.shell_environment,
        },
        mcp_servers: match p.mcp_servers {
            Some(v) => v,
            None => c.mcp_servers,
        },
        hooks: match p.hooks {
            Some(v) => v,
            None => c.hooks,
        },
        model_name: match p.model_name {
            Some(v) => v,
            None => c.model_name,
        },
        approval: match p.approval {
            Some(a) => match spec_policy_named(a@) {
                Some(policy) => policy,
                None => c.approval,
            },
            None => c.approval,
        },
        cwd: c.cwd,
        max_turns: match p.max_turns {
            Some(v) => v,
            None => c.max_turns,
        },
        hooks_enabled: match p.hooks_enabled {
            Some(v) => v,
            None => c.hooks_enabled,
        },
        allowed_tools: match p.allowed_tools {
            Some(v) => Some(v),
            None => c.allowed_tools,
        },
        api_key: match p.api_key {
            Some(v) => Some(v),
            None => c.api_key,
        },
        base_url: match p.base_url {
            Some(v) => v,
            None => c.base_url,
        },
    }
}

/// A file that sets nothing.
pub open spec fn is_empty_partial(p: ConfigPartial) -> bool {
    &&& p.model_name is None
    &&& p.approval is None
    &&& p.max_turns is None
    &&& p.hooks_enabled is None
    &&& p.allowed_tools is None
    &&& p.api_key is None
    &&& p.base_url is None
    &&& p.shell_environment is None
    &&& p.mcp_servers is None
    &&& p.hooks is None
}

impl Config {
    /// The default settings for the working directory `cwd`.
    pub fn new(cwd: String) -> (r: Self)
        ensures
            is_default_config(r, cwd@),
    {
        let mut patterns: Vec<String> = Vec::new();
        patterns.push(owned("*TOKEN*"));
        patterns.push(owned("*SECRET*"));
        patterns.push(owned("*PASSWORD*"));
        assert(string_views(patterns@) =~= default_exclude_patterns());
        proof {
            reveal_strlit("");
        }
        Config {
            shell_environment: ShellEnvironmentPolicy {
                ignore_default_excludes: false,
                exclude_patterns: patterns,
                set_vars: None,
            },
            mcp_servers: Vec::new(),
            hooks: Vec::new(),
            model_name: owned("gpt-5"),
            approval: ApprovalPolicy::OnRequest,
            cwd,
            max_turns: 40,
            hooks_enabled: true,
            allowed_tools: None,
            api_key: None,
            base_url: String::new(),
        }
    }

    /// The problems with these settings, in this order: a temperature outside
    /// [0, 2] (`temperature_in_range` says whether it is inside), no turns
    /// allowed, and a working directory that does not exist (`cwd_exists`).
    pub fn validate(&self, temperature_in_range: bool, cwd_exists: bool) -> (r: Vec<String>)
        ensures
            string_views(r@) == (if temperature_in_range { seq![] } else { seq!["temperature must be in [0.0, 2.0]"@] })
                + (if self.max_turns == 0 { seq!["max_turns must be > 0"@] } else { seq![] })
                + (if cwd_exists { seq![] } else { seq!["cwd does not exist: "@ + self.cwd@] }),
    {
        let mut errors: Vec<String> = Vec::new();
        if !temperature_in_range {
            errors.push(owned("temperature must be in [0.0, 2.0]"));
        }
        let ghost a = string_views(errors@);
        if self.max_turns == 0 {
            errors.push(owned("max_turns must be > 0"));
        }
        let ghost b = string_views(errors@);
        assert(b =~= a + (if self.max_turns == 0 { seq!["max_turns must be > 0"@] } else { seq![] }));
        if !cwd_exists {
            errors.push(concat("cwd does not exist: ", self.cwd.as_str()));
        }
        assert(string_views(errors@) =~= b + (if cwd_exists { seq![] } else { seq!["cwd does not exist: "@ + self.cwd@] }));
        assert(a =~= (if temperature_in_range { seq![] } else { seq!["temperature must be in [0.0, 2.0]"@] }));
        errors
    }
}

/// Lays the settings of a configuration file over `config`: each setting that
/// the file gives replaces the current one; an approval policy that names no
/// policy is ignored.
pub fn apply_partial(config: &mut Config, partial: ConfigPartial)
    ensures
        *final(config) == applied(*old(config), partial),
{
    let ghost p = partial;
    let ConfigPartial {
        model_name,
        approval,
        max_turns,
        hooks_enabled,
        allowed_tools,
        api_key,
        base_url,
        shell_environment,
        mcp_servers,
        hooks,
    } = partial;
    if let Some(v) = model_name {
        config.model_name = v;
    }
    if let Some(a) = approval {
        match parse_approval_policy(a.as_str()) {
            Some(policy) => config.approval = policy,
            None => {},
        }
    }
    if let Some(v) = max_turns {
        config.max_turns = v;
    }
    if let Some(v) = hooks_enabled {
        config.hooks_enabled = v;
    }
    if let Some(v) = allowed_tools {
        config.allowed_tools = Some(v);
    }
    if let Some(v) = api_key {
        config.api_key = Some(v);
    }
    if let Some(v) = base_url {
        config.base_url = v;
    }
    if let Some(v) = shell_environment {
        config.shell_environment = v;
    }
    if let Some(v) = mcp_servers {
        config.mcp_servers = v;
    }
    if let Some(v) = hooks {
        config.hooks = v;
    }
}

/// A file that sets nothing changes nothing.
pub proof fn law_empty_partial_changes_nothing(c: Config, p: ConfigPartial)
    requires
        is_empty_partial(p),
    ensures
        applied(c, p) == c,
{
}

/// Laying the same file over the settings twice is the same as laying it once.
pub proof fn law_apply_partial_idempotent(c: Config, p: ConfigPartial)
    ensures
        applied(applied(c, p), p) == applied(c, p),
{
}

/// A setting that a later file gives wins over the one an earlier file gave:
/// the model name after two files is the later one's, where it names one.
pub proof fn law_later_file_wins(c: Config, first: ConfigPartial, second: ConfigPartial)
    requires
        second.model_name is Some,
        second.max_turns is Some,
    ensures
        applied(applied(c, first), second).model_name == second.model_name->0,
        applied(applied(c, first), second).max_turns == second.max_turns->0,
        applied(applied(c, first), second).cwd == c.cwd,
{
}

/// The model of a tool that a server's configuration lists.
pub open spec fn tool_config_view(t: MCPToolConfig) -> (Seq<char>, Seq<char>, crate::json::Json) {
    (t.name@, t.description@, t.input_schema@)
}

/// The model of a server's configuration: its texts and flags, its variables,
/// and its tools.
pub open spec fn server_view(c: MCPServerConfig) -> (
    (Seq<char>, Seq<char>, Option<Seq<char>>, Option<Seq<char>>, bool, u64, Option<Seq<char>>),
    Seq<(String, String)>,
    Seq<(Seq<char>, Seq<char>, crate::json::Json)>,
) {
    (
        (c.name@, c.transport@, crate::strings::opt_view(c.command), crate::strings::opt_view(c.url), c.enabled, c.startup_timeout_sec, crate::strings::opt_view(c.cwd)),
        c.env@,
        c.tools@.map_values(|t: MCPToolConfig| tool_config_view(t)),
    )
}

/// The models of a list of server configurations.
pub open spec fn servers_view(s: Seq<MCPServerConfig>) -> Seq<
    (
        (Seq<char>, Seq<char>, Option<Seq<char>>, Option<Seq<char>>, bool, u64, Option<Seq<char>>),
        Seq<(String, String)>,
        Seq<(Seq<char>, Seq<char>, crate::json::Json)>,
    ),
> {
    s.map_values(|c: MCPServerConfig| server_view(c))
}

fn copy_opt_string(o: &Option<String>) -> (r: Option<String>)
    ensures
        r == *o,
{
    match o {
        Some(s) => Some(s.clone()),
        None => None,
    }
}

fn copy_string_vec(v: &Vec<String>) -> (r: Vec<String>)
    ensures
        r@ == v@,
{
    let mut out: Vec<String> = Vec::new();
    for i in 0..v.len()
        invariant
            out@ == v@.take(i as int),
    {
        out.push(v[i].clone());
        assert(out@ =~= v@.take(i + 1));
    }
    assert(v@.take(v@.len() as int) =~= v@);
    out
}

fn copy_pairs(v: &Vec<(String, String)>) -> (r: Vec<(String, String)>)
    ensures
        r@ == v@,
{
    let mut out: Vec<(String, String)> = Vec::new();
    for i in 0..v.len()
        invariant
            out@ == v@.take(i as int),
    {
        out.push((v[i].0.clone(), v[i].1.clone()));
        assert(out@ =~= v@.take(i + 1));
    }
    assert(v@.take(v@.len() as int) =~= v@);
    out
}

impl HookConfig {
    /// A copy of this hook.
    pub fn copy(&self) -> (r: HookConfig)
        ensures
            r == *self,
    {
        HookConfig {
            trigger: self.trigger,
            command: copy_opt_string(&self.command),
            script: copy_opt_string(&self.script),
            enabled: self.enabled,
            timeout_sec: self.timeout_sec,
        }
    }
}

/// The model of a shell environment policy.
pub open spec fn shell_view(p: ShellEnvironmentPolicy) -> (bool, Seq<String>, Option<Seq<(String, String)>>) {
    (
        p.ignore_default_excludes,
        p.exclude_patterns@,
        match p.set_vars {
            Some(v) => Some(v@),
            None => None,
        },
    )
}

/// The model of an optional list of names.
pub open spec fn opt_strings(o: Option<Vec<String>>) -> Option<Seq<String>> {
    match o {
        Some(v) => Some(v@),
        None => None,
    }
}

impl ShellEnvironmentPolicy {
    /// A copy of this policy.
    pub fn copy(&self) -> (r: ShellEnvironmentPolicy)
        ensures
            shell_view(r) == shell_view(*self),
    {
        ShellEnvironmentPolicy {
            ignore_default_excludes: self.ignore_default_excludes,
            exclude_patterns: copy_string_vec(&self.exclude_patterns),
            set_vars: match &self.set_vars {
                Some(v) => Some(copy_pairs(v)),
                None => None,
            },
        }
    }
}

impl MCPServerConfig {
    /// A copy of this server's configuration.
    pub fn copy(&self) -> (r: MCPServerConfig)
        ensures
            server_view(r) == server_view(*self),
    {
        let mut tools: Vec<MCPToolConfig> = Vec::new();
        for i in 0..self.tools.len()
            invariant
                tools@.map_values(|t: MCPToolConfig| tool_config_view(t)) == self.tools@.take(i as int).map_values(
                    |t: MCPToolConfig| tool_config_view(t),
                ),
        {
            let t = &self.tools[i];
            let ghost prev = tools@.map_values(|t: MCPToolConfig| tool_config_view(t));
            let c = MCPToolConfig { name: t.name.clone(), description: t.description.clone(), input_schema: t.input_schema.deep_clone() };
            let ghost cv = tool_config_view(c);
            tools.push(c);
            assert(tools@.map_values(|t: MCPToolConfig| tool_config_view(t)) =~= prev.push(cv));
            assert(self.tools@.take(i + 1).map_values(|t: MCPToolConfig| tool_config_view(t)) =~= self.tools@.take(
                i as int,
            ).map_values(|t: MCPToolConfig| tool_config_view(t)).push(tool_config_view(self.tools@[i as int])));
        }
        assert(self.tools@.take(self.tools@.len() as int) =~= self.tools@);
        MCPServerConfig {
            name: self.name.clone(),
            transport: self.transport.clone(),
            command: copy_opt_string(&self.command),
            url: copy_opt_string(&self.url),
            enabled: self.enabled,
            startup_timeout_sec: self.startup_timeout_sec,
            cwd: copy_opt_string(&self.cwd),
            env: copy_pairs(&self.env),
            tools,
        }
    }
}

/// Two sets of settings that hold the same values (the servers' tool
/// descriptions compared by their JSON models).
pub open spec fn same_settings(a: Config, b: Config) -> bool {
    &&& shell_view(a.shell_environment) == shell_view(b.shell_environment)
    &&& servers_view(a.mcp_servers@) == servers_view(b.mcp_servers@)
    &&& a.hooks@ == b.hooks@
    &&& a.model_name == b.model_name
    &&& a.approval == b.approval
    &&& a.cwd == b.cwd
    &&& a.max_turns == b.max_turns
    &&& a.hooks_enabled == b.hooks_enabled
    &&& opt_strings(a.allowed_tools) == opt_strings(b.allowed_tools)
    &&& a.api_key == b.api_key
    &&& a.base_url == b.base_url
}

impl Config {
    /// A copy of these settings (the servers' tool descriptions are copied as
    /// JSON values with the same model).
    pub fn copy(&self) -> (r: Config)
        ensures
            same_settings(r, *self),
    {
        let mut servers: Vec<MCPServerConfig> = Vec::new();
        for i in 0..self.mcp_servers.len()
            invariant
                servers_view(servers@) == servers_view(self.mcp_servers@.take(i as int)),
        {
            let ghost prev = servers_view(servers@);
            let c = self.mcp_servers[i].copy();
            let ghost cv = server_view(c);
            servers.push(c);
            assert(servers_view(servers@) =~= prev.push(cv));
            assert(servers_view(self.mcp_servers@.take(i + 1)) =~= servers_view(self.mcp_servers@.take(i as int)).push(
                server_view(self.mcp_servers@[i as int]),
            ));
        }
        assert(self.mcp_servers@.take(self.mcp_servers@.len() as int) =~= self.mcp_servers@);
        let mut hooks: Vec<HookConfig> = Vec::new();
        for i in 0..self.hooks.len()
            invariant
                hooks@ == self.hooks@.take(i as int),
        {
            hooks.push(self.hooks[i].copy());
            assert(hooks@ =~= self.hooks@.take(i + 1));
        }
        assert(self.hooks@.take(self.hooks@.len() as int) =~= self.hooks@);
        Config {
            shell_environment: self.shell_environment.copy(),
            mcp_servers: servers,
            hooks,
            model_name: self.model_name.clone(),
            approval: self.approval,
            cwd: self.cwd.clone(),
            max_turns: self.max_turns,
            hooks_enabled: self.hooks_enabled,
            allowed_tools: match &self.allowed_tools {
                Some(v) => Some(copy_string_vec(v)),
                None => None,
            },
            api_key: copy_opt_string(&self.api_key),
            base_url: self.base_url.clone(),
        }
    }
}

} // verus!
