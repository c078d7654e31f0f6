//! Hooks: commands that run when the agent starts or ends a turn, around tool
//! calls, and on errors. This module decides which commands run, with which
//! environment; the program runs them.
use vstd::prelude::*;
use crate::config::{Config, HookConfig, HookTrigger};
use crate::strings::{concat, owned};
use crate::tool_base::{ToolResult, spec_model_output};

verus! {

/// The text that `{:?}` makes of a string: the string in double quotes, with
/// quotes, backslashes and special characters escaped.
pub uninterp spec fn debug_quoted(s: Seq<char>) -> Seq<char>;

/// `format!("{:?}", s)`, the quoted form of `s` (named `debug_quoted`).
#[verifier::external_body]
fn debug_quote(s: &str) -> (r: String)
    ensures
        r@ == debug_quoted(s@),
{
    format!("{:?}", s)
}

/// The command that a hook runs: its command, else its script run by
/// `bash -lc`; none when it has neither.
pub open spec fn spec_hook_command(h: HookConfig) -> Option<Seq<char>> {
    match h.command {
        Some(c) => Some(c@),
        None => match h.script {
            Some(s) => Some("/bin/bash -lc "@ + debug_quoted(s@)),
            None => None,
        },
    }
}

/// The command that a hook runs.
pub fn hook_command(h: &HookConfig) -> (r: Option<String>)
    ensures
        crate::strings::opt_view(r) == spec_hook_command(*h),
{
    match &h.command {
        Some(c) => Some(c.clone()),
        None => match &h.script {
            Some(s) => {
                let q = debug_quote(s.as_str());
                Some(concat("/bin/bash -lc ", q.as_str()))
            },
            None => None,
        },
    }
}

/// The name of a trigger as hooks see it: its name in lower case.
pub open spec fn trigger_name(t: HookTrigger) -> Seq<char> {
    match t {
        HookTrigger::BeforeRun => "beforerun"@,
        HookTrigger::AfterRun => "afterrun"@,
        HookTrigger::BeforeAgent => "beforeagent"@,
        HookTrigger::AfterAgent => "afteragent"@,
        HookTrigger::BeforeTool => "beforetool"@,
        HookTrigger::AfterTool => "aftertool"@,
        HookTrigger::OnError => "onerror"@,
    }
}

fn trigger_text(t: HookTrigger) -> (r: String)
    ensures
        r@ == trigger_name(t),
{
    match t {
        HookTrigger::BeforeRun => owned("beforerun"),
        HookTrigger::AfterRun => owned("afterrun"),
        HookTrigger::BeforeAgent => owned("beforeagent"),
        HookTrigger::AfterAgent => owned("afteragent"),
        HookTrigger::BeforeTool => owned("beforetool"),
        HookTrigger::AfterTool => owned("aftertool"),
        HookTrigger::OnError => owned("onerror"),
    }
}

/// One command to run, with its time limit and the variables it is given on
/// top of the agent's own environment.
pub struct HookRun {
    pub command: String,
    pub timeout_sec: u64,
    pub env: Vec<(String, String)>,
}

/// The texts of a list of variables.
pub open spec fn env_view(env: Seq<(String, String)>) -> Seq<(Seq<char>, Seq<char>)> {
    env.map_values(|e: (String, String)| (e.0@, e.1@))
}

/// The model of a run: its command, its time limit, its variables.
pub open spec fn run_view(r: HookRun) -> (Seq<char>, u64, Seq<(Seq<char>, Seq<char>)>) {
    (r.command@, r.timeout_sec, env_view(r.env@))
}

/// The variables a hook is given: the trigger's name and the working
/// directory, then the tool's name, the user's message and the error where
/// there are any.
pub open spec fn spec_hook_env(
    trigger: HookTrigger,
    cwd: Seq<char>,
    tool_name: Option<Seq<char>>,
    user_message: Option<Seq<char>>,
    error: Option<Seq<char>>,
) -> Seq<(Seq<char>, Seq<char>)> {
    seq![("AI_AGENT_TRIGGER"@, trigger_name(trigger)), ("AI_AGENT_CWD"@, cwd)]
        + match tool_name {
        Some(t) => seq![("AI_AGENT_TOOL_NAME"@, t)],
        None => seq![],
    } + match user_message {
        Some(m) => seq![("AI_AGENT_USER_MESSAGE"@, m)],
        None => seq![],
    } + match error {
        Some(e) => seq![("AI_AGENT_ERROR"@, e)],
        None => seq![],
    }
}

/// The runs for the hooks of `trigger` among `hooks`, in order, each with the
/// variables `env` (hooks that have no command are skipped).
pub open spec fn spec_runs(
    hooks: Seq<HookConfig>,
    trigger: HookTrigger,
    env: Seq<(Seq<char>, Seq<char>)>,
) -> Seq<(Seq<char>, u64, Seq<(Seq<char>, Seq<char>)>)>
    decreases hooks.len(),
{
    if hooks.len() == 0 {
        seq![]
    } else {
        let prev = spec_runs(hooks.drop_last(), trigger, env);
        let h = hooks.last();
        if h.trigger == trigger {
            match spec_hook_command(h) {
                Some(c) => prev.push((c, h.timeout_sec, env)),
                None => prev,
            }
        } else {
            prev
        }
    }
}

/// The hooks that the settings switch on: those marked enabled, when hooks
/// are enabled at all.
pub open spec fn active_hooks(hooks: Seq<HookConfig>, hooks_enabled: bool) -> Seq<HookConfig> {
    if hooks_enabled {
        hooks.filter(|h: HookConfig| h.enabled)
    } else {
        seq![]
    }
}

fn copy_opt(o: &Option<String>) -> (r: Option<String>)
    ensures
        r == *o,
{
    match o {
        Some(s) => Some(s.clone()),
        None => None,
    }
}

fn copy_hook(h: &HookConfig) -> (r: HookConfig)
    ensures
        r == *h,
{
    HookConfig {
        trigger: h.trigger,
        command: copy_opt(&h.command),
        script: copy_opt(&h.script),
        enabled: h.enabled,
        timeout_sec: h.timeout_sec,
    }
}

fn copy_env(env: &Vec<(String, String)>) -> (r: Vec<(String, String)>)
    ensures
        env_view(r@) == env_view(env@),
{
    let mut out: Vec<(String, String)> = Vec::new();
    for i in 0..env.len()
        invariant
            env_view(out@) == env_view(env@).take(i as int),
    {
        let ghost prev = env_view(out@);
        out.push((env[i].0.clone(), env[i].1.clone()));
        assert(env_view(out@) =~= prev.push((env@[i as int].0@, env@[i as int].1@)));
        assert(env_view(env@).take(i + 1) =~= env_view(env@).take(i as int).push((env@[i as int].0@, env@[i as int].1@)));
    }
    assert(env_view(env@).take(env@.len() as int) =~= env_view(env@));
    out
}

fn push_var(env: &mut Vec<(String, String)>, key: &str, value: &str)
    ensures
        env_view(final(env)@) == env_view(old(env)@).push((key@, value@)),
{
    let ghost prev = env_view(env@);
    env.push((owned(key), owned(value)));
    assert(env_view(env@) =~= prev.push((key@, value@)));
}

/// Runs commands on the agent's triggers.
pub struct HookSystem {
    config: Config,
    hooks: Vec<HookConfig>,
}

impl HookSystem {
    /// The settings the hook system was made from.
    pub closed spec fn spec_config(&self) -> Config {
        self.config
    }

    /// The working directory the hooks run in: that of the settings.
    pub open spec fn spec_cwd(&self) -> Seq<char> {
        self.spec_config().cwd@
    }

    /// The hooks that may run, in order.
    pub closed spec fn spec_hooks(&self) -> Seq<HookConfig> {
        self.hooks@
    }

    /// The hook system of the settings: the enabled hooks, when hooks are enabled.
    pub fn new(config: Config) -> (r: Self)
        ensures
            r.spec_config() == config,
            r.spec_hooks() == active_hooks(config.hooks@, config.hooks_enabled),
    {
        let mut hooks: Vec<HookConfig> = Vec::new();
        if config.hooks_enabled {
            let ghost all = config.hooks@;
            for i in 0..config.hooks.len()
                invariant
                    all == config.hooks@,
                    hooks@ == all.take(i as int).filter(|h: HookConfig| h.enabled),
            {
                let ghost prev = hooks@;
                if config.hooks[i].enabled {
                    hooks.push(copy_hook(&config.hooks[i]));
                }
                proof {
                    let t = all.take(i + 1);
                    assert(t.drop_last() =~= all.take(i as int));
                    assert(t.last() == all[i as int]);
                    reveal(Seq::filter);
                    assert(t =~= all.take(i as int).push(all[i as int]));
                }
            }
            assert(all.take(all.len() as int) =~= all);
        }
        HookSystem { config, hooks }
    }

    /// The variables a hook is given (see `spec_hook_env`).
    fn build_env(&self, trigger: HookTrigger, tool_name: Option<&str>, user_message: Option<&str>, error: Option<&str>) -> (r: Vec<
        (String, String),
    >)
        ensures
            env_view(r@) == spec_hook_env(
                trigger,
                self.config.cwd@,
                match tool_name {
                    Some(t) => Some(t@),
                    None => None,
                },
                match user_message {
                    Some(t) => Some(t@),
                    None => None,
                },
                match error {
                    Some(t) => Some(t@),
                    None => None,
                },
            ),
    {
        let mut env: Vec<(String, String)> = Vec::new();
        let t = trigger_text(trigger);
        push_var(&mut env, "AI_AGENT_TRIGGER", t.as_str());
        push_var(&mut env, "AI_AGENT_CWD", self.config.cwd.as_str());
        let ghost base = env_view(env@);
        match tool_name {
            Some(x) => push_var(&mut env, "AI_AGENT_TOOL_NAME", x),
            None => {},
        }
        let ghost a = env_view(env@);
        match user_message {
            Some(x) => push_var(&mut env, "AI_AGENT_USER_MESSAGE", x),
            None => {},
        }
        let ghost b = env_view(env@);
        match error {
            Some(x) => push_var(&mut env, "AI_AGENT_ERROR", x),
            None => {},
        }
        assert(env_view(env@) =~= spec_hook_env(
            trigger,
            self.config.cwd@,
            match tool_name {
                Some(t) => Some(t@),
                None => None,
            },
            match user_message {
                Some(t) => Some(t@),
                None => None,
            },
            match error {
                Some(t) => Some(t@),
                None => None,
            },
        ));
        env
    }

    /// The runs of the hooks for `trigger`, each with the variables `env`.
    fn runs(&self, trigger: HookTrigger, env: &Vec<(String, String)>) -> (r: Vec<HookRun>)
        ensures
            r@.map_values(|x: HookRun| run_view(x)) == spec_runs(self.spec_hooks(), trigger, env_view(env@)),
    {
        let ghost hs = self.hooks@;
        let mut out: Vec<HookRun> = Vec::new();
        for i in 0..self.hooks.len()
            invariant
                hs == self.hooks@,
                out@.map_values(|x: HookRun| run_view(x)) == spec_runs(hs.take(i as int), trigger, env_view(env@)),
        {
            let h = &self.hooks[i];
            let ghost prev = out@.map_values(|x: HookRun| run_view(x));
            proof {
                assert(hs.take(i + 1).drop_last() =~= hs.take(i as int));
                assert(hs.take(i + 1).last() == hs[i as int]);
            }
            if h.trigger == trigger {
                match hook_command(h) {
                    Some(c) => {
                        let run = HookRun { command: c, timeout_sec: h.timeout_sec, env: copy_env(env) };
                        let ghost rv = run_view(run);
                        out.push(run);
                        assert(out@.map_values(|x: HookRun| run_view(x)) =~= prev.push(rv));
                    },
                    None => {},
                }
            }
        }
        assert(hs.take(hs.len() as int) =~= hs);
        out
    }

    /// The hooks to run before the agent handles a user message.
    pub fn trigger_before_agent(&self, user_message: &str) -> (r: Vec<HookRun>)
        ensures
            r@.map_values(|x: HookRun| run_view(x)) == spec_runs(
                self.spec_hooks(),
                HookTrigger::BeforeAgent,
                spec_hook_env(HookTrigger::BeforeAgent, self.spec_cwd(), None, Some(user_message@), None),
            ),
    {
        let env = self.build_env(HookTrigger::BeforeAgent, None, Some(user_message), None);
        self.runs(HookTrigger::BeforeAgent, &env)
    }

    /// The hooks to run after the agent answered; they also see the answer.
    pub fn trigger_after_agent(&self, user_message: &str, agent_response: &str) -> (r: Vec<HookRun>)
        ensures
            r@.map_values(|x: HookRun| run_view(x)) == spec_runs(
                self.spec_hooks(),
                HookTrigger::AfterAgent,
                spec_hook_env(HookTrigger::AfterAgent, self.spec_cwd(), None, Some(user_message@), None).push(
                    ("AI_AGENT_RESPONSE"@, agent_response@),
                ),
            ),
    {
        let mut env = self.build_env(HookTrigger::AfterAgent, None, Some(user_message), None);
        push_var(&mut env, "AI_AGENT_RESPONSE", agent_response);
        self.runs(HookTrigger::AfterAgent, &env)
    }

    /// The hooks to run before a tool call; `tool_params` is the call's
    /// parameters as JSON text.
    pub fn trigger_before_tool(&self, tool_name: &str, tool_params: &str) -> (r: Vec<HookRun>)
        ensures
            r@.map_values(|x: HookRun| run_view(x)) == spec_runs(
                self.spec_hooks(),
                HookTrigger::BeforeTool,
                spec_hook_env(HookTrigger::BeforeTool, self.spec_cwd(), Some(tool_name@), None, None).push(
                    ("AI_AGENT_TOOL_PARAMS"@, tool_params@),
                ),
            ),
    {
        let mut env = self.build_env(HookTrigger::BeforeTool, Some(tool_name), None, None);
        push_var(&mut env, "AI_AGENT_TOOL_PARAMS", tool_params);
        self.runs(HookTrigger::BeforeTool, &env)
    }

    /// The hooks to run after a tool call; they also see the text that the
    /// model is shown of the result.
    pub fn trigger_after_tool(&self, tool_name: &str, tool_params: &str, tool_result: &ToolResult) -> (r: Vec<HookRun>)
        ensures
            r@.map_values(|x: HookRun| run_view(x)) == spec_runs(
                self.spec_hooks(),
                HookTrigger::AfterTool,
                spec_hook_env(HookTrigger::AfterTool, self.spec_cwd(), Some(tool_name@), None, None).push(
                    ("AI_AGENT_TOOL_PARAMS"@, tool_params@),
                ).push(
                    (
                        "AI_AGENT_TOOL_RESULT"@,
                        spec_model_output(tool_result.success, tool_result.output@, crate::strings::opt_view(tool_result.error)),
                    ),
                ),
            ),
    {
        let mut env = self.build_env(HookTrigger::AfterTool, Some(tool_name), None, None);
        push_var(&mut env, "AI_AGENT_TOOL_PARAMS", tool_params);
        let out = tool_result.to_model_output();
        push_var(&mut env, "AI_AGENT_TOOL_RESULT", out.as_str());
        self.runs(HookTrigger::AfterTool, &env)
    }

    /// The hooks to run on an error.
    pub fn trigger_on_error(&self, error: &str) -> (r: Vec<HookRun>)
        ensures
            r@.map_values(|x: HookRun| run_view(x)) == spec_runs(
                self.spec_hooks(),
                HookTrigger::OnError,
                spec_hook_env(HookTrigger::OnError, self.spec_cwd(), None, None, Some(error@)),
            ),
    {
        let env = self.build_env(HookTrigger::OnError, None, None, Some(error));
        self.runs(HookTrigger::OnError, &env)
    }

    /// The hooks to run before a run: those of a turn with an empty message.
    pub fn trigger_before_run(&self) -> (r: Vec<HookRun>)
        ensures
            r@.map_values(|x: HookRun| run_view(x)) == spec_runs(
                self.spec_hooks(),
                HookTrigger::BeforeAgent,
                spec_hook_env(HookTrigger::BeforeAgent, self.spec_cwd(), None, Some(seq![]), None),
            ),
    {
        proof {
            reveal_strlit("");
            assert(""@ =~= Seq::<char>::empty());
        }
        self.trigger_before_agent("")
    }

    /// The hooks to run after a run: those after a turn with an empty message
    /// and an empty answer.
    pub fn trigger_after_run(&self) -> (r: Vec<HookRun>)
        ensures
            r@.map_values(|x: HookRun| run_view(x)) == spec_runs(
                self.spec_hooks(),
                HookTrigger::AfterAgent,
                spec_hook_env(HookTrigger::AfterAgent, self.spec_cwd(), None, Some(seq![]), None).push(
                    ("AI_AGENT_RESPONSE"@, seq![]),
                ),
            ),
    {
        proof {
            reveal_strlit("");
            assert(""@ =~= Seq::<char>::empty());
        }
        self.trigger_after_agent("", "")
    }
}

/// A hook runs only for its own trigger: when no hook has the trigger, nothing runs.
pub proof fn law_hooks_run_only_on_their_trigger(
    hooks: Seq<HookConfig>,
    trigger: HookTrigger,
    env: Seq<(Seq<char>, Seq<char>)>,
)
    requires
        forall|i: int| 0 <= i < hooks.len() ==> (#[trigger] hooks[i]).trigger != trigger,
    ensures
        spec_runs(hooks, trigger, env) == Seq::<(Seq<char>, u64, Seq<(Seq<char>, Seq<char>)>)>::empty(),
    decreases hooks.len(),
{
    if hooks.len() > 0 {
        law_hooks_run_only_on_their_trigger(hooks.drop_last(), trigger, env);
    }
}

} // verus!
