//! The command line: what the user types, the slash commands, and what is
//! shown of a run of the agent.
use vstd::prelude::*;
use crate::agent::{Agent, AgentEvent, AgentEventType, event_view, events_view};
use crate::config::{ApprovalPolicy, Config, parse_approval_policy, spec_policy_named};
use crate::context::MessageModel;
use crate::json::{Json, JsonValue, json_get, json_get_str, get_str, json_serialized, json_text};
use crate::mcp::server_entries;
use crate::session::{Session, session_stats};
use crate::strings::{chars_of, concat, owned, push_decimal, push_str_chars, str_eq, string_of, string_views, decimal};
use crate::text::{skip_chars, take_chars, trim, trim_chars};
use crate::tui::{Tui, help_line};

verus! {

/// The command line: a message to answer at once (else the prompt starts),
/// and the working directory.
pub struct Args {
    pub prompt: Option<String>,
    pub cwd: Option<String>,
}

/// What a line typed at the prompt is.
pub enum UserInput {
    /// Nothing but white space.
    Blank,
    /// A slash command (the line without surrounding white space).
    Command(String),
    /// A message for the agent (the line without surrounding white space).
    Message(String),
}

/// What a line typed at the prompt is: blank, a command (it starts with `/`),
/// or a message; commands and messages lose their surrounding white space.
pub fn classify_input(line: &str) -> (r: UserInput)
    ensures
        match r {
            UserInput::Blank => trim(line@).len() == 0,
            UserInput::Command(c) => trim(line@).len() > 0 && trim(line@)[0] == '/' && c@ == trim(line@),
            UserInput::Message(m) => trim(line@).len() > 0 && trim(line@)[0] != '/' && m@ == trim(line@),
        },
{
    let t = trim_chars(&chars_of(line));
    if t.len() == 0 {
        UserInput::Blank
    } else if t[0] == '/' {
        UserInput::Command(string_of(&t))
    } else {
        UserInput::Message(string_of(&t))
    }
}

/// The position of the first space in `s` (its length when there is none).
pub open spec fn space_index(s: Seq<char>) -> nat
    decreases s.len(),
{
    if s.len() == 0 {
        0
    } else if s[0] == ' ' {
        0
    } else {
        1 + space_index(s.drop_first())
    }
}

/// A command split at its first space into its name and its arguments (the
/// rest without surrounding white space), after the surrounding white space of
/// the whole is dropped.
pub open spec fn command_parts(command: Seq<char>) -> (Seq<char>, Seq<char>) {
    let t = trim(command);
    let k = space_index(t);
    if k < t.len() {
        (t.take(k as int), trim(t.skip(k + 1 as int)))
    } else {
        (t, seq![])
    }
}

proof fn lemma_space_index(s: Seq<char>, k: int)
    requires
        0 <= k <= s.len(),
        forall|j: int| 0 <= j < k ==> s[j] != ' ',
        k < s.len() ==> s[k] == ' ',
    ensures
        space_index(s) == k,
    decreases k,
{
    if k > 0 {
        lemma_space_index(s.drop_first(), k - 1);
    }
}

/// The name and the arguments of a command.
pub fn split_command(command: &str) -> (r: (String, String))
    ensures
        (r.0@, r.1@) == command_parts(command@),
{
    let t = trim_chars(&chars_of(command));
    let mut k: usize = 0;
    while k < t.len()
        invariant
            k <= t@.len(),
            forall|j: int| 0 <= j < k ==> t@[j] != ' ',
        ensures
            k <= t@.len(),
            forall|j: int| 0 <= j < k ==> t@[j] != ' ',
            k < t@.len() ==> t@[k as int] == ' ',
        decreases t@.len() - k,
    {
        if t[k] == ' ' {
            break;
        }
        k = k + 1;
    }
    proof {
        lemma_space_index(t@, k as int);
    }
    if k < t.len() {
        let name = take_chars(&t, k);
        let rest = skip_chars(&t, k + 1);
        let args = trim_chars(&rest);
        (string_of(&name), string_of(&args))
    } else {
        (string_of(&t), String::new())
    }
}

/// The name under which `{:?}` shows an approval policy.
pub open spec fn policy_debug_name(p: ApprovalPolicy) -> Seq<char> {
    match p {
        ApprovalPolicy::OnRequest => "OnRequest"@,
        ApprovalPolicy::Auto => "Auto"@,
        ApprovalPolicy::Never => "Never"@,
        ApprovalPolicy::Yolo => "Yolo"@,
    }
}

/// The name under which `{:?}` shows an approval policy.
pub fn policy_debug(p: ApprovalPolicy) -> (r: String)
    ensures
        r@ == policy_debug_name(p),
{
    match p {
        ApprovalPolicy::OnRequest => owned("OnRequest"),
        ApprovalPolicy::Auto => owned("Auto"),
        ApprovalPolicy::Never => owned("Never"),
        ApprovalPolicy::Yolo => owned("Yolo"),
    }
}

/// What a slash command asks of the program.
pub enum CommandOutcome {
    /// Leave the prompt.
    Quit,
    /// Show these lines and go on.
    Print(Vec<String>),
    /// Show the settings (see `config_report`).
    ShowConfig,
    /// Save the session (see `saved_message`).
    SaveSession,
    /// List the saved sessions.
    ListSessions,
    /// Load the saved session with this identifier and continue it.
    Resume(String),
    /// Save a checkpoint of the session (see `checkpoint_message`).
    CreateCheckpoint,
    /// List the checkpoints.
    ListCheckpoints,
    /// Load the checkpoint with this identifier and continue from it.
    Restore(String),
}

/// The model of what a command asks.
pub enum OutcomeModel {
    Quit,
    Print(Seq<Seq<char>>),
    ShowConfig,
    SaveSession,
    ListSessions,
    Resume(Seq<char>),
    CreateCheckpoint,
    ListCheckpoints,
    Restore(Seq<char>),
}

/// The model of an outcome.
pub open spec fn outcome_view(o: CommandOutcome) -> OutcomeModel {
    match o {
        CommandOutcome::Quit => OutcomeModel::Quit,
        CommandOutcome::Print(ls) => OutcomeModel::Print(string_views(ls@)),
        CommandOutcome::ShowConfig => OutcomeModel::ShowConfig,
        CommandOutcome::SaveSession => OutcomeModel::SaveSession,
        CommandOutcome::ListSessions => OutcomeModel::ListSessions,
        CommandOutcome::Resume(id) => OutcomeModel::Resume(id@),
        CommandOutcome::CreateCheckpoint => OutcomeModel::CreateCheckpoint,
        CommandOutcome::ListCheckpoints => OutcomeModel::ListCheckpoints,
        CommandOutcome::Restore(id) => OutcomeModel::Restore(id@),
    }
}

/// A listing: the count line `title (n)`, then the items.
pub open spec fn spec_listing(title: Seq<char>, items: Seq<Seq<char>>) -> Seq<Seq<char>> {
    seq![title + " ("@ + decimal(items.len()) + ")"@] + items
}

/// What the command `name` with arguments `args` asks, for the current model
/// name and approval policy, in `session`.
pub open spec fn spec_command(
    name: Seq<char>,
    args: Seq<char>,
    model: Seq<char>,
    approval: ApprovalPolicy,
    session: Session,
) -> OutcomeModel {
    if name == "/exit"@ || name == "/quit"@ {
        OutcomeModel::Quit
    } else if name == "/help"@ {
        OutcomeModel::Print(seq![help_line()])
    } else if name == "/clear"@ {
        OutcomeModel::Print(seq!["Conversation cleared"@])
    } else if name == "/config"@ {
        OutcomeModel::ShowConfig
    } else if name == "/model"@ {
        if args.len() > 0 {
            OutcomeModel::Print(seq!["Model changed to: "@ + args])
        } else {
            OutcomeModel::Print(seq!["Current model: "@ + model])
        }
    } else if name == "/approval"@ {
        if args.len() > 0 {
            match spec_policy_named(args) {
                Some(_) => OutcomeModel::Print(seq!["Approval policy changed"@]),
                None => OutcomeModel::Print(seq!["Incorrect approval policy: "@ + args, "Approval policy changed"@]),
            }
        } else {
            OutcomeModel::Print(seq!["Current approval policy: "@ + policy_debug_name(approval)])
        }
    } else if name == "/stats"@ {
        OutcomeModel::Print(seq![json_serialized(session_stats(session))])
    } else if name == "/tools"@ {
        OutcomeModel::Print(spec_listing("Available tools"@, session.tool_registry.spec_offered()))
    } else if name == "/mcp"@ {
        OutcomeModel::Print(
            spec_listing(
                "MCP Servers"@,
                server_entries(session.mcp_manager.spec_clients()).map_values(|j: Json| json_serialized(j)),
            ),
        )
    } else if name == "/save"@ {
        OutcomeModel::SaveSession
    } else if name == "/sessions"@ {
        OutcomeModel::ListSessions
    } else if name == "/resume"@ {
        if args.len() == 0 {
            OutcomeModel::Print(seq!["Usage: /resume <session_id>"@])
        } else {
            OutcomeModel::Resume(args)
        }
    } else if name == "/checkpoint"@ {
        OutcomeModel::CreateCheckpoint
    } else if name == "/checkpoints"@ {
        OutcomeModel::ListCheckpoints
    } else if name == "/restore"@ {
        if args.len() == 0 {
            OutcomeModel::Print(seq!["Usage: /restore <checkpoint_id>"@])
        } else {
            OutcomeModel::Restore(args)
        }
    } else {
        OutcomeModel::Print(seq!["Unknown command: "@ + name])
    }
}

/// The model name after the command: `/model` with an argument sets it.
pub open spec fn model_after(name: Seq<char>, args: Seq<char>, model: Seq<char>) -> Seq<char> {
    if name == "/model"@ && args.len() > 0 {
        args
    } else {
        model
    }
}

/// The approval policy after the command: `/approval` with the name of a
/// policy sets it.
pub open spec fn approval_after(name: Seq<char>, args: Seq<char>, approval: ApprovalPolicy) -> ApprovalPolicy {
    if name == "/approval"@ && args.len() > 0 {
        match spec_policy_named(args) {
            Some(p) => p,
            None => approval,
        }
    } else {
        approval
    }
}

fn listing(title: &str, items: Vec<String>) -> (r: Vec<String>)
    ensures
        string_views(r@) == spec_listing(title@, string_views(items@)),
{
    let mut out: Vec<String> = Vec::new();
    out.push(count_line(title, items.len()));
    let ghost head = string_views(out@);
    let ghost all = string_views(items@);
    for i in 0..items.len()
        invariant
            all == string_views(items@),
            head == seq![title@ + " ("@ + decimal(items@.len() as nat) + ")"@],
            string_views(out@) == head + all.take(i as int),
    {
        let ghost prev = string_views(out@);
        out.push(items[i].clone());
        assert(all.take(i + 1) =~= all.take(i as int).push(items@[i as int]@));
        assert(string_views(out@) =~= prev.push(items@[i as int]@));
    }
    assert(all.take(items@.len() as int) =~= all);
    out
}

fn one_line(s: String) -> (r: Vec<String>)
    ensures
        string_views(r@) == seq![s@],
{
    let mut v: Vec<String> = Vec::new();
    v.push(s);
    assert(string_views(v@) =~= seq![s@]);
    v
}

/// The prompt's state: the agent of the last run, the settings, the terminal.
pub struct Cli {
    pub agent: Option<Agent>,
    pub config: Config,
    pub tui: Tui,
}

impl Cli {
    pub fn new(config: Config) -> (r: Self)
        ensures
            r.agent is None,
            r.config == config,
    {
        Cli { agent: None, config, tui: Tui::new() }
    }

    /// Carries out a slash command: `/clear` empties the conversation and the
    /// loop detector of `agent`, `/model` and `/approval` change the settings,
    /// `/stats`, `/tools` and `/mcp` show the session of `agent`, and the
    /// outcome says what is left for the program to do or show.
    pub fn handle_command(&mut self, agent: &mut Agent, command: &str) -> (r: CommandOutcome)
        ensures
            outcome_view(r) == spec_command(
                command_parts(command@).0,
                command_parts(command@).1,
                old(self).config.model_name@,
                old(self).config.approval,
                old(agent).session,
            ),
            final(self).config.model_name@ == model_after(
                command_parts(command@).0,
                command_parts(command@).1,
                old(self).config.model_name@,
            ),
            final(self).config.approval == approval_after(
                command_parts(command@).0,
                command_parts(command@).1,
                old(self).config.approval,
            ),
            final(self).config == (Config {
                model_name: final(self).config.model_name,
                approval: final(self).config.approval,
                ..old(self).config
            }),
            command_parts(command@).0 != "/model"@ && command_parts(command@).0 != "/approval"@ ==> final(self).config
                == old(self).config,
            *final(self) == (Cli { config: final(self).config, ..*old(self) }),
            command_parts(command@).0 == "/clear"@ ==> {
                &&& final(agent).session.context_manager.spec_messages() == Seq::<MessageModel>::empty()
                &&& final(agent).session.context_manager.spec_usage() == 0
                &&& final(agent).session.loop_detector.spec_actions() == Seq::<Seq<char>>::empty()
                &&& final(agent).session.loop_detector.spec_max() == old(agent).session.loop_detector.spec_max()
                &&& *final(agent) == (Agent {
                    session: Session {
                        context_manager: final(agent).session.context_manager,
                        loop_detector: final(agent).session.loop_detector,
                        ..old(agent).session
                    },
                    ..*old(agent)
                })
            },
            command_parts(command@).0 != "/clear"@ ==> *final(agent) == *old(agent),
    {
        let (name, args) = split_command(command);
        let n = name.as_str();
        let a = args.as_str();
        proof {
            lemma_command_names();
        }
        if str_eq(n, "/exit") || str_eq(n, "/quit") {
            CommandOutcome::Quit
        } else if str_eq(n, "/help") {
            CommandOutcome::Print(one_line(self.tui.show_help()))
        } else if str_eq(n, "/clear") {
            agent.session.context_manager.clear();
            agent.session.loop_detector.clear();
            CommandOutcome::Print(one_line(owned("Conversation cleared")))
        } else if str_eq(n, "/config") {
            CommandOutcome::ShowConfig
        } else if str_eq(n, "/model") {
            if a.unicode_len() > 0 {
                self.config.model_name = owned(a);
                CommandOutcome::Print(one_line(concat("Model changed to: ", a)))
            } else {
                CommandOutcome::Print(one_line(concat("Current model: ", self.config.model_name.as_str())))
            }
        } else if str_eq(n, "/approval") {
            if a.unicode_len() > 0 {
                match parse_approval_policy(a) {
                    Some(p) => {
                        self.config.approval = p;
                        CommandOutcome::Print(one_line(owned("Approval policy changed")))
                    },
                    None => {
                        let mut ls: Vec<String> = Vec::new();
                        ls.push(concat("Incorrect approval policy: ", a));
                        ls.push(owned("Approval policy changed"));
                        assert(string_views(ls@) =~= seq!["Incorrect approval policy: "@ + a@, "Approval policy changed"@]);
                        CommandOutcome::Print(ls)
                    },
                }
            } else {
                let d = policy_debug(self.config.approval);
                CommandOutcome::Print(one_line(concat("Current approval policy: ", d.as_str())))
            }
        } else if str_eq(n, "/stats") {
            let stats = agent.session.get_stats();
            CommandOutcome::Print(one_line(json_text(&stats)))
        } else if str_eq(n, "/tools") {
            let names = agent.session.tool_registry.get_tools();
            CommandOutcome::Print(listing("Available tools", names))
        } else if str_eq(n, "/mcp") {
            let servers = agent.session.mcp_manager.get_all_servers();
            let ghost entries = server_entries(agent.session.mcp_manager.spec_clients());
            let mut texts: Vec<String> = Vec::new();
            for i in 0..servers.len()
                invariant
                    servers@.map_values(|v: JsonValue| v@) == entries,
                    string_views(texts@) == entries.take(i as int).map_values(|j: Json| json_serialized(j)),
            {
                let ghost prev = string_views(texts@);
                texts.push(json_text(&servers[i]));
                assert(servers@.map_values(|v: JsonValue| v@)[i as int] == servers@[i as int]@);
                assert(entries.take(i + 1).map_values(|j: Json| json_serialized(j)) =~= entries.take(i as int).map_values(
                    |j: Json| json_serialized(j),
                ).push(json_serialized(entries[i as int])));
                assert(string_views(texts@) =~= prev.push(json_serialized(entries[i as int])));
            }
            assert(entries.take(entries.len() as int) =~= entries);
            CommandOutcome::Print(listing("MCP Servers", texts))
        } else if str_eq(n, "/save") {
            CommandOutcome::SaveSession
        } else if str_eq(n, "/sessions") {
            CommandOutcome::ListSessions
        } else if str_eq(n, "/resume") {
            if a.unicode_len() == 0 {
                CommandOutcome::Print(one_line(owned("Usage: /resume <session_id>")))
            } else {
                CommandOutcome::Resume(owned(a))
            }
        } else if str_eq(n, "/checkpoint") {
            CommandOutcome::CreateCheckpoint
        } else if str_eq(n, "/checkpoints") {
            CommandOutcome::ListCheckpoints
        } else if str_eq(n, "/restore") {
            if a.unicode_len() == 0 {
                CommandOutcome::Print(one_line(owned("Usage: /restore <checkpoint_id>")))
            } else {
                CommandOutcome::Restore(owned(a))
            }
        } else {
            CommandOutcome::Print(one_line(concat("Unknown command: ", n)))
        }
    }

    /// The lines that `/config` shows; `temperature` is the sampling
    /// temperature as `{}` prints it.
    pub fn config_report(&self, temperature: &str) -> (r: Vec<String>)
        ensures
            string_views(r@) == seq![
                "Model: "@ + self.config.model_name@,
                "Temperature: "@ + temperature@,
                "Approval: "@ + policy_debug_name(self.config.approval),
                "Working Dir: "@ + self.config.cwd@,
                "Max Turns: "@ + decimal(self.config.max_turns as nat),
                "Hooks Enabled: "@ + crate::tui::bool_text(self.config.hooks_enabled),
            ],
    {
        let mut ls: Vec<String> = Vec::new();
        ls.push(concat("Model: ", self.config.model_name.as_str()));
        ls.push(concat("Temperature: ", temperature));
        let d = policy_debug(self.config.approval);
        ls.push(concat("Approval: ", d.as_str()));
        ls.push(concat("Working Dir: ", self.config.cwd.as_str()));
        let mut t = chars_of("Max Turns: ");
        push_decimal(&mut t, self.config.max_turns as u64);
        ls.push(string_of(&t));
        let b = if self.config.hooks_enabled { owned("true") } else { owned("false") };
        ls.push(concat("Hooks Enabled: ", b.as_str()));
        assert(string_views(ls@) =~= seq![
            "Model: "@ + self.config.model_name@,
            "Temperature: "@ + temperature@,
            "Approval: "@ + policy_debug_name(self.config.approval),
            "Working Dir: "@ + self.config.cwd@,
            "Max Turns: "@ + decimal(self.config.max_turns as nat),
            "Hooks Enabled: "@ + crate::tui::bool_text(self.config.hooks_enabled),
        ]);
        ls
    }

    /// The welcome banner of the interactive prompt.
    pub fn welcome_lines(&self) -> (r: Vec<String>)
        ensures
            string_views(r@) == seq![
                "== AI Agent =="@,
                "model: "@ + self.config.model_name@,
                "cwd: "@ + self.config.cwd@,
                "commands: /help /config /approval /model /exit"@,
            ],
    {
        let mut ls: Vec<String> = Vec::new();
        ls.push(concat("model: ", self.config.model_name.as_str()));
        ls.push(concat("cwd: ", self.config.cwd.as_str()));
        ls.push(owned("commands: /help /config /approval /model /exit"));
        let r = self.tui.print_welcome("AI Agent", &ls);
        proof {
            reveal_strlit("AI Agent");
            reveal_strlit("== ");
            reveal_strlit(" ==");
            reveal_strlit("== AI Agent ==");
            assert("== "@ + "AI Agent"@ + " =="@ =~= "== AI Agent =="@);
        }
        assert(string_views(r@) =~= seq![
            "== AI Agent =="@,
            "model: "@ + self.config.model_name@,
            "cwd: "@ + self.config.cwd@,
            "commands: /help /config /approval /model /exit"@,
        ]);
        r
    }
}

/// The line shown after a session is saved.
pub fn saved_message(session_id: &str) -> (r: String)
    ensures
        r@ == "Session saved: "@ + session_id@,
{
    concat("Session saved: ", session_id)
}

/// The line shown after a checkpoint is made.
pub fn checkpoint_message(checkpoint_id: &str) -> (r: String)
    ensures
        r@ == "Checkpoint created: "@ + checkpoint_id@,
{
    concat("Checkpoint created: ", checkpoint_id)
}

/// The line shown after `/resume` (`from_checkpoint` false) or `/restore`
/// (true): the session that was resumed, or that there was nothing to load.
pub fn resume_message(resumed: Option<&str>, from_checkpoint: bool) -> (r: String)
    ensures
        r@ == match resumed {
            Some(id) => "Resumed session: "@ + id@,
            None => if from_checkpoint { "Checkpoint does not exist"@ } else { "Session does not exist"@ },
        },
{
    match resumed {
        Some(id) => concat("Resumed session: ", id),
        None => if from_checkpoint { owned("Checkpoint does not exist") } else { owned("Session does not exist") },
    }
}

/// A count line of a listing: `title (n)`.
pub fn count_line(title: &str, n: usize) -> (r: String)
    ensures
        r@ == title@ + " ("@ + decimal(n as nat) + ")"@,
{
    let mut v = chars_of(title);
    push_str_chars(&mut v, " (");
    push_decimal(&mut v, n as u64);
    push_str_chars(&mut v, ")");
    string_of(&v)
}

/// Where a piece of a run goes on the terminal.
pub enum ConsoleOutput {
    /// Written as it is, without a line break (streamed text).
    Inline(String),
    /// Written as a line.
    Line(String),
    /// Written as a line to the error stream.
    ErrorLine(String),
}

/// The text of member `key` of `j` when it is a string, else `default`.
pub open spec fn str_member_or(j: Json, key: Seq<char>, default: Seq<char>) -> Seq<char> {
    match json_get_str(j, key) {
        Some(s) => s,
        None => default,
    }
}

/// What the terminal shows of an event: streamed text inline, a completed
/// text as a line, an error on the error stream; nothing of the others.
pub open spec fn spec_event_output(e: (AgentEventType, Json)) -> Option<(nat, Seq<char>)> {
    match e.0 {
        AgentEventType::TextDelta => Some((0, str_member_or(e.1, "content"@, seq![]))),
        AgentEventType::TextComplete => Some((1, str_member_or(e.1, "content"@, seq![]))),
        AgentEventType::AgentError => Some((2, "Error: "@ + str_member_or(e.1, "error"@, "unknown"@))),
        _ => None,
    }
}

/// The kind (0 inline, 1 line, 2 error line) and text of an output.
pub open spec fn output_view(o: ConsoleOutput) -> (nat, Seq<char>) {
    match o {
        ConsoleOutput::Inline(s) => (0, s@),
        ConsoleOutput::Line(s) => (1, s@),
        ConsoleOutput::ErrorLine(s) => (2, s@),
    }
}

fn str_member(e: &AgentEvent, key: &str, default: &str) -> (r: String)
    ensures
        r@ == str_member_or(e.data@, key@, default@),
{
    match get_str(&e.data, key) {
        Some(s) => owned(s),
        None => owned(default),
    }
}

/// What the terminal shows of an event.
pub fn event_output(e: &AgentEvent) -> (r: Option<ConsoleOutput>)
    ensures
        match r {
            Some(o) => spec_event_output(event_view(*e)) == Some(output_view(o)),
            None => spec_event_output(event_view(*e)) is None,
        },
{
    proof {
        reveal_strlit("");
    }
    match e.event_type {
        AgentEventType::TextDelta => Some(ConsoleOutput::Inline(str_member(e, "content", ""))),
        AgentEventType::TextComplete => Some(ConsoleOutput::Line(str_member(e, "content", ""))),
        AgentEventType::AgentError => {
            let m = str_member(e, "error", "unknown");
            Some(ConsoleOutput::ErrorLine(concat("Error: ", m.as_str())))
        },
        _ => None,
    }
}

/// The answer of a run: the text of its last completed text (empty when that
/// event has no text); `None` when no text was completed.
pub open spec fn spec_final_response(es: Seq<(AgentEventType, Json)>) -> Option<Seq<char>>
    decreases es.len(),
{
    if es.len() == 0 {
        None
    } else if es.last().0 == AgentEventType::TextComplete {
        Some(str_member_or(es.last().1, "content"@, seq![]))
    } else {
        spec_final_response(es.drop_last())
    }
}

/// The answer of a run (see `spec_final_response`).
pub fn final_response(events: &Vec<AgentEvent>) -> (r: Option<String>)
    ensures
        crate::strings::opt_view(r) == spec_final_response(events_view(events@)),
{
    let ghost es = events_view(events@);
    let mut out: Option<String> = None;
    for i in 0..events.len()
        invariant
            es == events_view(events@),
            crate::strings::opt_view(out) == spec_final_response(es.take(i as int)),
    {
        proof {
            reveal_strlit("");
            assert(es.take(i + 1).drop_last() == es.take(i as int));
            assert(es.take(i + 1).last() == event_view(events@[i as int]));
        }
        if events[i].event_type == AgentEventType::TextComplete {
            out = Some(str_member(&events[i], "content", ""));
        }
    }
    assert(es.take(events@.len() as int) == es);
    out
}

/// After `/model <name>` (a non-empty name), `/model` shows that name.
pub proof fn law_model_set_then_shown(model: Seq<char>, name: Seq<char>, approval: ApprovalPolicy, session: Session)
    requires
        name.len() > 0,
    ensures
        spec_command("/model"@, seq![], model_after("/model"@, name, model), approval, session) == OutcomeModel::Print(
            seq!["Current model: "@ + name],
        ),
{
    lemma_command_names();
}

/// After `/approval <policy>` with the name of a policy, `/approval` shows
/// that policy; a name of no policy leaves the policy as it was.
pub proof fn law_approval_set_then_shown(
    current: ApprovalPolicy,
    p: ApprovalPolicy,
    model: Seq<char>,
    other: Seq<char>,
    session: Session,
)
    requires
        other.len() > 0,
        spec_policy_named(other) is None,
    ensures
        approval_after("/approval"@, crate::config::spec_policy_name(p), current) == p,
        spec_command("/approval"@, seq![], model, approval_after("/approval"@, crate::config::spec_policy_name(p), current), session)
            == OutcomeModel::Print(seq!["Current approval policy: "@ + policy_debug_name(p)]),
        approval_after("/approval"@, other, current) == current,
{
    crate::config::law_policy_name_round_trip(p);
    lemma_command_names();
    reveal_strlit("on-request");
    reveal_strlit("auto");
    reveal_strlit("never");
    reveal_strlit("yolo");
    assert(crate::config::spec_policy_name(p).len() > 0);
}

/// The command names that the dispatch tests before `/model`, `/approval`
/// and `/clear` differ from them.
proof fn lemma_command_names()
    ensures
        "/model"@ != "/exit"@,
        "/model"@ != "/quit"@,
        "/model"@ != "/help"@,
        "/model"@ != "/clear"@,
        "/model"@ != "/config"@,
        "/approval"@ != "/exit"@,
        "/approval"@ != "/quit"@,
        "/approval"@ != "/help"@,
        "/approval"@ != "/clear"@,
        "/approval"@ != "/config"@,
        "/approval"@ != "/model"@,
        "/clear"@ != "/exit"@,
        "/clear"@ != "/quit"@,
        "/clear"@ != "/help"@,
{
    reveal_strlit("/exit");
    reveal_strlit("/quit");
    reveal_strlit("/model");
    reveal_strlit("/clear");
    reveal_strlit("/approval");
    reveal_strlit("/help");
    reveal_strlit("/config");
    assert("/exit"@.len() == 5 && "/quit"@.len() == 5 && "/help"@.len() == 5);
    assert("/clear"@.len() == 6 && "/model"@.len() == 6 && "/config"@.len() == 7);
    assert("/approval"@.len() == 9);
    assert("/clear"@[1] != "/model"@[1]);
}

proof fn lemma_no_space_before(s: Seq<char>, j: int)
    requires
        0 <= j < space_index(s),
    ensures
        s[j] != ' ',
    decreases s.len(),
{
    lemma_space_index_len(s);
    assert(s.len() > 0 && s[0] != ' ');
    if j > 0 {
        assert(space_index(s) == 1 + space_index(s.drop_first()));
        lemma_no_space_before(s.drop_first(), j - 1);
        assert(s.drop_first()[j - 1] == s[j]);
    }
}

/// The name of a command never holds a space, and it is empty only when the
/// whole command is blank.
pub proof fn law_command_name_has_no_space(command: Seq<char>)
    ensures
        forall|i: int| 0 <= i < command_parts(command).0.len() ==> command_parts(command).0[i] != ' ',
        command_parts(command).0.len() == 0 ==> trim(command).len() == 0,
{
    let t = trim(command);
    let k = space_index(t);
    assert forall|i: int| 0 <= i < command_parts(command).0.len() implies command_parts(command).0[i] != ' ' by {
        if k < t.len() {
            lemma_no_space_before(t, i);
        } else {
            lemma_space_index_len(t);
            lemma_no_space_before(t, i);
        }
    }
    if command_parts(command).0.len() == 0 && t.len() > 0 {
        lemma_space_index_len(t);
        lemma_trim_start_first(crate::text::trim_end(command));
        assert(k == 0);
        assert(t[0] == ' ');
    }
}

proof fn lemma_trim_start_first(s: Seq<char>)
    ensures
        crate::text::trim_start(s).len() > 0 ==> !crate::text::is_ws(crate::text::trim_start(s)[0]),
    decreases s.len(),
{
    if s.len() > 0 && crate::text::is_ws(s[0]) {
        lemma_trim_start_first(s.drop_first());
    }
}

proof fn lemma_space_index_len(s: Seq<char>)
    ensures
        space_index(s) <= s.len(),
        space_index(s) < s.len() ==> s[space_index(s) as int] == ' ',
    decreases s.len(),
{
    if s.len() > 0 && s[0] != ' ' {
        lemma_space_index_len(s.drop_first());
    }
}

} // verus!
