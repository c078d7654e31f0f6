//! The system prompt and the other fixed prompts that the agent sends.
use vstd::prelude::*;
use crate::strings::{concat, join_seq, join_strings, owned, string_views};

verus! {

/// The agent's identity.
pub fn get_identity_section() -> (r: String)
    ensures
        r@ == "You are Codex, a coding agent based on GPT-5."@,
{
    owned("You are Codex, a coding agent based on GPT-5.")
}

/// The environment the agent works in.
pub fn get_environment_section() -> (r: String)
    ensures
        r@ == "Environment: terminal coding workflow."@,
{
    owned("Environment: terminal coding workflow.")
}

/// The shell the agent's commands run in.
pub fn get_shell_info() -> (r: String)
    ensures
        r@ == "Shell: platform default shell."@,
{
    owned("Shell: platform default shell.")
}

/// The instruction to follow the project's AGENTS.md.
pub fn get_agents_md_section() -> (r: String)
    ensures
        r@ == "Read AGENTS.md and follow project instructions."@,
{
    owned("Read AGENTS.md and follow project instructions.")
}

/// The safety rule.
pub fn get_security_section() -> (r: String)
    ensures
        r@ == "Do not run destructive commands without approval."@,
{
    owned("Do not run destructive commands without approval.")
}

/// How the agent should work.
pub fn get_operational_section() -> (r: String)
    ensures
        r@ == "Use tools, verify changes, and report outcomes clearly."@,
{
    owned("Use tools, verify changes, and report outcomes clearly.")
}

/// The developer's instructions under their heading.
pub fn get_developer_instructions_section(instructions: &str) -> (r: String)
    ensures
        r@ == "Developer instructions:\n"@ + instructions@,
{
    concat("Developer instructions:\n", instructions)
}

/// The user's instructions under their heading.
pub fn get_user_instructions_section(instructions: &str) -> (r: String)
    ensures
        r@ == "User instructions:\n"@ + instructions@,
{
    concat("User instructions:\n", instructions)
}

/// The remembered notes under their heading.
pub fn get_memory_section(memory: &str) -> (r: String)
    ensures
        r@ == "Memory:\n"@ + memory@,
{
    concat("Memory:\n", memory)
}

/// The names of the available tools, separated by commas.
pub fn get_tool_guidelines_section(tool_names: &Vec<String>) -> (r: String)
    ensures
        r@ == "Tools: "@ + join_seq(string_views(tool_names@), ", "@),
{
    let names = join_strings(tool_names, ", ");
    concat("Tools: ", names.as_str())
}

/// The prompt that asks the model to compress a conversation.
pub fn get_compression_prompt() -> (r: String)
    ensures
        r@ == "Compress the conversation while preserving actionable details."@,
{
    owned("Compress the conversation while preserving actionable details.")
}

/// The prompt that tells the model it is going round in circles.
pub fn create_loop_breaker_prompt(loop_description: &str) -> (r: String)
    ensures
        r@ == "Loop detected: "@ + loop_description@
            + ". Try a different strategy and avoid repeating the same calls."@,
{
    let a = concat("Loop detected: ", loop_description);
    concat(a.as_str(), ". Try a different strategy and avoid repeating the same calls.")
}

/// The text of an optional argument, empty when it is absent.
pub open spec fn or_empty(s: Option<&str>) -> Seq<char> {
    match s {
        Some(t) => t@,
        None => seq![],
    }
}

/// The sections of the system prompt, in order.
pub open spec fn system_prompt_sections(
    developer: Seq<char>,
    user: Seq<char>,
    memory: Seq<char>,
    tool_names: Seq<Seq<char>>,
) -> Seq<Seq<char>> {
    seq![
        "You are Codex, a coding agent based on GPT-5."@,
        "Environment: terminal coding workflow."@,
        "Shell: platform default shell."@,
        "Read AGENTS.md and follow project instructions."@,
        "Do not run destructive commands without approval."@,
        "Use tools, verify changes, and report outcomes clearly."@,
        "Developer instructions:\n"@ + developer,
        "User instructions:\n"@ + user,
        "Memory:\n"@ + memory,
        "Tools: "@ + join_seq(tool_names, ", "@),
    ]
}

/// The whole system prompt: its sections separated by blank lines, absent
/// instructions or memory given as empty text.
pub fn get_system_prompt(
    developer_instructions: Option<&str>,
    user_instructions: Option<&str>,
    memory: Option<&str>,
    tool_names: &Vec<String>,
) -> (r: String)
    ensures
        r@ == join_seq(
            system_prompt_sections(
                or_empty(developer_instructions),
                or_empty(user_instructions),
                or_empty(memory),
                string_views(tool_names@),
            ),
            "\n\n"@,
        ),
{
    let dev = match developer_instructions {
        Some(s) => s,
        None => "",
    };
    let user = match user_instructions {
        Some(s) => s,
        None => "",
    };
    let mem = match memory {
        Some(s) => s,
        None => "",
    };
    proof {
        reveal_strlit("");
    }
    let mut sections: Vec<String> = Vec::new();
    sections.push(get_identity_section());
    sections.push(get_environment_section());
    sections.push(get_shell_info());
    sections.push(get_agents_md_section());
    sections.push(get_security_section());
    sections.push(get_operational_section());
    sections.push(get_developer_instructions_section(dev));
    sections.push(get_user_instructions_section(user));
    sections.push(get_memory_section(mem));
    sections.push(get_tool_guidelines_section(tool_names));
    assert(string_views(sections@) =~= system_prompt_sections(
        or_empty(developer_instructions),
        or_empty(user_instructions),
        or_empty(memory),
        string_views(tool_names@),
    ));
    join_strings(&sections, "\n\n")
}

} // verus!
