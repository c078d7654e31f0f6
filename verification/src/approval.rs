//! Deciding whether a tool action may run, needs the user's confirmation, or
//! is refused.
use vstd::prelude::*;
use crate::config::ApprovalPolicy;
use crate::strings::{chars_of, contains, contains_exec};

verus! {

/// Outcome of holding a proposed tool action against the approval policy.
#[derive(Debug, Clone, Copy, PartialEq, Eq)]
pub enum ApprovalDecision {
    Approved,
    Rejected,
    NeedsConfirmation,
}

/// What is known about a proposed tool action.
pub struct ApprovalContext {
    pub tool_name: String,
    pub is_mutating: bool,
    pub affected_paths: Vec<String>,
    pub command: Option<String>,
    pub is_dangerous: bool,
}

/// The text that `str::to_lowercase` returns for `s` (Unicode lower-case mapping).
pub uninterp spec fn lowercase(s: Seq<char>) -> Seq<char>;

/// Whether every character of `s` is ASCII.
pub open spec fn is_ascii_text(s: Seq<char>) -> bool {
    forall|i: int| 0 <= i < s.len() ==> (#[trigger] s[i] as u32) < 128
}

/// A character lowered the ASCII way: `A` to `Z` become `a` to `z`, any other
/// character stays.
pub open spec fn ascii_lower_char(c: char) -> char {
    if 65 <= (c as u32) && (c as u32) <= 90 {
        ((c as u32) + 32) as char
    } else {
        c
    }
}

/// A text lowered the ASCII way, character by character.
pub open spec fn ascii_lower(s: Seq<char>) -> Seq<char> {
    s.map_values(|c: char| ascii_lower_char(c))
}

/// The lower-case form of a text: ASCII-wise for ASCII text, else the text
/// that `str::to_lowercase` gives.
pub open spec fn lower_text(s: Seq<char>) -> Seq<char> {
    if is_ascii_text(s) {
        ascii_lower(s)
    } else {
        lowercase(s)
    }
}

/// `str::to_lowercase`: the lower-case form of `s` by Unicode's case mapping,
/// which std documents character by character; the contract names the result
/// `lowercase(s)` and states that ASCII text is lowered the ASCII way.
#[verifier::external_body]
pub(crate) fn to_lowercase(s: &str) -> (r: String)
    ensures
        r@ == lowercase(s@),
        is_ascii_text(s@) ==> r@ == ascii_lower(s@),
{
    s.to_lowercase()
}

/// A text of lower-case ASCII letters is its own lower-case form.
pub proof fn lemma_lower_of_lower_letters(s: Seq<char>)
    requires
        forall|i: int| 0 <= i < s.len() ==> 97 <= (#[trigger] s[i] as u32) && (s[i] as u32) <= 122,
    ensures
        lower_text(s) == s,
{
    assert(is_ascii_text(s));
    assert(ascii_lower(s) =~= s);
}

/// The command fragments that mark a shell command as destructive.
pub open spec fn blocked_patterns() -> Seq<Seq<char>> {
    seq![
        "rm -rf /"@,
        "dd if=/dev/zero"@,
        "mkfs"@,
        "shutdown"@,
        "reboot"@,
        "halt"@,
        "poweroff"@,
    ]
}

/// `s` holds one of the blocked fragments.
pub open spec fn mentions_blocked(s: Seq<char>) -> bool {
    exists|i: int| 0 <= i < blocked_patterns().len() && contains(s, #[trigger] blocked_patterns()[i])
}

/// Whether the (already lower-cased) command text holds a blocked fragment.
pub fn mentions_blocked_pattern(lowered: &str) -> (r: bool)
    ensures
        r == mentions_blocked(lowered@),
{
    let cmd = chars_of(lowered);
    let patterns = [
        "rm -rf /",
        "dd if=/dev/zero",
        "mkfs",
        "shutdown",
        "reboot",
        "halt",
        "poweroff",
    ];
    proof {
        reveal_strlit("rm -rf /");
        reveal_strlit("dd if=/dev/zero");
        reveal_strlit("mkfs");
        reveal_strlit("shutdown");
        reveal_strlit("reboot");
        reveal_strlit("halt");
        reveal_strlit("poweroff");
    }
    assert(forall|i: int| 0 <= i < 7 ==> #[trigger] patterns@[i]@ == blocked_patterns()[i]);
    for i in 0..7
        invariant
            cmd@ == lowered@,
            forall|j: int| 0 <= j < 7 ==> #[trigger] patterns@[j]@ == blocked_patterns()[j],
            forall|j: int| 0 <= j < i ==> !contains(lowered@, #[trigger] blocked_patterns()[j]),
    {
        let p = chars_of(patterns[i]);
        if contains_exec(&cmd, &p) {
            assert(contains(lowered@, blocked_patterns()[i as int]));
            return true;
        }
    }
    false
}

/// A shell command is dangerous when its lower-case form holds one of the
/// blocked fragments (`rm -rf /`, `dd if=/dev/zero`, `mkfs`, `shutdown`,
/// `reboot`, `halt`, `poweroff`).
pub fn is_dangerous_command(command: &str) -> (r: bool)
    ensures
        r == mentions_blocked(lower_text(command@)),
{
    let lowered = to_lowercase(command);
    mentions_blocked_pattern(lowered.as_str())
}

/// A shell command is safe exactly when it is not dangerous.
pub fn is_safe_command(command: &str) -> (r: bool)
    ensures
        r == !mentions_blocked(lower_text(command@)),
{
    !is_dangerous_command(command)
}

/// The decision that `policy` gives an action with the two flags.
pub open spec fn spec_decision(policy: ApprovalPolicy, is_mutating: bool, is_dangerous: bool) -> ApprovalDecision {
    match policy {
        ApprovalPolicy::Yolo => ApprovalDecision::Approved,
        ApprovalPolicy::Never => if is_mutating || is_dangerous {
            ApprovalDecision::Rejected
        } else {
            ApprovalDecision::Approved
        },
        ApprovalPolicy::Auto => if is_dangerous {
            ApprovalDecision::NeedsConfirmation
        } else {
            ApprovalDecision::Approved
        },
        ApprovalPolicy::OnRequest => if is_mutating || is_dangerous {
            ApprovalDecision::NeedsConfirmation
        } else {
            ApprovalDecision::Approved
        },
    }
}

/// Applies an approval policy to proposed tool actions.
pub struct ApprovalManager {
    policy: ApprovalPolicy,
    cwd: String,
}

impl ApprovalManager {
    /// The policy this manager applies.
    pub closed spec fn spec_policy(&self) -> ApprovalPolicy {
        self.policy
    }

    /// The working directory this manager was made for.
    pub closed spec fn spec_cwd(&self) -> Seq<char> {
        self.cwd@
    }

    /// A manager that applies `policy`.
    pub fn new(policy: ApprovalPolicy, cwd: String) -> (r: Self)
        ensures
            r.spec_policy() == policy,
            r.spec_cwd() == cwd@,
    {
        ApprovalManager { policy, cwd }
    }

    /// The policy this manager applies.
    pub fn policy(&self) -> (r: ApprovalPolicy)
        ensures
            r == self.spec_policy(),
    {
        self.policy
    }

    /// The decision for an action: `yolo` approves everything; `never` refuses
    /// what mutates or is dangerous; `auto` asks for dangerous actions;
    /// `on-request` asks for what mutates or is dangerous; all else is approved.
    pub fn check_approval(&self, ctx: &ApprovalContext) -> (r: ApprovalDecision)
        ensures
            r == spec_decision(self.spec_policy(), ctx.is_mutating, ctx.is_dangerous),
    {
        match self.policy {
            ApprovalPolicy::Yolo => ApprovalDecision::Approved,
            ApprovalPolicy::Never => {
                if ctx.is_mutating || ctx.is_dangerous {
                    ApprovalDecision::Rejected
                } else {
                    ApprovalDecision::Approved
                }
            },
            ApprovalPolicy::Auto => {
                if ctx.is_dangerous {
                    ApprovalDecision::NeedsConfirmation
                } else {
                    ApprovalDecision::Approved
                }
            },
            ApprovalPolicy::OnRequest => {
                if ctx.is_mutating || ctx.is_dangerous {
                    ApprovalDecision::NeedsConfirmation
                } else {
                    ApprovalDecision::Approved
                }
            },
        }
    }

    /// Asking the user is not wired up: every confirmation request is declined.
    pub fn request_confirmation(&self, ctx: &ApprovalContext) -> (r: bool)
        ensures
            !r,
    {
        false
    }
}

/// An action that neither mutates nor is dangerous is approved under every policy.
pub proof fn law_benign_actions_approved(policy: ApprovalPolicy)
    ensures
        spec_decision(policy, false, false) == ApprovalDecision::Approved,
{
}

/// Only `never` refuses outright, and only `yolo` approves a dangerous action
/// without asking.
pub proof fn law_dangerous_actions_guarded(policy: ApprovalPolicy, is_mutating: bool)
    ensures
        spec_decision(policy, is_mutating, true) == ApprovalDecision::Approved <==> policy == ApprovalPolicy::Yolo,
        spec_decision(policy, is_mutating, true) == ApprovalDecision::Rejected <==> policy == ApprovalPolicy::Never,
{
}

/// `never` never asks the user, and `yolo` never refuses nor asks.
pub proof fn law_policies_that_never_ask(is_mutating: bool, is_dangerous: bool)
    ensures
        spec_decision(ApprovalPolicy::Never, is_mutating, is_dangerous) != ApprovalDecision::NeedsConfirmation,
        spec_decision(ApprovalPolicy::Yolo, is_mutating, is_dangerous) == ApprovalDecision::Approved,
{
}

} // verus!
