//! Paths as text (Unix conventions): joining, showing relative to a directory,
//! and the agent's configuration and data directories.
use vstd::prelude::*;
use crate::strings::{chars_of, opt_view, owned, string_of};

verus! {

/// A path is absolute when it starts with `/`.
pub open spec fn is_absolute(p: Seq<char>) -> bool {
    p.len() > 0 && p[0] == '/'
}

/// `base` joined with `p` as `Path::join` does on Unix: an absolute `p`
/// replaces `base`; otherwise a `/` separates them unless `base` is empty or
/// already ends with one.
pub open spec fn join_path(base: Seq<char>, p: Seq<char>) -> Seq<char> {
    if is_absolute(p) {
        p
    } else if base.len() == 0 {
        p
    } else if base.last() == '/' {
        base + p
    } else {
        base + seq!['/'] + p
    }
}

/// `base` joined with `p` (see `join_path`).
pub fn join(base: &str, p: &str) -> (r: String)
    ensures
        r@ == join_path(base@, p@),
{
    let b = chars_of(base);
    let pc = chars_of(p);
    if pc.len() > 0 && pc[0] == '/' {
        return string_of(&pc);
    }
    if b.len() == 0 {
        return string_of(&pc);
    }
    let mut out = b;
    if out[out.len() - 1] != '/' {
        out.push('/');
    }
    crate::strings::push_all(&mut out, &pc);
    string_of(&out)
}

/// The path `path` names when read relative to `base`.
pub fn resolve_path(base: &str, path: &str) -> (r: String)
    ensures
        r@ == join_path(base@, path@),
        is_absolute(path@) ==> r@ == path@,
{
    join(base, path)
}

/// What `Path::strip_prefix` leaves of `path` once the leading components that
/// make up `base` are removed, shown as text; `None` when `base` is not a
/// component-wise prefix of `path`.
pub uninterp spec fn strip_prefix_text(path: Seq<char>, base: Seq<char>) -> Option<Seq<char>>;

/// `Path::strip_prefix` followed by `display().to_string()`: the rest of `path`
/// after the components of `base`, or `None` when `base` is no prefix of it.
#[verifier::external_body]
pub(crate) fn strip_path_prefix(path: &str, base: &str) -> (r: Option<String>)
    ensures
        match r {
            Some(s) => strip_prefix_text(path@, base@) == Some(s@),
            None => strip_prefix_text(path@, base@) is None,
        },
{
    std::path::Path::new(path).strip_prefix(base).ok().map(|p| p.display().to_string())
}

/// The relative form when there is one, else the path itself.
pub fn relative_or_full(path: &str, relative: Option<String>) -> (r: String)
    ensures
        r@ == match relative {
            Some(s) => s@,
            None => path@,
        },
{
    match relative {
        Some(s) => s,
        None => owned(path),
    }
}

/// `path` shown relative to `cwd` when it lies under it, else as it is.
pub fn display_path_rel_to_cwd(path: &str, cwd: Option<&str>) -> (r: String)
    ensures
        r@ == match cwd {
            Some(c) => match strip_prefix_text(path@, c@) {
                Some(rel) => rel,
                None => path@,
            },
            None => path@,
        },
{
    match cwd {
        Some(c) => relative_or_full(path, strip_path_prefix(path, c)),
        None => owned(path),
    }
}

/// Content that holds a zero byte among its first 4096 bytes is taken for binary.
pub open spec fn looks_binary(data: Seq<u8>) -> bool {
    exists|i: int| 0 <= i < data.len() && i < 4096 && data[i] == 0
}

/// Whether file content looks binary: a zero byte among the first 4096 bytes.
pub fn bytes_look_binary(data: &Vec<u8>) -> (r: bool)
    ensures
        r == looks_binary(data@),
{
    let n = if data.len() < 4096 {
        data.len()
    } else {
        4096
    };
    for i in 0..n
        invariant
            n <= data@.len(),
            n <= 4096,
            n == data@.len() || n == 4096,
            forall|k: int| 0 <= k < i ==> data@[k] != 0,
    {
        if data[i] == 0 {
            return true;
        }
    }
    false
}

/// The user's configuration directory, from `dirs::config_dir`. Nothing is
/// stated of the result: it depends on the platform and the environment.
#[verifier::external_body]
pub(crate) fn platform_config_dir() -> (r: Option<String>) {
    dirs::config_dir().map(|p| p.to_string_lossy().into_owned())
}

/// The user's data directory, from `dirs::data_dir`. Nothing is stated of the
/// result: it depends on the platform and the environment.
#[verifier::external_body]
pub(crate) fn platform_data_dir() -> (r: Option<String>) {
    dirs::data_dir().map(|p| p.to_string_lossy().into_owned())
}

/// The agent's own directory under a platform directory (`.` when there is none).
pub open spec fn agent_dir_under(base: Option<Seq<char>>) -> Seq<char> {
    join_path(
        match base {
            Some(b) => b,
            None => "."@,
        },
        "rust-coding-agent"@,
    )
}

/// The agent's directory under the given platform directory.
pub fn agent_dir(base: Option<String>) -> (r: String)
    ensures
        r@ == agent_dir_under(opt_view(base)),
{
    let b = match base {
        Some(b) => b,
        None => owned("."),
    };
    join(b.as_str(), "rust-coding-agent")
}

/// The agent's configuration directory.
pub fn get_config_dir() -> (r: String)
    ensures
        exists|b: Option<Seq<char>>| r@ == agent_dir_under(b),
{
    let base = platform_config_dir();
    let ghost gb = opt_view(base);
    let r = agent_dir(base);
    assert(r@ == agent_dir_under(gb));
    r
}

/// The agent's data directory.
pub fn get_data_dir() -> (r: String)
    ensures
        exists|b: Option<Seq<char>>| r@ == agent_dir_under(b),
{
    let base = platform_data_dir();
    let ghost gb = opt_view(base);
    let r = agent_dir(base);
    assert(r@ == agent_dir_under(gb));
    r
}

/// The system-wide configuration file.
pub fn get_system_config_path() -> (r: String)
    ensures
        exists|b: Option<Seq<char>>| r@ == join_path(agent_dir_under(b), "config.toml"@),
{
    let d = get_config_dir();
    join(d.as_str(), "config.toml")
}

/// The places where a project's configuration may be, in the order they are tried.
pub fn project_config_candidates(cwd: &str) -> (r: Vec<String>)
    ensures
        r@.len() == 2,
        r@[0]@ == join_path(cwd@, "agent.toml"@),
        r@[1]@ == join_path(join_path(cwd@, ".agent"@), "config.toml"@),
{
    let mut v: Vec<String> = Vec::new();
    v.push(join(cwd, "agent.toml"));
    let a = join(cwd, ".agent");
    v.push(join(a.as_str(), "config.toml"));
    v
}

/// The first candidate that exists.
pub fn first_existing(candidates: &Vec<String>, exists: &Vec<bool>) -> (r: Option<String>)
    requires
        candidates@.len() == exists@.len(),
    ensures
        match r {
            Some(s) => exists|i: int| 0 <= i < candidates@.len() && exists@[i] && s@ == candidates@[i]@
                && forall|k: int| 0 <= k < i ==> !exists@[k],
            None => forall|k: int| 0 <= k < exists@.len() ==> !exists@[k],
        },
{
    for i in 0..candidates.len()
        invariant
            candidates@.len() == exists@.len(),
            forall|k: int| 0 <= k < i ==> !exists@[k],
    {
        if exists[i] {
            return Some(candidates[i].clone());
        }
    }
    None
}

/// Where a project's AGENTS.md would be.
pub fn agents_md_path(cwd: &str) -> (r: String)
    ensures
        r@ == join_path(cwd@, "AGENTS.md"@),
{
    join(cwd, "AGENTS.md")
}

/// `Path::exists`: whether something exists at `path`. What it answers
/// depends on the disk, so nothing is stated of it.
#[verifier::external_body]
pub(crate) fn path_exists(path: &str) -> (r: bool) {
    std::path::Path::new(path).exists()
}

} // verus!
