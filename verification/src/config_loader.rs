//! Finding the configuration files of a project, reading TOML settings as
//! JSON, and merging settings.
use vstd::prelude::*;
use crate::json::{Json, JsonValue, json_members, lemma_json_members_index, lemma_json_members_len, lemma_json_members_step, opt_json};
use crate::paths::{agents_md_path, first_existing, join_path, path_exists, project_config_candidates};
use crate::strings::{owned, str_eq};

verus! {

/// The project's configuration file: `agent.toml` in the working directory,
/// else `.agent/config.toml` there, whichever exists first; `None` when
/// neither exists.
pub fn get_project_config(cwd: &str) -> (r: Option<String>)
    ensures
        r matches Some(p) ==> p@ == join_path(cwd@, "agent.toml"@) || p@ == join_path(join_path(cwd@, ".agent"@), "config.toml"@),
{
    let candidates = project_config_candidates(cwd);
    let mut exists: Vec<bool> = Vec::new();
    for i in 0..candidates.len()
        invariant
            exists@.len() == i,
    {
        exists.push(path_exists(candidates[i].as_str()));
    }
    first_existing(&candidates, &exists)
}

/// The answer of the `AGENTS.md` lookup in `cwd`, given whether that file
/// exists: its path when it does, else `None`.
pub fn agent_md_choice(cwd: &str, exists: bool) -> (r: Option<String>)
    ensures
        (r is Some) == exists,
        exists ==> r->0@ == join_path(cwd@, "AGENTS.md"@),
{
    if exists {
        Some(agents_md_path(cwd))
    } else {
        None
    }
}

/// The project's `AGENTS.md`, when it exists (see `agent_md_choice`).
pub fn get_agent_md_files(cwd: &str) -> (r: Option<String>)
    ensures
        r matches Some(p) ==> p@ == join_path(cwd@, "AGENTS.md"@),
{
    let p = agents_md_path(cwd);
    let exists = path_exists(p.as_str());
    agent_md_choice(cwd, exists)
}

/// What `toml::from_str` reads from `text`, turned into JSON by
/// `serde_json::to_value`: the value, or the error's text.
pub uninterp spec fn toml_parse(text: Seq<char>) -> Result<Json, Seq<char>>;

/// The model of a parse outcome.
pub open spec fn parse_view(r: Result<JsonValue, String>) -> Result<Json, Seq<char>> {
    match r {
        Ok(v) => Ok(v@),
        Err(e) => Err(e@),
    }
}

/// Reads `text` as TOML with `toml::from_str` and turns the value into JSON
/// with `serde_json::to_value`; the outcome is named `toml_parse(text)`.
#[verifier::external_body]
fn toml_to_json(text: &str) -> (r: Result<JsonValue, String>)
    ensures
        parse_view(r) == toml_parse(text@),
{
    match toml::from_str::<toml::Value>(text) {
        Ok(v) => match serde_json::to_value(v) {
            Ok(j) => Ok(crate::json::from_serde(j)),
            Err(e) => Err(e.to_string()),
        },
        Err(e) => Err(e.to_string()),
    }
}

/// The settings in the TOML text `text`, as JSON.
pub fn parse_toml_text(text: &str) -> (r: Result<JsonValue, String>)
    ensures
        parse_view(r) == toml_parse(text@),
{
    toml_to_json(text)
}

/// The position of the last member named `key`, or -1.
pub open spec fn member_position(ms: Seq<(Seq<char>, Json)>, key: Seq<char>) -> int
    decreases ms.len(),
{
    if ms.len() == 0 {
        -1
    } else if ms.last().0 == key {
        ms.len() - 1
    } else {
        member_position(ms.drop_last(), key)
    }
}

proof fn lemma_member_position_at(ms: Seq<(Seq<char>, Json)>, key: Seq<char>, p: int)
    requires
        0 <= p < ms.len(),
        ms[p].0 == key,
        forall|k: int| p < k < ms.len() ==> (#[trigger] ms[k]).0 != key,
    ensures
        member_position(ms, key) == p,
    decreases ms.len(),
{
    if p < ms.len() - 1 {
        lemma_member_position_at(ms.drop_last(), key, p);
    }
}

proof fn lemma_member_position_none(ms: Seq<(Seq<char>, Json)>, key: Seq<char>)
    requires
        forall|k: int| 0 <= k < ms.len() ==> (#[trigger] ms[k]).0 != key,
    ensures
        member_position(ms, key) == -1,
    decreases ms.len(),
{
    if ms.len() > 0 {
        lemma_member_position_none(ms.drop_last(), key);
    }
}

/// The members after `m` is set: a member of that name is replaced, else `m`
/// is added at the end.
pub open spec fn put_member(ms: Seq<(Seq<char>, Json)>, m: (Seq<char>, Json)) -> Seq<(Seq<char>, Json)> {
    let i = member_position(ms, m.0);
    if i >= 0 {
        ms.update(i, m)
    } else {
        ms.push(m)
    }
}

/// `base` with every member of `over` set in turn.
pub open spec fn merged(base: Seq<(Seq<char>, Json)>, over: Seq<(Seq<char>, Json)>) -> Seq<(Seq<char>, Json)>
    decreases over.len(),
{
    if over.len() == 0 {
        base
    } else {
        put_member(merged(base, over.drop_last()), over.last())
    }
}

/// The settings `base` with those of `override_map` laid over them.
pub fn merge_dicts(base: Vec<(String, JsonValue)>, override_map: Vec<(String, JsonValue)>) -> (r: Vec<(String, JsonValue)>)
    ensures
        json_members(r@) == merged(json_members(base@), json_members(override_map@)),
{
    let ghost b = json_members(base@);
    let ghost o = json_members(override_map@);
    proof {
        lemma_json_members_len(override_map@);
    }
    let mut out = base;
    for i in 0..override_map.len()
        invariant
            b == json_members(base@),
            o == json_members(override_map@),
            o.len() == override_map@.len(),
            json_members(out@) == merged(b, o.take(i as int)),
    {
        let ghost prev = json_members(out@);
        proof {
            lemma_json_members_len(out@);
            lemma_json_members_index(override_map@, i as int);
            assert(o.take(i + 1).drop_last() =~= o.take(i as int));
            assert(o.take(i + 1).last() == o[i as int]);
        }
        let key = override_map[i].0.clone();
        let value = override_map[i].1.deep_clone();
        let ghost m = (key@, value@);
        assert(m == o[i as int]);
        let mut j: usize = out.len();
        while j > 0
            invariant
                prev == json_members(out@),
                prev.len() == out@.len(),
                j <= out@.len(),
                key@ == m.0,
                forall|k: int| j <= k < prev.len() ==> (#[trigger] prev[k]).0 != m.0,
            ensures
                j <= out@.len(),
                forall|k: int| j <= k < prev.len() ==> (#[trigger] prev[k]).0 != m.0,
                j > 0 ==> prev[j - 1].0 == m.0,
            decreases j,
        {
            proof {
                lemma_json_members_index(out@, j - 1);
            }
            if str_eq(out[j - 1].0.as_str(), key.as_str()) {
                break;
            }
            j = j - 1;
        }
        if j > 0 {
            proof {
                lemma_member_position_at(prev, m.0, j - 1);
            }
            let ghost before = out@;
            out.set(j - 1, (key, value));
            proof {
                lemma_json_members_len(out@);
                lemma_json_members_len(before);
                assert forall|k: int| 0 <= k < out@.len() implies #[trigger] json_members(out@)[k] == prev.update(j - 1, m)[k] by {
                    lemma_json_members_index(out@, k);
                    lemma_json_members_index(before, k);
                }
                assert(json_members(out@) =~= prev.update(j - 1, m));
            }
        } else {
            proof {
                lemma_member_position_none(prev, m.0);
            }
            let ghost before = out@;
            out.push((key, value));
            proof {
                assert(out@.drop_last() == before);
                assert(json_members(out@) == json_members(before).push(m));
            }
        }
    }
    assert(o.take(override_map@.len() as int) =~= o);
    out
}

/// The value of the last member named `key`, if any.
pub open spec fn last_value(ms: Seq<(Seq<char>, Json)>, key: Seq<char>) -> Option<Json> {
    let i = member_position(ms, key);
    if i >= 0 {
        Some(ms[i].1)
    } else {
        None
    }
}

proof fn lemma_member_position_range(ms: Seq<(Seq<char>, Json)>, key: Seq<char>)
    ensures
        -1 <= member_position(ms, key) < ms.len(),
        member_position(ms, key) >= 0 ==> ms[member_position(ms, key)].0 == key,
        forall|k: int| member_position(ms, key) < k < ms.len() ==> (#[trigger] ms[k]).0 != key,
    decreases ms.len(),
{
    if ms.len() > 0 {
        lemma_member_position_range(ms.drop_last(), key);
        if ms.last().0 != key {
            assert forall|k: int| member_position(ms, key) < k < ms.len() implies (#[trigger] ms[k]).0 != key by {
                if k < ms.len() - 1 {
                    assert(ms[k] == ms.drop_last()[k]);
                }
            }
        }
    }
}

proof fn lemma_position_same_keys(ms: Seq<(Seq<char>, Json)>, i: int, m: (Seq<char>, Json), key: Seq<char>)
    requires
        0 <= i < ms.len(),
        ms[i].0 == m.0,
    ensures
        member_position(ms.update(i, m), key) == member_position(ms, key),
    decreases ms.len(),
{
    let u = ms.update(i, m);
    if i < ms.len() - 1 {
        assert(u.drop_last() =~= ms.drop_last().update(i, m));
        lemma_position_same_keys(ms.drop_last(), i, m, key);
    } else {
        assert(u.drop_last() =~= ms.drop_last());
    }
}

proof fn lemma_put_member_value(ms: Seq<(Seq<char>, Json)>, m: (Seq<char>, Json), key: Seq<char>)
    ensures
        last_value(put_member(ms, m), key) == if m.0 == key { Some(m.1) } else { last_value(ms, key) },
{
    lemma_member_position_range(ms, m.0);
    let i = member_position(ms, m.0);
    if i >= 0 {
        let u = ms.update(i, m);
        lemma_position_same_keys(ms, i, m, key);
        if m.0 == key {
            assert(member_position(u, key) == i);
        } else {
            lemma_member_position_range(ms, key);
            let j = member_position(ms, key);
            if j >= 0 {
                assert(j != i);
                assert(u[j] == ms[j]);
            }
        }
    } else {
        let u = ms.push(m);
        assert(u.drop_last() =~= ms);
        if m.0 != key {
            lemma_member_position_range(ms, key);
            let j = member_position(ms, key);
            if j >= 0 {
                assert(u[j] == ms[j]);
            }
        }
    }
}

/// Merging settings: a setting that the override gives wins; any other keeps
/// the value of the base.
pub proof fn law_merge_override_wins(base: Seq<(Seq<char>, Json)>, over: Seq<(Seq<char>, Json)>, key: Seq<char>)
    ensures
        last_value(merged(base, over), key) == match last_value(over, key) {
            Some(v) => Some(v),
            None => last_value(base, key),
        },
    decreases over.len(),
{
    if over.len() > 0 {
        law_merge_override_wins(base, over.drop_last(), key);
        lemma_put_member_value(merged(base, over.drop_last()), over.last(), key);
        let o = over.drop_last();
        assert(over =~= o.push(over.last()));
        if over.last().0 != key {
            lemma_member_position_range(o, key);
            let j = member_position(o, key);
            assert(member_position(over, key) == j);
            if j >= 0 {
                assert(over[j] == o[j]);
            }
        }
    }
}

} // verus!
