//! Tools described by JSON manifests in the project: where they are looked
//! for, which descriptions are kept, and the tools made from them.
use vstd::prelude::*;
use crate::json::{Json, JsonValue};
use crate::paths::{join, join_path};
use crate::process_tools::is_complete_tool_spec;
use crate::strings::{opt_view, owned};
use crate::text::trim;
use crate::tool_base::ToolKind;

verus! {

/// A tool as its manifest describes it.
pub struct DiscoveredToolSpec {
    pub name: String,
    pub description: String,
    pub parameters: JsonValue,
    pub command: String,
    pub args: Vec<String>,
    pub cwd: Option<String>,
    pub timeout_sec: u64,
    pub env: Vec<(String, String)>,
}

/// The time limit of a discovered tool when its manifest gives none, in seconds.
pub fn default_timeout() -> (r: u64)
    ensures
        r == 30,
{
    30
}

/// The model of a tool description.
pub type SpecModel = (Seq<char>, Seq<char>, Json, Seq<char>, Seq<String>, Option<Seq<char>>, u64, Seq<(String, String)>);

/// The model of a tool description.
pub open spec fn spec_model(s: DiscoveredToolSpec) -> SpecModel {
    (s.name@, s.description@, s.parameters@, s.command@, s.args@, opt_view(s.cwd), s.timeout_sec, s.env@)
}

/// A description that names the tool, describes it and gives its command
/// (none of them blank).
pub open spec fn is_complete(s: SpecModel) -> bool {
    trim(s.0).len() > 0 && trim(s.1).len() > 0 && trim(s.3).len() > 0
}

/// The complete descriptions among `found` (manifest path, description), in order.
pub open spec fn kept(found: Seq<(Seq<char>, SpecModel)>) -> Seq<(Seq<char>, SpecModel)>
    decreases found.len(),
{
    if found.len() == 0 {
        seq![]
    } else if is_complete(found.last().1) {
        kept(found.drop_last()).push(found.last())
    } else {
        kept(found.drop_last())
    }
}

/// The model of the manifests found: their paths and descriptions.
pub open spec fn found_view(found: Seq<(String, DiscoveredToolSpec)>) -> Seq<(Seq<char>, SpecModel)> {
    found.map_values(|f: (String, DiscoveredToolSpec)| (f.0@, spec_model(f.1)))
}

fn copy_strings(v: &Vec<String>) -> (r: Vec<String>)
    ensures
        r@ == v@,
{
    let mut out: Vec<String> = Vec::new();
    for i in 0..v.len()
        invariant
            out@ == v@.take(i as int),
    {
        out.push(v[i].clone());
        assert(out@ =~= v@.take(i + 1));
    }
    assert(v@.take(v@.len() as int) =~= v@);
    out
}

fn copy_pairs(v: &Vec<(String, String)>) -> (r: Vec<(String, String)>)
    ensures
        r@ == v@,
{
    let mut out: Vec<(String, String)> = Vec::new();
    for i in 0..v.len()
        invariant
            out@ == v@.take(i as int),
    {
        out.push((v[i].0.clone(), v[i].1.clone()));
        assert(out@ =~= v@.take(i + 1));
    }
    assert(v@.take(v@.len() as int) =~= v@);
    out
}

impl DiscoveredToolSpec {
    /// A copy of this description.
    pub fn copy(&self) -> (r: DiscoveredToolSpec)
        ensures
            spec_model(r) == spec_model(*self),
    {
        DiscoveredToolSpec {
            name: self.name.clone(),
            description: self.description.clone(),
            parameters: self.parameters.deep_clone(),
            command: self.command.clone(),
            args: copy_strings(&self.args),
            cwd: match &self.cwd {
                Some(c) => Some(c.clone()),
                None => None,
            },
            timeout_sec: self.timeout_sec,
            env: copy_pairs(&self.env),
        }
    }

    /// A copy of this description, its working directory replaced by `cwd`
    /// when it has none.
    pub fn with_default_cwd(&self, cwd: &str) -> (r: DiscoveredToolSpec)
        ensures
            spec_model(r) == (match self.cwd {
                Some(_) => spec_model(*self),
                None => {
                    let m = spec_model(*self);
                    (m.0, m.1, m.2, m.3, m.4, Some(cwd@), m.6, m.7)
                },
            }),
    {
        DiscoveredToolSpec {
            name: self.name.clone(),
            description: self.description.clone(),
            parameters: self.parameters.deep_clone(),
            command: self.command.clone(),
            args: copy_strings(&self.args),
            cwd: match &self.cwd {
                Some(c) => Some(c.clone()),
                None => Some(owned(cwd)),
            },
            timeout_sec: self.timeout_sec,
            env: copy_pairs(&self.env),
        }
    }
}

/// A tool that runs the command of its manifest.
pub struct DiscoveredTool {
    pub spec: DiscoveredToolSpec,
}

impl DiscoveredTool {
    pub fn new(spec: DiscoveredToolSpec) -> (r: Self)
        ensures
            r.spec == spec,
    {
        DiscoveredTool { spec }
    }

    pub fn name(&self) -> (r: &str)
        ensures
            r@ == self.spec.name@,
    {
        self.spec.name.as_str()
    }

    pub fn description(&self) -> (r: &str)
        ensures
            r@ == self.spec.description@,
    {
        self.spec.description.as_str()
    }

    /// Discovered tools run commands.
    pub fn kind(&self) -> (r: ToolKind)
        ensures
            r == ToolKind::Shell,
    {
        ToolKind::Shell
    }

    /// The parameters the tool takes, as its manifest gives them.
    pub fn schema(&self) -> (r: JsonValue)
        ensures
            r@ == self.spec.parameters@,
    {
        self.spec.parameters.deep_clone()
    }

    /// Running a discovered tool always counts as mutating.
    pub fn is_mutating(&self, params: &JsonValue) -> (r: bool)
        ensures
            r,
    {
        true
    }

    /// The directory the command runs in: the manifest's, else that of the call.
    pub fn working_dir(&self, invocation_cwd: &str) -> (r: String)
        ensures
            r@ == match self.spec.cwd {
                Some(c) => c@,
                None => invocation_cwd@,
            },
    {
        match &self.spec.cwd {
            Some(c) => c.clone(),
            None => owned(invocation_cwd),
        }
    }

    /// How long the command may run, in seconds (at least one).
    pub fn timeout(&self) -> (r: u64)
        ensures
            r == if self.spec.timeout_sec >= 1 { self.spec.timeout_sec } else { 1 },
    {
        if self.spec.timeout_sec >= 1 {
            self.spec.timeout_sec
        } else {
            1
        }
    }
}

/// The directories searched for manifests under the working directory `cwd`.
pub open spec fn spec_roots(cwd: Seq<char>) -> Seq<Seq<char>> {
    seq![join_path(join_path(cwd, "tools"@), "discovered"@), join_path(join_path(cwd, ".agent"@), "tools"@)]
}

/// Keeps the tool descriptions found in the project's manifests.
pub struct ToolDiscoveryManager {
    discovered_specs: Vec<DiscoveredToolSpec>,
    discovered_manifests: Vec<String>,
}

impl ToolDiscoveryManager {
    /// The kept manifests and their descriptions, in order.
    pub closed spec fn spec_kept(&self) -> Seq<(Seq<char>, SpecModel)> {
        Seq::new(
            self.discovered_specs@.len(),
            |i: int| (self.discovered_manifests@[i]@, spec_model(self.discovered_specs@[i])),
        )
    }

    #[verifier::type_invariant]
    closed spec fn inv(&self) -> bool {
        self.discovered_specs@.len() == self.discovered_manifests@.len()
    }

    /// A manager that knows no tools.
    pub fn new() -> (r: Self)
        ensures
            r.spec_kept() == Seq::<(Seq<char>, SpecModel)>::empty(),
    {
        let r = ToolDiscoveryManager { discovered_specs: Vec::new(), discovered_manifests: Vec::new() };
        assert(r.spec_kept() =~= Seq::<(Seq<char>, SpecModel)>::empty());
        r
    }

    /// The directories that are searched for manifests.
    pub fn discovery_roots(cwd: &str) -> (r: Vec<String>)
        ensures
            r@.map_values(|s: String| s@) == spec_roots(cwd@),
    {
        let mut v: Vec<String> = Vec::new();
        let t = join(cwd, "tools");
        v.push(join(t.as_str(), "discovered"));
        let a = join(cwd, ".agent");
        v.push(join(a.as_str(), "tools"));
        assert(v@.map_values(|s: String| s@) =~= spec_roots(cwd@));
        v
    }

    /// Replaces what is known with the complete descriptions among those
    /// found (manifest path, description), in the order they were found.
    pub fn record(&mut self, found: Vec<(String, DiscoveredToolSpec)>)
        ensures
            final(self).spec_kept() == kept(found_view(found@)),
    {
        let ghost fv = found_view(found@);
        let mut specs: Vec<DiscoveredToolSpec> = Vec::new();
        let mut paths: Vec<String> = Vec::new();
        for i in 0..found.len()
            invariant
                fv == found_view(found@),
                specs@.len() == paths@.len(),
                Seq::new(specs@.len(), |k: int| (paths@[k]@, spec_model(specs@[k]))) == kept(fv.take(i as int)),
        {
            let f = &found[i];
            let ghost prev = Seq::new(specs@.len(), |k: int| (paths@[k]@, spec_model(specs@[k])));
            proof {
                assert(fv.take(i + 1).drop_last() =~= fv.take(i as int));
                assert(fv.take(i + 1).last() == (f.0@, spec_model(f.1)));
            }
            if is_complete_tool_spec(f.1.name.as_str(), f.1.description.as_str(), f.1.command.as_str()) {
                let c = f.1.copy();
                paths.push(f.0.clone());
                specs.push(c);
                assert(Seq::new(specs@.len(), |k: int| (paths@[k]@, spec_model(specs@[k]))) =~= prev.push((f.0@, spec_model(f.1))));
            }
        }
        assert(fv.take(found@.len() as int) =~= fv);
        *self = ToolDiscoveryManager { discovered_specs: specs, discovered_manifests: paths };
    }

    /// The tools made from the kept descriptions, each running in `cwd` when
    /// its manifest names no directory.
    pub fn build_tools(&self, cwd: &str) -> (r: Vec<DiscoveredTool>)
        ensures
            r@.len() == self.spec_kept().len(),
            forall|i: int| 0 <= i < r@.len() ==> spec_model((#[trigger] r@[i]).spec) == ({
                let m = self.spec_kept()[i].1;
                match m.5 {
                    Some(_) => m,
                    None => (m.0, m.1, m.2, m.3, m.4, Some(cwd@), m.6, m.7),
                }
            }),
    {
        proof {
            use_type_invariant(&*self);
        }
        let mut out: Vec<DiscoveredTool> = Vec::new();
        for i in 0..self.discovered_specs.len()
            invariant
                self.discovered_specs@.len() == self.discovered_manifests@.len(),
                out@.len() == i,
                forall|k: int| 0 <= k < i ==> spec_model((#[trigger] out@[k]).spec) == ({
                    let m = self.spec_kept()[k].1;
                    match m.5 {
                        Some(_) => m,
                        None => (m.0, m.1, m.2, m.3, m.4, Some(cwd@), m.6, m.7),
                    }
                }),
        {
            let s = self.discovered_specs[i].with_default_cwd(cwd);
            out.push(DiscoveredTool::new(s));
        }
        out
    }

    /// The manifests that the kept descriptions come from.
    pub fn discovered_files(&self) -> (r: Vec<String>)
        ensures
            r@.map_values(|s: String| s@) == self.spec_kept().map_values(|e: (Seq<char>, SpecModel)| e.0),
    {
        proof {
            use_type_invariant(&*self);
        }
        let mut out: Vec<String> = Vec::new();
        for i in 0..self.discovered_manifests.len()
            invariant
                self.discovered_specs@.len() == self.discovered_manifests@.len(),
                out@.map_values(|s: String| s@) == self.discovered_manifests@.take(i as int).map_values(|s: String| s@),
        {
            let ghost prev = out@.map_values(|s: String| s@);
            out.push(self.discovered_manifests[i].clone());
            assert(out@.map_values(|s: String| s@) =~= prev.push(self.discovered_manifests@[i as int]@));
            assert(self.discovered_manifests@.take(i + 1) =~= self.discovered_manifests@.take(i as int).push(
                self.discovered_manifests@[i as int],
            ));
            assert(self.discovered_manifests@.take(i + 1).map_values(|s: String| s@) =~= self.discovered_manifests@.take(
                i as int,
            ).map_values(|s: String| s@).push(self.discovered_manifests@[i as int]@));
        }
        assert(self.discovered_manifests@.take(self.discovered_manifests@.len() as int) =~= self.discovered_manifests@);
        assert(self.discovered_manifests@.map_values(|s: String| s@) =~= self.spec_kept().map_values(
            |e: (Seq<char>, SpecModel)| e.0,
        ));
        out
    }
}

} // verus!
