//! The two representations of a resolved directory mapping: the partial
//! set, where any purpose may be absent, and the complete set, where the
//! mandatory purposes are guaranteed present. The conversion from complete
//! to partial is total; the reverse is checked and reports every missing
//! mandatory purpose at once.

use vstd::prelude::*;

use crate::Directory;
use crate::path_util::opt_view;

verus! {

/// The list of missing purposes reported when a partial set cannot be
/// completed.
pub type MissingError = Vec<Directory>;

/// A partial directory mapping: for each purpose, an absolute path or
/// nothing. Produced by every resolver; may be empty.
#[derive(Debug, Clone)]
pub struct ProjectDirs {
    pub bin: Option<String>,
    pub cache: Option<String>,
    pub config: Option<String>,
    pub data: Option<String>,
    pub inc: Option<String>,
    pub lib: Option<String>,
    pub log: Option<String>,
    pub project_root: Option<String>,
    pub runtime: Option<String>,
    pub state: Option<String>,
}

/// A complete directory mapping: every mandatory purpose is present;
/// `runtime` and `project_root` stay optional in every strategy.
#[derive(Debug, Clone)]
pub struct FullProjectDirs {
    /// Binaries directory
    pub bin: String,
    /// Non-essential data, usually used to speed up the application
    pub cache: String,
    /// General config store, e.g. a conf.d directory
    pub config: String,
    /// Essential files like db files and cross-session data
    pub data: String,
    /// Include directory for C/C++ headers
    pub inc: String,
    /// Shared library directory
    pub lib: String,
    /// Directory holding application logs
    pub log: String,
    /// Project root; not meaningful for strategies like FHS or XDG
    pub project_root: Option<String>,
    /// Runtime files; may be missing in some strategies
    pub runtime: Option<String>,
    /// Non-essential data that persists between sessions
    pub state: String,
}

impl ProjectDirs {
    /// The path stored for a purpose, if any.
    pub open spec fn entry(self, d: Directory) -> Option<String> {
        match d {
            Directory::Bin => self.bin,
            Directory::Cache => self.cache,
            Directory::Config => self.config,
            Directory::Data => self.data,
            Directory::Include => self.inc,
            Directory::Lib => self.lib,
            Directory::Log => self.log,
            Directory::ProjectRoot => self.project_root,
            Directory::Runtime => self.runtime,
            Directory::State => self.state,
        }
    }

    /// The characters of the path stored for a purpose, if any.
    pub open spec fn entry_view(self, d: Directory) -> Option<Seq<char>> {
        opt_view(self.entry(d))
    }

    /// The set with the given purpose bound to the given path.
    pub open spec fn insert_spec(self, d: Directory, v: String) -> ProjectDirs {
        match d {
            Directory::Bin => ProjectDirs { bin: Some(v), ..self },
            Directory::Cache => ProjectDirs { cache: Some(v), ..self },
            Directory::Config => ProjectDirs { config: Some(v), ..self },
            Directory::Data => ProjectDirs { data: Some(v), ..self },
            Directory::Include => ProjectDirs { inc: Some(v), ..self },
            Directory::Lib => ProjectDirs { lib: Some(v), ..self },
            Directory::Log => ProjectDirs { log: Some(v), ..self },
            Directory::ProjectRoot => ProjectDirs { project_root: Some(v), ..self },
            Directory::Runtime => ProjectDirs { runtime: Some(v), ..self },
            Directory::State => ProjectDirs { state: Some(v), ..self },
        }
    }

    /// Binds the given purpose to the given path.
    pub fn insert(&mut self, d: Directory, v: String)
        ensures
            *final(self) == old(self).insert_spec(d, v),
    {
        match d {
            Directory::Bin => self.bin = Some(v),
            Directory::Cache => self.cache = Some(v),
            Directory::Config => self.config = Some(v),
            Directory::Data => self.data = Some(v),
            Directory::Include => self.inc = Some(v),
            Directory::Lib => self.lib = Some(v),
            Directory::Log => self.log = Some(v),
            Directory::ProjectRoot => self.project_root = Some(v),
            Directory::Runtime => self.runtime = Some(v),
            Directory::State => self.state = Some(v),
        }
    }

    /// Retrieves the path for a purpose.
    pub fn get(&self, dir: &Directory) -> (r: Option<&String>)
        ensures
            r is Some <==> self.entry(*dir) is Some,
            r is Some ==> *r->0 == self.entry(*dir)->0,
    {
        match dir {
            Directory::Bin => self.bin.as_ref(),
            Directory::Cache => self.cache.as_ref(),
            Directory::Config => self.config.as_ref(),
            Directory::Data => self.data.as_ref(),
            Directory::Include => self.inc.as_ref(),
            Directory::Lib => self.lib.as_ref(),
            Directory::Log => self.log.as_ref(),
            Directory::ProjectRoot => self.project_root.as_ref(),
            Directory::Runtime => self.runtime.as_ref(),
            Directory::State => self.state.as_ref(),
        }
    }

    /// The set with no purpose bound.
    pub open spec fn empty_spec() -> ProjectDirs {
        ProjectDirs {
            bin: None,
            cache: None,
            config: None,
            data: None,
            inc: None,
            lib: None,
            log: None,
            project_root: None,
            runtime: None,
            state: None,
        }
    }

    /// The set holding the given bindings, later entries overriding earlier
    /// ones for the same purpose.
    pub open spec fn from_entries(entries: Seq<(Directory, String)>) -> ProjectDirs
        decreases entries.len(),
    {
        if entries.len() == 0 {
            ProjectDirs::empty_spec()
        } else {
            ProjectDirs::from_entries(entries.drop_last()).insert_spec(
                entries.last().0,
                entries.last().1,
            )
        }
    }

    pub fn new(dirs: Vec<(Directory, String)>) -> (r: Self)
        ensures
            r == ProjectDirs::from_entries(dirs@),
    {
        let ghost all = dirs@;
        let mut r = ProjectDirs::empty();
        let mut dirs = dirs;
        let n = dirs.len();
        let mut i: usize = 0;
        // Consume the entries front to back; reversing first would change
        // which duplicate wins, so index instead of pop.
        while i < n
            invariant
                n == all.len(),
                dirs@ == all,
                i <= n,
                r == ProjectDirs::from_entries(all.take(i as int)),
            decreases n - i,
        {
            let d: Directory = dirs[i].0;
            let v: String = dirs[i].1.clone();
            r.insert(d, v);
            proof {
                assert(all.take(i + 1).drop_last() =~= all.take(i as int));
            }
            i = i + 1;
        }
        proof {
            assert(all.take(n as int) =~= all);
        }
        r
    }

    pub fn empty() -> (r: Self)
        ensures
            r == ProjectDirs::empty_spec(),
    {
        ProjectDirs {
            bin: None,
            cache: None,
            config: None,
            data: None,
            inc: None,
            lib: None,
            log: None,
            project_root: None,
            runtime: None,
            state: None,
        }
    }

    /// The partial set a complete set converts to: mandatory purposes
    /// present, optional ones carried over as they are.
    pub open spec fn partial_of_full(f: FullProjectDirs) -> ProjectDirs {
        ProjectDirs {
            bin: Some(f.bin),
            cache: Some(f.cache),
            config: Some(f.config),
            data: Some(f.data),
            inc: Some(f.inc),
            lib: Some(f.lib),
            log: Some(f.log),
            project_root: f.project_root,
            runtime: f.runtime,
            state: Some(f.state),
        }
    }

    /// Converts a complete set to a partial one; total and lossless.
    pub fn from_full(f: FullProjectDirs) -> (r: ProjectDirs)
        ensures
            r == ProjectDirs::partial_of_full(f),
    {
        ProjectDirs {
            bin: Some(f.bin),
            cache: Some(f.cache),
            config: Some(f.config),
            data: Some(f.data),
            inc: Some(f.inc),
            lib: Some(f.lib),
            log: Some(f.log),
            project_root: f.project_root,
            runtime: f.runtime,
            state: Some(f.state),
        }
    }
}

/// Whether completing a partial set checks the purpose for presence.
pub open spec fn is_mandatory_checked(d: Directory) -> bool {
    d == Directory::Cache || d == Directory::Config || d == Directory::Data || d
        == Directory::State || d == Directory::Log || d == Directory::Bin || d == Directory::Lib
}

/// What one purpose contributes to the missing list.
pub open spec fn missing_one(pd: ProjectDirs, d: Directory) -> Seq<Directory> {
    if pd.entry(d) is None {
        seq![d]
    } else {
        Seq::empty()
    }
}

/// The purposes the completion check finds absent, in the order it checks
/// them. `Include` is read but not checked, matching the resolvers'
/// treatment of it as best-effort.
pub open spec fn missing_from(pd: ProjectDirs) -> Seq<Directory> {
    missing_one(pd, Directory::Cache) + missing_one(pd, Directory::Config) + missing_one(
        pd,
        Directory::Data,
    ) + missing_one(pd, Directory::State) + missing_one(pd, Directory::Log) + missing_one(
        pd,
        Directory::Bin,
    ) + missing_one(pd, Directory::Lib)
}

impl FullProjectDirs {
    /// The characters of the path for a purpose; mandatory purposes are
    /// always present.
    pub open spec fn entry_view(self, d: Directory) -> Option<Seq<char>> {
        match d {
            Directory::Bin => Some(self.bin@),
            Directory::Cache => Some(self.cache@),
            Directory::Config => Some(self.config@),
            Directory::Data => Some(self.data@),
            Directory::Include => Some(self.inc@),
            Directory::Lib => Some(self.lib@),
            Directory::Log => Some(self.log@),
            Directory::ProjectRoot => opt_view(self.project_root),
            Directory::Runtime => opt_view(self.runtime),
            Directory::State => Some(self.state@),
        }
    }

    /// The complete set a fully-populated partial set converts to.
    pub open spec fn full_of_partial(pd: ProjectDirs) -> FullProjectDirs {
        FullProjectDirs {
            bin: pd.bin->0,
            cache: pd.cache->0,
            config: pd.config->0,
            data: pd.data->0,
            inc: pd.inc->0,
            lib: pd.lib->0,
            log: pd.log->0,
            project_root: pd.project_root,
            runtime: pd.runtime,
            state: pd.state->0,
        }
    }

    /// Completes a partial set. Fails with the full list of absent
    /// mandatory purposes when any is missing; `Runtime` and `ProjectRoot`
    /// stay optional.
    #[verifier::rlimit(50)]
    pub fn try_from_partial(pd: ProjectDirs) -> (r: Result<FullProjectDirs, MissingError>)
        requires
            missing_from(pd).len() == 0 ==> pd.inc is Some,
        ensures
            r is Ok <==> missing_from(pd).len() == 0,
            r is Ok ==> r->Ok_0 == FullProjectDirs::full_of_partial(pd),
            r is Err ==> r->Err_0@ == missing_from(pd),
    {
        let mut errors: Vec<Directory> = Vec::new();
        if pd.cache.is_none() {
            errors.push(Directory::Cache);
        }
        proof {
            assert(errors@ =~= missing_one(pd, Directory::Cache));
        }
        if pd.config.is_none() {
            errors.push(Directory::Config);
        }
        proof {
            assert(errors@ =~= missing_one(pd, Directory::Cache) + missing_one(
                pd,
                Directory::Config,
            ));
        }
        if pd.data.is_none() {
            errors.push(Directory::Data);
        }
        proof {
            assert(errors@ =~= missing_one(pd, Directory::Cache) + missing_one(
                pd,
                Directory::Config,
            ) + missing_one(pd, Directory::Data));
        }
        if pd.state.is_none() {
            errors.push(Directory::State);
        }
        proof {
            assert(errors@ =~= missing_one(pd, Directory::Cache) + missing_one(
                pd,
                Directory::Config,
            ) + missing_one(pd, Directory::Data) + missing_one(pd, Directory::State));
        }
        if pd.log.is_none() {
            errors.push(Directory::Log);
        }
        proof {
            assert(errors@ =~= missing_one(pd, Directory::Cache) + missing_one(
                pd,
                Directory::Config,
            ) + missing_one(pd, Directory::Data) + missing_one(pd, Directory::State)
                + missing_one(pd, Directory::Log));
        }
        if pd.bin.is_none() {
            errors.push(Directory::Bin);
        }
        proof {
            assert(errors@ =~= missing_one(pd, Directory::Cache) + missing_one(
                pd,
                Directory::Config,
            ) + missing_one(pd, Directory::Data) + missing_one(pd, Directory::State)
                + missing_one(pd, Directory::Log) + missing_one(pd, Directory::Bin));
        }
        if pd.lib.is_none() {
            errors.push(Directory::Lib);
        }
        proof {
            assert(errors@ =~= missing_from(pd));
        }
        if errors.is_empty() {
            let ProjectDirs { bin, cache, config, data, inc, lib, log, project_root, runtime, state } =
                pd;
            Ok(
                FullProjectDirs {
                    bin: bin.unwrap(),
                    cache: cache.unwrap(),
                    config: config.unwrap(),
                    data: data.unwrap(),
                    inc: inc.unwrap(),
                    lib: lib.unwrap(),
                    log: log.unwrap(),
                    project_root,
                    runtime,
                    state: state.unwrap(),
                },
            )
        } else {
            Err(errors)
        }
    }
}

/// Law: converting a complete set to a partial one and back yields it
/// unchanged, and the completion check finds nothing missing.
pub proof fn lemma_full_partial_round_trip(f: FullProjectDirs)
    ensures
        missing_from(ProjectDirs::partial_of_full(f)).len() == 0,
        FullProjectDirs::full_of_partial(ProjectDirs::partial_of_full(f)) == f,
{
    assert(missing_from(ProjectDirs::partial_of_full(f)) =~= Seq::<Directory>::empty());
}

/// A partial set made from a complete one answers for every purpose as
/// the complete one does.
pub broadcast proof fn lemma_partial_of_full_entries(f: FullProjectDirs, d: Directory)
    ensures
        #[trigger] ProjectDirs::partial_of_full(f).entry_view(d) == f.entry_view(d),
{
}

/// The empty set has no purpose bound.
pub broadcast proof fn lemma_empty_entries(d: Directory)
    ensures
        #[trigger] ProjectDirs::empty_spec().entry_view(d) == None::<Seq<char>>,
{
}

/// Whether two optional strings hold the same characters.
pub fn opt_str_eq(a: &Option<String>, b: &Option<String>) -> (r: bool)
    ensures
        r == (opt_view(*a) == opt_view(*b)),
{
    match (a, b) {
        (None, None) => true,
        (Some(x), Some(y)) => *x == *y,
        _ => false,
    }
}

impl PartialEq for ProjectDirs {
    fn eq(&self, other: &ProjectDirs) -> (r: bool) {
        opt_str_eq(&self.bin, &other.bin) && opt_str_eq(&self.cache, &other.cache) && opt_str_eq(
            &self.config,
            &other.config,
        ) && opt_str_eq(&self.data, &other.data) && opt_str_eq(&self.inc, &other.inc)
            && opt_str_eq(&self.lib, &other.lib) && opt_str_eq(&self.log, &other.log)
            && opt_str_eq(&self.project_root, &other.project_root) && opt_str_eq(
            &self.runtime,
            &other.runtime,
        ) && opt_str_eq(&self.state, &other.state)
    }
}

impl vstd::std_specs::cmp::PartialEqSpecImpl for ProjectDirs {
    open spec fn obeys_eq_spec() -> bool {
        true
    }

    open spec fn eq_spec(&self, other: &ProjectDirs) -> bool {
        &&& opt_view(self.bin) == opt_view(other.bin)
        &&& opt_view(self.cache) == opt_view(other.cache)
        &&& opt_view(self.config) == opt_view(other.config)
        &&& opt_view(self.data) == opt_view(other.data)
        &&& opt_view(self.inc) == opt_view(other.inc)
        &&& opt_view(self.lib) == opt_view(other.lib)
        &&& opt_view(self.log) == opt_view(other.log)
        &&& opt_view(self.project_root) == opt_view(other.project_root)
        &&& opt_view(self.runtime) == opt_view(other.runtime)
        &&& opt_view(self.state) == opt_view(other.state)
    }
}

impl PartialEq for FullProjectDirs {
    fn eq(&self, other: &FullProjectDirs) -> (r: bool) {
        self.bin == other.bin && self.cache == other.cache && self.config == other.config
            && self.data == other.data && self.inc == other.inc && self.lib == other.lib
            && self.log == other.log && opt_str_eq(&self.project_root, &other.project_root)
            && opt_str_eq(&self.runtime, &other.runtime) && self.state == other.state
    }
}

impl vstd::std_specs::cmp::PartialEqSpecImpl for FullProjectDirs {
    open spec fn obeys_eq_spec() -> bool {
        true
    }

    open spec fn eq_spec(&self, other: &FullProjectDirs) -> bool {
        &&& self.bin@ == other.bin@
        &&& self.cache@ == other.cache@
        &&& self.config@ == other.config@
        &&& self.data@ == other.data@
        &&& self.inc@ == other.inc@
        &&& self.lib@ == other.lib@
        &&& self.log@ == other.log@
        &&& opt_view(self.project_root) == opt_view(other.project_root)
        &&& opt_view(self.runtime) == opt_view(other.runtime)
        &&& self.state@ == other.state@
    }
}

/// Membership in a concatenation is membership in either part.
proof fn lemma_concat_contains<A>(a: Seq<A>, b: Seq<A>, x: A)
    ensures
        (a + b).contains(x) <==> a.contains(x) || b.contains(x),
{
    if a.contains(x) {
        let i = choose|i: int| 0 <= i < a.len() && a[i] == x;
        assert((a + b)[i] == x);
    }
    if b.contains(x) {
        let i = choose|i: int| 0 <= i < b.len() && b[i] == x;
        assert((a + b)[a.len() + i] == x);
    }
    if (a + b).contains(x) {
        let i = choose|i: int| 0 <= i < (a + b).len() && (a + b)[i] == x;
        if i < a.len() {
            assert(a[i] == x);
        } else {
            assert(b[i - a.len()] == x);
        }
    }
}

/// Membership in one purpose's contribution to the missing list.
proof fn lemma_missing_one_contains(pd: ProjectDirs, d: Directory, x: Directory)
    ensures
        missing_one(pd, d).contains(x) <==> (x == d && pd.entry(d) is None),
{
    if pd.entry(d) is None {
        assert(missing_one(pd, d)[0] == d);
    }
}

/// A purpose's contribution joined to a missing-list prefix that does not
/// already hold that purpose keeps the list free of duplicates.
proof fn lemma_missing_step_nodup(pd: ProjectDirs, p: Seq<Directory>, d: Directory)
    requires
        p.no_duplicates(),
        !p.contains(d),
    ensures
        (p + missing_one(pd, d)).no_duplicates(),
{
    let s = missing_one(pd, d);
    assert forall|i: int, j: int| 0 <= i < p.len() && 0 <= j < s.len() implies p[i] != s[j] by {
        assert(s[j] == d);
        assert(p.contains(p[i]));
    }
    vstd::seq_lib::lemma_no_dup_in_concat(p, s);
}

/// Law: the missing list of a partial set names exactly the mandatory
/// purposes absent from it, each at most once.
#[verifier::rlimit(50)]
pub proof fn lemma_missing_exact(pd: ProjectDirs)
    ensures
        forall|d: Directory|
            missing_from(pd).contains(d) <==> (is_mandatory_checked(d) && pd.entry(d) is None),
        missing_from(pd).no_duplicates(),
{
    let a = missing_one(pd, Directory::Cache);
    let b = missing_one(pd, Directory::Config);
    let c = missing_one(pd, Directory::Data);
    let e = missing_one(pd, Directory::State);
    let f = missing_one(pd, Directory::Log);
    let g = missing_one(pd, Directory::Bin);
    let h = missing_one(pd, Directory::Lib);
    let m = missing_from(pd);
    assert forall|d: Directory|
        m.contains(d) <==> (is_mandatory_checked(d) && pd.entry(d) is None) by {
        lemma_concat_contains(a, b, d);
        lemma_concat_contains(a + b, c, d);
        lemma_concat_contains(a + b + c, e, d);
        lemma_concat_contains(a + b + c + e, f, d);
        lemma_concat_contains(a + b + c + e + f, g, d);
        lemma_concat_contains(a + b + c + e + f + g, h, d);
        lemma_missing_one_contains(pd, Directory::Cache, d);
        lemma_missing_one_contains(pd, Directory::Config, d);
        lemma_missing_one_contains(pd, Directory::Data, d);
        lemma_missing_one_contains(pd, Directory::State, d);
        lemma_missing_one_contains(pd, Directory::Log, d);
        lemma_missing_one_contains(pd, Directory::Bin, d);
        lemma_missing_one_contains(pd, Directory::Lib, d);
    }
    assert(m.no_duplicates()) by {
        lemma_missing_one_contains(pd, Directory::Cache, Directory::Config);
        lemma_missing_step_nodup(pd, a, Directory::Config);
        assert(!(a + b).contains(Directory::Data)) by {
            lemma_concat_contains(a, b, Directory::Data);
            lemma_missing_one_contains(pd, Directory::Cache, Directory::Data);
            lemma_missing_one_contains(pd, Directory::Config, Directory::Data);
        }
        lemma_missing_step_nodup(pd, a + b, Directory::Data);
        assert(!(a + b + c).contains(Directory::State)) by {
            lemma_concat_contains(a + b, c, Directory::State);
            lemma_concat_contains(a, b, Directory::State);
            lemma_missing_one_contains(pd, Directory::Cache, Directory::State);
            lemma_missing_one_contains(pd, Directory::Config, Directory::State);
            lemma_missing_one_contains(pd, Directory::Data, Directory::State);
        }
        lemma_missing_step_nodup(pd, a + b + c, Directory::State);
        assert(!(a + b + c + e).contains(Directory::Log)) by {
            lemma_concat_contains(a + b + c, e, Directory::Log);
            lemma_concat_contains(a + b, c, Directory::Log);
            lemma_concat_contains(a, b, Directory::Log);
            lemma_missing_one_contains(pd, Directory::Cache, Directory::Log);
            lemma_missing_one_contains(pd, Directory::Config, Directory::Log);
            lemma_missing_one_contains(pd, Directory::Data, Directory::Log);
            lemma_missing_one_contains(pd, Directory::State, Directory::Log);
        }
        lemma_missing_step_nodup(pd, a + b + c + e, Directory::Log);
        assert(!(a + b + c + e + f).contains(Directory::Bin)) by {
            lemma_concat_contains(a + b + c + e, f, Directory::Bin);
            lemma_concat_contains(a + b + c, e, Directory::Bin);
            lemma_concat_contains(a + b, c, Directory::Bin);
            lemma_concat_contains(a, b, Directory::Bin);
            lemma_missing_one_contains(pd, Directory::Cache, Directory::Bin);
            lemma_missing_one_contains(pd, Directory::Config, Directory::Bin);
            lemma_missing_one_contains(pd, Directory::Data, Directory::Bin);
            lemma_missing_one_contains(pd, Directory::State, Directory::Bin);
            lemma_missing_one_contains(pd, Directory::Log, Directory::Bin);
        }
        lemma_missing_step_nodup(pd, a + b + c + e + f, Directory::Bin);
        assert(!(a + b + c + e + f + g).contains(Directory::Lib)) by {
            lemma_concat_contains(a + b + c + e + f, g, Directory::Lib);
            lemma_concat_contains(a + b + c + e, f, Directory::Lib);
            lemma_concat_contains(a + b + c, e, Directory::Lib);
            lemma_concat_contains(a + b, c, Directory::Lib);
            lemma_concat_contains(a, b, Directory::Lib);
            lemma_missing_one_contains(pd, Directory::Cache, Directory::Lib);
            lemma_missing_one_contains(pd, Directory::Config, Directory::Lib);
            lemma_missing_one_contains(pd, Directory::Data, Directory::Lib);
            lemma_missing_one_contains(pd, Directory::State, Directory::Lib);
            lemma_missing_one_contains(pd, Directory::Log, Directory::Lib);
            lemma_missing_one_contains(pd, Directory::Bin, Directory::Lib);
        }
        lemma_missing_step_nodup(pd, a + b + c + e + f + g, Directory::Lib);
    }
}

} // verus!
