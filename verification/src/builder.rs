//! The build-spec evaluator: a declarative specification naming one or
//! more strategy invocations — each with its own environment overlay,
//! purpose subset, filesystem filter and mountpoint — evaluated against
//! one host snapshot into a named aggregate of directory sets.

use vstd::prelude::*;

pub use crate::dir_utils::Filter;

use crate::Directory;
use crate::Project;
use crate::dir_utils::DirStatuses;
use crate::dir_utils::apply_filter_spec;
use crate::dir_utils::keeps;
use crate::fhs::fhs_path;
use crate::host::HostEnv;
use crate::local_scope_path;
use crate::path_util::mount_seq;
use crate::path_util::parent_dir;
use crate::path_util::opt_view;
use crate::path_util::seq_join;
use crate::proj_dirs::ProjectDirs;
use crate::triplet::unix_norm;
use crate::unix::dotted;
use crate::unix::unix_style_path;
use crate::user_scope_path;
use crate::windows::WindowsEnv;
use crate::windows::windows_path;
use crate::xdg::XdgEnv;
use crate::xdg::xdg_excl_path;
use crate::xdg::xdg_full_path;

verus! {

/// The FHS mode selector: shared (the default) or local roots.
#[derive(Debug, Clone, Copy, PartialEq, Eq, Structural)]
pub enum Fhs {
    /// Files are not shared across the system
    Local,
    /// Files may be shared across the system, e.g. over nfs
    Shared,
}

/// The unix-style base selector: one of the three canonical bases, or a
/// custom base path with an optional namespace prefix.
#[derive(Debug, Clone)]
pub enum Unix {
    /// The working directory, prefix `.`
    Pwd,
    /// The home directory, prefix `.`
    Home,
    /// The executable path, prefix `.`
    Binary,
    /// A caller-supplied base path; no prefix when `prefix` is absent
    Custom { path: String, prefix: Option<String> },
}

/// The Windows mode selector.
#[derive(Debug, Clone, Copy, PartialEq, Eq, Structural)]
pub enum Windows {
    /// Per-user installation
    Standard,
    /// Per-user installation, nothing roamed
    Local,
    /// Per-user installation, everything roamed
    Shared,
    /// Machine-wide installation
    System,
}

/// A resolution strategy: each variant fully determines one algorithm.
#[derive(Debug, Clone)]
pub enum Strategy {
    /// The host's local directories
    CurrentLocal,
    /// The host's per-user directories
    CurrentUser,
    /// The host's system directories
    CurrentSystem,
    /// The FHS standard, shared mode when no selector is given
    Fhs(Option<Fhs>),
    /// The XDG base-directory standard
    Xdg,
    /// A unix-style directory layout
    Unix(Unix),
    /// A Windows known-folder layout
    Windows(Windows),
}

/// One named step of a build spec: a strategy, an optional subset of
/// purposes to keep, an optional filesystem filter and an optional
/// mountpoint.
#[derive(Debug, Clone)]
pub struct SpecEntry {
    pub strategy: Strategy,
    /// The purposes to keep; empty means no subset narrowing
    pub directories: Vec<Directory>,
    pub filter: Option<Filter>,
    pub mountpoint: Option<String>,
}

/// A build spec: the host's three canonical scopes under fixed names, or
/// a custom named map of spec entries.
#[derive(Debug, Clone)]
pub enum Spec {
    /// The host defaults under the names `local`, `user` and `system`
    SystemDefault,
    /// Caller-defined entries, evaluated independently. The names act as
    /// map keys and are expected to be pairwise distinct; should a name
    /// repeat, every entry is still evaluated, and lookups in the result
    /// answer with the first.
    Custom(Vec<(String, SpecEntry)>),
}

/// Whether the entry names are pairwise distinct, as the keys of a map
/// are.
pub open spec fn names_unique<T>(entries: Seq<(String, T)>) -> bool {
    forall|i: int, j: int| 0 <= i < j < entries.len() ==> entries[i].0@ != entries[j].0@
}

/// The environment overlay of a build: caller overrides merged over the
/// host snapshot, or over nothing when the system fallback is off.
#[derive(Debug, Clone)]
pub struct CustomEnv {
    /// Overrides by variable name; an empty value counts as unset
    pub env: Vec<(String, Option<String>)>,
    /// Whether unset variables inherit the host snapshot
    pub fallback_to_system: bool,
    /// Whether an absent or empty override clears its variable
    pub allow_variable_clearing: bool,
}

impl Default for CustomEnv {
    fn default() -> (r: CustomEnv)
        ensures
            r.env@.len() == 0,
            r.fallback_to_system == true,
            r.allow_variable_clearing == false,
    {
        CustomEnv { env: Vec::new(), fallback_to_system: true, allow_variable_clearing: false }
    }
}

/// A build request: the identity triplet, the spec to evaluate and the
/// environment overlay for the entries that read one.
#[derive(Debug, Clone)]
pub struct Builder {
    pub qualifier: String,
    pub organization: String,
    pub application: String,
    pub spec: Spec,
    pub custom_env: CustomEnv,
}

/// The aggregate result of a build: the canonical application name and
/// one directory set per named entry. The names come from the spec in
/// order and are pairwise distinct whenever the spec's are.
#[derive(Debug, Clone)]
pub struct BuilderResult {
    pub application_name: String,
    pub dirs: Vec<(String, ProjectDirs)>,
}

/// The first directory set stored under a name, if any.
pub open spec fn lookup_dirs(entries: Seq<(String, ProjectDirs)>, name: Seq<char>) -> Option<
    ProjectDirs,
>
    decreases entries.len(),
{
    if entries.len() == 0 {
        None
    } else if entries.first().0@ == name {
        Some(entries.first().1)
    } else {
        lookup_dirs(entries.drop_first(), name)
    }
}

impl BuilderResult {
    /// Retrieves the directory set stored under a name; should a name
    /// repeat, the first entry answers.
    pub fn get(&self, name: &str) -> (r: Option<&ProjectDirs>)
        ensures
            r is Some <==> lookup_dirs(self.dirs@, name@) is Some,
            r is Some ==> *r->0 == lookup_dirs(self.dirs@, name@)->0,
    {
        let n = self.dirs.len();
        let mut i: usize = 0;
        proof {
            assert(self.dirs@.skip(0) =~= self.dirs@);
        }
        while i < n
            invariant
                n == self.dirs@.len(),
                i <= n,
                lookup_dirs(self.dirs@, name@) == lookup_dirs(self.dirs@.skip(i as int), name@),
            decreases n - i,
        {
            proof {
                assert(self.dirs@.skip(i as int).first() == self.dirs@[i as int]);
                assert(self.dirs@.skip(i as int).drop_first() =~= self.dirs@.skip(i + 1));
            }
            if crate::path_util::str_eq(self.dirs[i].0.as_str(), name) {
                return Some(&self.dirs[i].1);
            }
            i = i + 1;
        }
        proof {
            assert(self.dirs@.skip(n as int).len() == 0);
        }
        None
    }
}

/// Whether the purpose list names the given purpose.
fn dir_list_contains(dirs: &Vec<Directory>, d: Directory) -> (r: bool)
    ensures
        r == dirs@.contains(d),
{
    let n = dirs.len();
    let mut i: usize = 0;
    while i < n
        invariant
            n == dirs@.len(),
            i <= n,
            forall|j: int| 0 <= j < i ==> dirs@[j] != d,
        decreases n - i,
    {
        if dirs[i] == d {
            return true;
        }
        i = i + 1;
    }
    false
}

/// An optional path, duplicated.
fn opt_clone(e: &Option<String>) -> (r: Option<String>)
    ensures
        r == *e,
{
    match e {
        Some(s) => Some(s.clone()),
        None => None,
    }
}

/// The set narrowed to the listed purposes; an empty list keeps nothing
/// here — the caller skips the narrowing entirely in that case.
fn keep_only(pd: &ProjectDirs, dirs: &Vec<Directory>) -> (r: ProjectDirs)
    ensures
        forall|d: Directory|
            #[trigger] r.entry(d) == if dirs@.contains(d) {
                pd.entry(d)
            } else {
                None::<String>
            },
{
    let r = ProjectDirs {
        bin: if dir_list_contains(dirs, Directory::Bin) {
            opt_clone(&pd.bin)
        } else {
            None
        },
        cache: if dir_list_contains(dirs, Directory::Cache) {
            opt_clone(&pd.cache)
        } else {
            None
        },
        config: if dir_list_contains(dirs, Directory::Config) {
            opt_clone(&pd.config)
        } else {
            None
        },
        data: if dir_list_contains(dirs, Directory::Data) {
            opt_clone(&pd.data)
        } else {
            None
        },
        inc: if dir_list_contains(dirs, Directory::Include) {
            opt_clone(&pd.inc)
        } else {
            None
        },
        lib: if dir_list_contains(dirs, Directory::Lib) {
            opt_clone(&pd.lib)
        } else {
            None
        },
        log: if dir_list_contains(dirs, Directory::Log) {
            opt_clone(&pd.log)
        } else {
            None
        },
        project_root: if dir_list_contains(dirs, Directory::ProjectRoot) {
            opt_clone(&pd.project_root)
        } else {
            None
        },
        runtime: if dir_list_contains(dirs, Directory::Runtime) {
            opt_clone(&pd.runtime)
        } else {
            None
        },
        state: if dir_list_contains(dirs, Directory::State) {
            opt_clone(&pd.state)
        } else {
            None
        },
    };
    r
}

/// What the XDG strategy resolves to under an overlay: the host's XDG
/// environment (or nothing, when the system fallback is off) with the
/// overrides applied; strict resolution with the fallback, the
/// omit-missing mode without it. A failed strict resolution yields an
/// empty set.
pub open spec fn xdg_strategy_path(
    ce: CustomEnv,
    host: HostEnv,
    app: Seq<char>,
    d: Directory,
) -> Option<Seq<char>> {
    let base = if ce.fallback_to_system {
        XdgEnv::of_host(host)
    } else {
        XdgEnv::default_spec()
    };
    let env = XdgEnv::extend_spec(base, ce.env@, ce.allow_variable_clearing);
    if ce.fallback_to_system {
        if env.home_dir is Some {
            xdg_full_path(env, app, d)
        } else {
            None
        }
    } else {
        xdg_excl_path(env, app, d)
    }
}

/// What the unix-style strategy resolves to: an unresolvable canonical
/// base yields an empty set.
pub open spec fn unix_strategy_path(host: HostEnv, app: Seq<char>, u: Unix, d: Directory) -> Option<
    Seq<char>,
> {
    match u {
        Unix::Pwd => match opt_view(host.current_dir) {
            Some(c) => unix_style_path(seq_join(c, dotted(app)), d),
            None => None,
        },
        Unix::Home => match opt_view(host.home_dir) {
            Some(h) => unix_style_path(seq_join(h, dotted(app)), d),
            None => None,
        },
        Unix::Binary => match opt_view(host.current_exe) {
            Some(e) => unix_style_path(seq_join(parent_dir(e), dotted(app)), d),
            None => None,
        },
        Unix::Custom { path, prefix } => match prefix {
            Some(p) => unix_style_path(seq_join(path@, p@ + app), d),
            None => unix_style_path(seq_join(path@, app), d),
        },
    }
}

/// What the Windows strategy resolves to: the overlay's overrides
/// applied over no resolved roots — this host family has no native
/// known-folder query — then the mode's root assignment.
pub open spec fn windows_strategy_path(
    ce: CustomEnv,
    w: Windows,
    org: Seq<char>,
    app: Seq<char>,
    d: Directory,
) -> Option<Seq<char>> {
    let env = WindowsEnv::extend_spec(
        WindowsEnv::default_spec(),
        ce.env@,
        ce.allow_variable_clearing,
    );
    match w {
        Windows::Standard => windows_path(
            opt_view(env.roaming_app_data),
            opt_view(env.local_app_data),
            None,
            org,
            app,
            d,
        ),
        Windows::Local => windows_path(
            opt_view(env.local_app_data),
            opt_view(env.local_app_data),
            opt_view(env.local_app_data),
            org,
            app,
            d,
        ),
        Windows::Shared => windows_path(
            opt_view(env.roaming_app_data),
            opt_view(env.roaming_app_data),
            opt_view(env.roaming_app_data),
            org,
            app,
            d,
        ),
        Windows::System => windows_path(
            opt_view(env.program_files),
            opt_view(env.program_data),
            None,
            org,
            app,
            d,
        ),
    }
}

/// What a strategy resolves a purpose to, before any post-processing.
pub open spec fn strategy_path(
    app: Seq<char>,
    org: Seq<char>,
    ce: CustomEnv,
    host: HostEnv,
    strat: Strategy,
    d: Directory,
) -> Option<Seq<char>> {
    match strat {
        Strategy::CurrentLocal => local_scope_path(host, app, d),
        Strategy::CurrentUser => user_scope_path(host, app, d),
        Strategy::CurrentSystem => fhs_path(app, false, d),
        Strategy::Fhs(mode) => fhs_path(app, mode == Some(Fhs::Local), d),
        Strategy::Xdg => xdg_strategy_path(ce, host, app, d),
        Strategy::Unix(u) => unix_strategy_path(host, app, u, d),
        Strategy::Windows(w) => windows_strategy_path(ce, w, org, app, d),
    }
}

/// What one spec entry resolves a purpose to: the strategy's path,
/// narrowed to the entry's purpose subset when one is listed, then
/// filtered against the filesystem observations, then remounted.
pub open spec fn entry_eval_path(
    app: Seq<char>,
    org: Seq<char>,
    ce: CustomEnv,
    host: HostEnv,
    entry: SpecEntry,
    ds: DirStatuses,
    d: Directory,
) -> Option<Seq<char>> {
    let base = strategy_path(app, org, ce, host, entry.strategy, d);
    let after_subset = if entry.directories@.len() > 0 && !entry.directories@.contains(d) {
        None
    } else {
        base
    };
    let after_filter = match entry.filter {
        Some(k) => if after_subset is Some && keeps(k, ds.status_of(d)) {
            after_subset
        } else {
            None
        },
        None => after_subset,
    };
    match entry.mountpoint {
        Some(mp) => match after_filter {
            Some(p) => Some(mount_seq(mp@, p)),
            None => None,
        },
        None => after_filter,
    }
}

/// Whether a resolved set answers every purpose as the entry demands,
/// given one set of filesystem observations.
pub open spec fn entry_eval_matches(
    r: ProjectDirs,
    app: Seq<char>,
    org: Seq<char>,
    ce: CustomEnv,
    host: HostEnv,
    entry: SpecEntry,
    ds: DirStatuses,
) -> bool {
    forall|d: Directory|
        #[trigger] r.entry_view(d) == entry_eval_path(app, org, ce, host, entry, ds, d)
}

impl Builder {
    /// Resolves one strategy against the host snapshot, under this
    /// build's environment overlay.
    fn resolve_strategy(&self, project: &Project, strat: &Strategy, host: &HostEnv) -> (r:
        ProjectDirs)
        ensures
            forall|d: Directory|
                #[trigger] r.entry_view(d) == strategy_path(
                    project.application_name_spec(),
                    project.organization_name_spec(),
                    self.custom_env,
                    *host,
                    *strat,
                    d,
                ),
    {
        proof {
            broadcast use crate::proj_dirs::lemma_partial_of_full_entries;
            broadcast use crate::proj_dirs::lemma_empty_entries;
        }
        match strat {
            Strategy::CurrentLocal => self.resolve_scope_local(project, host),
            Strategy::CurrentUser => self.resolve_scope_user(project, host),
            Strategy::CurrentSystem => self.resolve_scope_system(project, host),
            Strategy::Fhs(mode) => match mode {
                Some(Fhs::Local) => ProjectDirs::from_full(project.fhs_local()),
                _ => ProjectDirs::from_full(project.fhs()),
            },
            Strategy::Xdg => {
                let mut env = if self.custom_env.fallback_to_system {
                    XdgEnv::new_system(host)
                } else {
                    XdgEnv::default()
                };
                env.extend_with_env(&self.custom_env.env, self.custom_env.allow_variable_clearing);
                if self.custom_env.fallback_to_system {
                    match project.xdg_with_env(env) {
                        Ok(f) => ProjectDirs::from_full(f),
                        Err(_) => ProjectDirs::empty(),
                    }
                } else {
                    project.xdg_with_env_exclude_missing(env)
                }
            },
            Strategy::Unix(u) => match u {
                Unix::Pwd => match project.unix_pwd(host) {
                    Ok(f) => ProjectDirs::from_full(f),
                    Err(_) => ProjectDirs::empty(),
                },
                Unix::Home => match project.unix_home(host) {
                    Some(f) => ProjectDirs::from_full(f),
                    None => ProjectDirs::empty(),
                },
                Unix::Binary => match project.unix_binary(host) {
                    Ok(f) => ProjectDirs::from_full(f),
                    Err(_) => ProjectDirs::empty(),
                },
                Unix::Custom { path, prefix } => match prefix {
                    Some(p) => ProjectDirs::from_full(
                        project.unix_prefixed(path.as_str(), p.as_str()),
                    ),
                    None => ProjectDirs::from_full(project.unix(path.as_str())),
                },
            },
            Strategy::Windows(w) => {
                let mut env = WindowsEnv::default();
                env.extend_with_env(&self.custom_env.env, self.custom_env.allow_variable_clearing);
                match w {
                    Windows::Standard => project.windows_user_with_env(env),
                    Windows::Local => project.windows_user_local_with_env(env),
                    Windows::Shared => project.windows_user_shared_with_env(env),
                    Windows::System => project.windows_system_with_env(env),
                }
            },
        }
    }

    /// The host's local scope, as one strategy.
    fn resolve_scope_local(&self, project: &Project, host: &HostEnv) -> (r: ProjectDirs)
        ensures
            forall|d: Directory|
                #[trigger] r.entry_view(d) == local_scope_path(
                    *host,
                    project.application_name_spec(),
                    d,
                ),
    {
        let s = project.project_dirs(host);
        s.local
    }

    /// The host's per-user scope, as one strategy.
    fn resolve_scope_user(&self, project: &Project, host: &HostEnv) -> (r: ProjectDirs)
        ensures
            forall|d: Directory|
                #[trigger] r.entry_view(d) == user_scope_path(
                    *host,
                    project.application_name_spec(),
                    d,
                ),
    {
        let s = project.project_dirs(host);
        s.user
    }

    /// The host's system scope, as one strategy.
    fn resolve_scope_system(&self, project: &Project, host: &HostEnv) -> (r: ProjectDirs)
        ensures
            forall|d: Directory|
                #[trigger] r.entry_view(d) == fhs_path(project.application_name_spec(), false, d),
    {
        let s = project.project_dirs(host);
        s.system
    }

    /// Evaluates one named spec entry: the strategy resolved under the
    /// build's overlay, then the purpose subset, the filesystem filter
    /// and the mountpoint applied in that order.
    pub fn process_spec_entry(&self, project: &Project, entry: &SpecEntry, host: &HostEnv) -> (r:
        ProjectDirs)
        ensures
            exists|ds: DirStatuses|
                entry_eval_matches(
                    r,
                    project.application_name_spec(),
                    project.organization_name_spec(),
                    self.custom_env,
                    *host,
                    *entry,
                    ds,
                ),
    {
        proof {
            broadcast use crate::dir_utils::lemma_apply_filter_entries;
        }
        let ghost app = project.application_name_spec();
        let ghost org = project.organization_name_spec();
        let ghost ce = self.custom_env;
        let pd0 = self.resolve_strategy(project, &entry.strategy, host);
        let ghost g0 = pd0;
        let pd1 = if entry.directories.len() > 0 {
            keep_only(&pd0, &entry.directories)
        } else {
            pd0
        };
        let ghost g1 = pd1;
        proof {
            assert forall|d: Directory|
                #[trigger] g1.entry_view(d) == (if entry.directories@.len() > 0
                    && !entry.directories@.contains(d) {
                    None::<Seq<char>>
                } else {
                    strategy_path(app, org, ce, *host, entry.strategy, d)
                }) by {
                assert(g0.entry_view(d) == strategy_path(app, org, ce, *host, entry.strategy, d));
            }
        }
        let ghost mut dsg: DirStatuses = arbitrary();
        let pd2 = match &entry.filter {
            Some(kind) => {
                let r = pd1.filter_fs(*kind);
                proof {
                    dsg = choose|x: DirStatuses| r == apply_filter_spec(g1, *kind, x);
                }
                r
            },
            None => pd1,
        };
        let ghost g2 = pd2;
        proof {
            assert forall|d: Directory|
                #[trigger] g2.entry_view(d) == (match entry.filter {
                    Some(k) => if g1.entry_view(d) is Some && keeps(k, dsg.status_of(d)) {
                        g1.entry_view(d)
                    } else {
                        None
                    },
                    None => g1.entry_view(d),
                }) by {
                if entry.filter is Some {
                    assert(g2 == apply_filter_spec(g1, entry.filter->0, dsg));
                    assert(g1.entry(d) is Some <==> g1.entry_view(d) is Some);
                }
            }
        }
        let pd3 = match &entry.mountpoint {
            Some(mp) => pd2.mounted(mp.as_str()),
            None => pd2,
        };
        proof {
            assert forall|d: Directory|
                #[trigger] pd3.entry_view(d) == entry_eval_path(
                    app,
                    org,
                    ce,
                    *host,
                    *entry,
                    dsg,
                    d,
                ) by {
                assert(g1.entry_view(d) == (if entry.directories@.len() > 0
                    && !entry.directories@.contains(d) {
                    None::<Seq<char>>
                } else {
                    strategy_path(app, org, ce, *host, entry.strategy, d)
                }));
                assert(g2.entry_view(d) == (match entry.filter {
                    Some(k) => if g1.entry_view(d) is Some && keeps(k, dsg.status_of(d)) {
                        g1.entry_view(d)
                    } else {
                        None
                    },
                    None => g1.entry_view(d),
                }));
            }
            assert(entry_eval_matches(pd3, app, org, ce, *host, *entry, dsg));
        }
        pd3
    }

    /// The host's three canonical scopes under the fixed names `local`,
    /// `user` and `system`.
    fn system_default(&self, project: &Project, host: &HostEnv) -> (r: Vec<(String, ProjectDirs)>)
        ensures
            r@.len() == 3,
            r@[0].0@ == "local"@,
            r@[1].0@ == "user"@,
            r@[2].0@ == "system"@,
            forall|d: Directory|
                #[trigger] r@[0].1.entry_view(d) == local_scope_path(
                    *host,
                    project.application_name_spec(),
                    d,
                ),
            forall|d: Directory|
                #[trigger] r@[1].1.entry_view(d) == user_scope_path(
                    *host,
                    project.application_name_spec(),
                    d,
                ),
            forall|d: Directory|
                #[trigger] r@[2].1.entry_view(d) == fhs_path(
                    project.application_name_spec(),
                    false,
                    d,
                ),
    {
        let dirs = project.project_dirs(host);
        let mut r: Vec<(String, ProjectDirs)> = Vec::new();
        r.push((String::from_str("local"), dirs.local));
        r.push((String::from_str("user"), dirs.user));
        r.push((String::from_str("system"), dirs.system));
        r
    }

    /// Evaluates the build: the canonical application name, and one
    /// directory set per entry — the three fixed scopes for a
    /// system-default spec, the named entries of a custom one, each
    /// evaluated independently against the same snapshot.
    pub fn build(&self, host: &HostEnv) -> (r: BuilderResult)
        ensures
            r.application_name@ == unix_norm(self.application@),
            self.spec is SystemDefault ==> {
                &&& r.dirs@.len() == 3
                &&& r.dirs@[0].0@ == "local"@
                &&& r.dirs@[1].0@ == "user"@
                &&& r.dirs@[2].0@ == "system"@
            },
            self.spec is SystemDefault ==> forall|d: Directory|
                #[trigger] r.dirs@[0].1.entry_view(d) == local_scope_path(
                    *host,
                    unix_norm(self.application@),
                    d,
                ),
            self.spec is SystemDefault ==> forall|d: Directory|
                #[trigger] r.dirs@[1].1.entry_view(d) == user_scope_path(
                    *host,
                    unix_norm(self.application@),
                    d,
                ),
            self.spec is SystemDefault ==> forall|d: Directory|
                #[trigger] r.dirs@[2].1.entry_view(d) == fhs_path(
                    unix_norm(self.application@),
                    false,
                    d,
                ),
            self.spec is Custom ==> r.dirs@.len() == (self.spec->Custom_0)@.len(),
            self.spec is Custom && names_unique((self.spec->Custom_0)@) ==> names_unique(r.dirs@),
            self.spec is Custom ==> forall|i: int|
                0 <= i < (self.spec->Custom_0)@.len() ==> #[trigger] r.dirs@[i].0 == (
                self.spec->Custom_0)@[i].0 && exists|ds: DirStatuses|
                    entry_eval_matches(
                        r.dirs@[i].1,
                        unix_norm(self.application@),
                        unix_norm(self.organization@),
                        self.custom_env,
                        *host,
                        (self.spec->Custom_0)@[i].1,
                        ds,
                    ),
    {
        let project = Project::new(
            self.qualifier.as_str(),
            self.organization.as_str(),
            self.application.as_str(),
        );
        let application_name = String::from_str(project.application_name());
        let dirs: Vec<(String, ProjectDirs)> = match &self.spec {
            Spec::SystemDefault => {
                let sd = self.system_default(&project, host);
                proof {
                    assert(project.application_name_spec() == unix_norm(self.application@));
                    assert forall|d: Directory|
                        #[trigger] sd@[0].1.entry_view(d) == local_scope_path(
                            *host,
                            unix_norm(self.application@),
                            d,
                        ) by {}
                    assert forall|d: Directory|
                        #[trigger] sd@[1].1.entry_view(d) == user_scope_path(
                            *host,
                            unix_norm(self.application@),
                            d,
                        ) by {}
                    assert forall|d: Directory|
                        #[trigger] sd@[2].1.entry_view(d) == fhs_path(
                            unix_norm(self.application@),
                            false,
                            d,
                        ) by {}
                }
                sd
            },
            Spec::Custom(items) => {
                let n = items.len();
                let mut acc: Vec<(String, ProjectDirs)> = Vec::new();
                let mut i: usize = 0;
                while i < n
                    invariant
                        n == items@.len(),
                        i <= n,
                        acc@.len() == i,
                        project.application_name_spec() == unix_norm(self.application@),
                        project.organization_name_spec() == unix_norm(self.organization@),
                        forall|j: int|
                            0 <= j < i ==> #[trigger] acc@[j].0 == items@[j].0 && exists|
                                ds: DirStatuses,
                            |
                                entry_eval_matches(
                                    acc@[j].1,
                                    unix_norm(self.application@),
                                    unix_norm(self.organization@),
                                    self.custom_env,
                                    *host,
                                    items@[j].1,
                                    ds,
                                ),
                    decreases n - i,
                {
                    let name = items[i].0.clone();
                    let pd = self.process_spec_entry(&project, &items[i].1, host);
                    let ghost old_acc = acc@;
                    let ghost namev = name;
                    let ghost pdv = pd;
                    acc.push((name, pd));
                    proof {
                        assert(acc@ =~= old_acc.push((namev, pdv)));
                        assert forall|j: int|
                            0 <= j < i + 1 implies #[trigger] acc@[j].0 == items@[j].0 && exists|
                            ds: DirStatuses,
                        |
                            entry_eval_matches(
                                acc@[j].1,
                                unix_norm(self.application@),
                                unix_norm(self.organization@),
                                self.custom_env,
                                *host,
                                items@[j].1,
                                ds,
                            ) by {
                            if j < i {
                                assert(acc@[j] == old_acc[j]);
                                assert(old_acc[j].0 == items@[j].0);
                            } else {
                                assert(acc@[j] == (namev, pdv));
                                assert(namev == items@[i as int].0);
                                let ds0 = choose|ds: DirStatuses|
                                    entry_eval_matches(
                                        pdv,
                                        project.application_name_spec(),
                                        project.organization_name_spec(),
                                        self.custom_env,
                                        *host,
                                        items@[i as int].1,
                                        ds,
                                    );
                                assert(entry_eval_matches(
                                    acc@[j].1,
                                    unix_norm(self.application@),
                                    unix_norm(self.organization@),
                                    self.custom_env,
                                    *host,
                                    items@[j].1,
                                    ds0,
                                ));
                            }
                        }
                    }
                    i = i + 1;
                }
                proof {
                    assert(items@ == (self.spec->Custom_0)@);
                    if names_unique(items@) {
                        assert forall|i2: int, j2: int|
                            0 <= i2 < j2 < acc@.len() implies acc@[i2].0@ != acc@[j2].0@ by {
                            assert(acc@[i2].0 == items@[i2].0);
                            assert(acc@[j2].0 == items@[j2].0);
                        }
                    }
                    assert forall|i2: int|
                        0 <= i2 < (self.spec->Custom_0)@.len() implies #[trigger] acc@[i2].0 == (
                    self.spec->Custom_0)@[i2].0 && exists|ds: DirStatuses|
                        entry_eval_matches(
                            acc@[i2].1,
                            unix_norm(self.application@),
                            unix_norm(self.organization@),
                            self.custom_env,
                            *host,
                            (self.spec->Custom_0)@[i2].1,
                            ds,
                        ) by {
                        assert(acc@[i2].0 == items@[i2].0);
                        let ds0 = choose|ds: DirStatuses|
                            entry_eval_matches(
                                acc@[i2].1,
                                unix_norm(self.application@),
                                unix_norm(self.organization@),
                                self.custom_env,
                                *host,
                                items@[i2].1,
                                ds,
                            );
                        assert(entry_eval_matches(
                            acc@[i2].1,
                            unix_norm(self.application@),
                            unix_norm(self.organization@),
                            self.custom_env,
                            *host,
                            (self.spec->Custom_0)@[i2].1,
                            ds0,
                        ));
                    }
                }
                acc
            },
        };
        BuilderResult { application_name, dirs }
    }
}

/// Law: a system-default build and a custom build of three plain entries
/// mapped to the current-scope strategies agree, purpose for purpose.
/// An entry with no subset, no filter and no mountpoint resolves a
/// current-scope strategy to exactly the scope the system default
/// reports under the corresponding fixed name, whatever the overlay and
/// the filesystem observations.
pub proof fn lemma_system_default_equivalence(
    app: Seq<char>,
    org: Seq<char>,
    ce: CustomEnv,
    host: HostEnv,
    entry: SpecEntry,
    ds: DirStatuses,
    d: Directory,
)
    requires
        entry.directories@.len() == 0,
        entry.filter is None,
        entry.mountpoint is None,
    ensures
        entry.strategy is CurrentLocal ==> entry_eval_path(app, org, ce, host, entry, ds, d)
            == local_scope_path(host, app, d),
        entry.strategy is CurrentUser ==> entry_eval_path(app, org, ce, host, entry, ds, d)
            == user_scope_path(host, app, d),
        entry.strategy is CurrentSystem ==> entry_eval_path(app, org, ce, host, entry, ds, d)
            == fhs_path(app, false, d),
{
}

/// Error codes of the native-ABI boundary around the builder.
#[derive(Debug, Clone, Copy, PartialEq, Eq, Structural)]
pub enum FromBuilderError {
    NoError,
    NullInput,
    NonStrInput,
    BuilderParsingFailed,
    ResultSerializationFailed,
}

impl FromBuilderError {
    /// The numeric code the boundary reports for this error.
    pub fn code(&self) -> (r: u8)
        ensures
            r == match *self {
                FromBuilderError::NoError => 0u8,
                FromBuilderError::NullInput => 1u8,
                FromBuilderError::NonStrInput => 2u8,
                FromBuilderError::BuilderParsingFailed => 3u8,
                FromBuilderError::ResultSerializationFailed => 4u8,
            },
    {
        match self {
            FromBuilderError::NoError => 0,
            FromBuilderError::NullInput => 1,
            FromBuilderError::NonStrInput => 2,
            FromBuilderError::BuilderParsingFailed => 3,
            FromBuilderError::ResultSerializationFailed => 4,
        }
    }
}

} // verus!
