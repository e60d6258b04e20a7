//! The XDG base-directory strategy. Paths derive from the `XDG_*`
//! variables joined with the application name, falling back — only when
//! the home directory is known — to the standard locations under it.
//! Two access modes exist: one that simply omits unresolved purposes,
//! and a strict one that yields a complete set or fails when the home
//! directory cannot be determined.

use vstd::prelude::*;

use crate::Directory;
use crate::Project;
use crate::host::HostEnv;
use crate::path_util::hdr_component;
use crate::path_util::hdr_component_str;
use crate::path_util::opt_view;
use crate::path_util::path_join;
use crate::path_util::seq_join;
use crate::path_util::split_colon;
use crate::path_util::split_colon_str;
use crate::path_util::str_eq;
use crate::proj_dirs::FullProjectDirs;
use crate::proj_dirs::ProjectDirs;

verus! {

/// The XDG-relevant part of an environment: the resolved home directory
/// and the five base-directory variables, each possibly unset.
#[derive(Debug, Clone)]
pub struct XdgEnv {
    pub home_dir: Option<String>,
    pub xdg_data_home: Option<String>,
    pub xdg_config_home: Option<String>,
    pub xdg_state_home: Option<String>,
    pub xdg_cache_home: Option<String>,
    pub xdg_runtime_dir: Option<String>,
}

/// Resolution errors of the strict XDG mode.
#[derive(Debug, Clone, Copy, PartialEq, Eq, Structural)]
pub enum XdgError {
    /// The home directory cannot be resolved, so the purposes that fall
    /// back to it (and `Bin`, which always derives from it) are lost
    UnresolvedHomeDir,
}

/// An optional value with the empty string counting as unset.
pub open spec fn nonempty_opt(o: Option<String>) -> Option<String> {
    if o is Some && o->0@.len() > 0 {
        o
    } else {
        None
    }
}

/// An optional value, cloned, with the empty string counting as unset.
pub(crate) fn nonempty_clone(o: &Option<String>) -> (r: Option<String>)
    ensures
        r == nonempty_opt(*o),
{
    match o {
        Some(s) => if s.as_str().is_empty() {
            None
        } else {
            Some(s.clone())
        },
        None => None,
    }
}

impl XdgEnv {
    /// The environment with every variable unset.
    pub open spec fn default_spec() -> XdgEnv {
        XdgEnv {
            home_dir: None,
            xdg_data_home: None,
            xdg_config_home: None,
            xdg_state_home: None,
            xdg_cache_home: None,
            xdg_runtime_dir: None,
        }
    }

    /// The XDG view of a host snapshot: the home directory as resolved,
    /// each variable with the empty string counting as unset.
    pub open spec fn of_host(host: HostEnv) -> XdgEnv {
        XdgEnv {
            home_dir: host.home_dir,
            xdg_data_home: nonempty_opt(host.xdg_data_home),
            xdg_config_home: nonempty_opt(host.xdg_config_home),
            xdg_state_home: nonempty_opt(host.xdg_state_home),
            xdg_cache_home: nonempty_opt(host.xdg_cache_home),
            xdg_runtime_dir: nonempty_opt(host.xdg_runtime_dir),
        }
    }

    /// Reads the XDG environment out of a host snapshot.
    pub fn new_system(host: &HostEnv) -> (r: XdgEnv)
        ensures
            r == XdgEnv::of_host(*host),
    {
        XdgEnv {
            home_dir: match &host.home_dir {
                Some(h) => Some(h.clone()),
                None => None,
            },
            xdg_data_home: nonempty_clone(&host.xdg_data_home),
            xdg_config_home: nonempty_clone(&host.xdg_config_home),
            xdg_state_home: nonempty_clone(&host.xdg_state_home),
            xdg_cache_home: nonempty_clone(&host.xdg_cache_home),
            xdg_runtime_dir: nonempty_clone(&host.xdg_runtime_dir),
        }
    }

    /// One override applied to the environment: a present, non-empty
    /// value sets the variable; an absent or empty one clears it when
    /// clearing is allowed and is ignored otherwise; unknown keys are
    /// ignored.
    pub open spec fn extend_one(env: XdgEnv, k: String, v: Option<String>, allow: bool) -> XdgEnv {
        let nv = nonempty_opt(v);
        if allow || nv is Some {
            if k@ == "XDG_DATA_HOME"@ {
                XdgEnv { xdg_data_home: nv, ..env }
            } else if k@ == "XDG_CONFIG_HOME"@ {
                XdgEnv { xdg_config_home: nv, ..env }
            } else if k@ == "XDG_STATE_HOME"@ {
                XdgEnv { xdg_state_home: nv, ..env }
            } else if k@ == "XDG_CACHE_HOME"@ {
                XdgEnv { xdg_cache_home: nv, ..env }
            } else if k@ == "XDG_RUNTIME_DIR"@ {
                XdgEnv { xdg_runtime_dir: nv, ..env }
            } else if k@ == "HOME"@ {
                XdgEnv { home_dir: nv, ..env }
            } else {
                env
            }
        } else {
            env
        }
    }

    /// The environment after every override of the list, first to last.
    pub open spec fn extend_spec(
        env: XdgEnv,
        pairs: Seq<(String, Option<String>)>,
        allow: bool,
    ) -> XdgEnv
        decreases pairs.len(),
    {
        if pairs.len() == 0 {
            env
        } else {
            XdgEnv::extend_one(
                XdgEnv::extend_spec(env, pairs.drop_last(), allow),
                pairs.last().0,
                pairs.last().1,
                allow,
            )
        }
    }

    /// Merges caller-supplied overrides into the environment. An override
    /// with a present, non-empty value sets its variable; an absent or
    /// empty value clears it only when `allow_clearing` is set, and is
    /// ignored otherwise; unknown keys are ignored.
    pub fn extend_with_env(
        &mut self,
        other: &Vec<(String, Option<String>)>,
        allow_clearing: bool,
    )
        ensures
            *final(self) == XdgEnv::extend_spec(*old(self), other@, allow_clearing),
    {
        let n = other.len();
        let mut i: usize = 0;
        while i < n
            invariant
                n == other@.len(),
                i <= n,
                *self == XdgEnv::extend_spec(*old(self), other@.take(i as int), allow_clearing),
            decreases n - i,
        {
            let nv = nonempty_clone(&other[i].1);
            let k = other[i].0.as_str();
            proof {
                assert(other@.take(i + 1).drop_last() =~= other@.take(i as int));
                assert(other@.take(i + 1).last() == other@[i as int]);
            }
            if allow_clearing || nv.is_some() {
                if str_eq(k, "XDG_DATA_HOME") {
                    self.xdg_data_home = nv;
                } else if str_eq(k, "XDG_CONFIG_HOME") {
                    self.xdg_config_home = nv;
                } else if str_eq(k, "XDG_STATE_HOME") {
                    self.xdg_state_home = nv;
                } else if str_eq(k, "XDG_CACHE_HOME") {
                    self.xdg_cache_home = nv;
                } else if str_eq(k, "XDG_RUNTIME_DIR") {
                    self.xdg_runtime_dir = nv;
                } else if str_eq(k, "HOME") {
                    self.home_dir = nv;
                }
            }
            i = i + 1;
        }
        proof {
            assert(other@.take(n as int) =~= other@);
        }
    }

    /// Whether strict resolution can succeed: the home directory is
    /// known, or every variable-backed purpose has its variable set.
    pub open spec fn ok_spec(self) -> bool {
        self.home_dir is Some || (self.xdg_data_home is Some && self.xdg_config_home is Some
            && self.xdg_state_home is Some && self.xdg_cache_home is Some)
    }

    /// Whether the environment can resolve the variable-backed purposes.
    /// Note that `Bin` always derives from the home directory, so strict
    /// resolution still fails without it.
    pub fn is_ok(&self) -> (r: bool)
        ensures
            r == self.ok_spec(),
    {
        self.home_dir.is_some() || (self.xdg_data_home.is_some() && self.xdg_config_home.is_some()
            && self.xdg_state_home.is_some() && self.xdg_cache_home.is_some())
    }
}

impl Default for XdgEnv {
    fn default() -> (r: XdgEnv)
        ensures
            r == XdgEnv::default_spec(),
    {
        XdgEnv {
            home_dir: None,
            xdg_data_home: None,
            xdg_config_home: None,
            xdg_state_home: None,
            xdg_cache_home: None,
            xdg_runtime_dir: None,
        }
    }
}

/// The XDG path for a purpose when missing purposes are simply omitted:
/// each purpose resolves only if its backing variable (for `Bin`, the
/// home directory) is known; no fallbacks apply.
pub open spec fn xdg_excl_path(env: XdgEnv, app: Seq<char>, d: Directory) -> Option<Seq<char>> {
    match d {
        Directory::Bin => match opt_view(env.home_dir) {
            Some(h) => Some(seq_join(seq_join(h, ".local"@), "bin"@)),
            None => None,
        },
        Directory::Cache => match opt_view(env.xdg_cache_home) {
            Some(p) => Some(seq_join(p, app)),
            None => None,
        },
        Directory::Config => match opt_view(env.xdg_config_home) {
            Some(p) => Some(seq_join(p, app)),
            None => None,
        },
        Directory::Data => match opt_view(env.xdg_data_home) {
            Some(p) => Some(seq_join(p, app)),
            None => None,
        },
        Directory::Include => match opt_view(env.xdg_data_home) {
            Some(p) => Some(seq_join(seq_join(p, app), hdr_component())),
            None => None,
        },
        Directory::Lib => match opt_view(env.xdg_data_home) {
            Some(p) => Some(seq_join(seq_join(p, app), "lib"@)),
            None => None,
        },
        Directory::Log => match opt_view(env.xdg_state_home) {
            Some(p) => Some(seq_join(seq_join(p, app), "log"@)),
            None => None,
        },
        Directory::ProjectRoot => None,
        Directory::Runtime => match opt_view(env.xdg_runtime_dir) {
            Some(p) => Some(seq_join(p, app)),
            None => None,
        },
        Directory::State => match opt_view(env.xdg_state_home) {
            Some(p) => Some(seq_join(p, app)),
            None => None,
        },
    }
}

/// The strict XDG path for a purpose, assuming the home directory is
/// known: a set variable wins; otherwise the XDG-specified default under
/// the home directory applies. `Runtime` alone has no fallback.
pub open spec fn xdg_full_path(env: XdgEnv, app: Seq<char>, d: Directory) -> Option<Seq<char>> {
    let h = env.home_dir->0@;
    let share = seq_join(seq_join(h, ".local"@), "share"@);
    let state_default = seq_join(seq_join(h, ".local"@), "state"@);
    match d {
        Directory::Bin => Some(seq_join(seq_join(h, ".local"@), "bin"@)),
        Directory::Cache => match opt_view(env.xdg_cache_home) {
            Some(p) => Some(seq_join(p, app)),
            None => Some(seq_join(seq_join(h, ".cache"@), app)),
        },
        Directory::Config => match opt_view(env.xdg_config_home) {
            Some(p) => Some(seq_join(p, app)),
            None => Some(seq_join(seq_join(h, ".config"@), app)),
        },
        Directory::Data => match opt_view(env.xdg_data_home) {
            Some(p) => Some(seq_join(p, app)),
            None => Some(seq_join(share, app)),
        },
        Directory::Include => match opt_view(env.xdg_data_home) {
            Some(p) => Some(seq_join(seq_join(p, app), hdr_component())),
            None => Some(seq_join(seq_join(share, app), hdr_component())),
        },
        Directory::Lib => match opt_view(env.xdg_data_home) {
            Some(p) => Some(seq_join(seq_join(p, app), "lib"@)),
            None => Some(seq_join(seq_join(share, app), "lib"@)),
        },
        Directory::Log => match opt_view(env.xdg_state_home) {
            Some(p) => Some(seq_join(seq_join(p, app), "log"@)),
            None => Some(seq_join(seq_join(state_default, app), "log"@)),
        },
        Directory::ProjectRoot => None,
        Directory::Runtime => match opt_view(env.xdg_runtime_dir) {
            Some(p) => Some(seq_join(p, app)),
            None => None,
        },
        Directory::State => match opt_view(env.xdg_state_home) {
            Some(p) => Some(seq_join(p, app)),
            None => Some(seq_join(state_default, app)),
        },
    }
}

/// An optional base joined with one component.
fn join_opt(base: &Option<String>, rel: &str) -> (r: Option<String>)
    ensures
        opt_view(r) == match opt_view(*base) {
            Some(b) => Some(seq_join(b, rel@)),
            None => None::<Seq<char>>,
        },
{
    match base {
        Some(b) => Some(path_join(b.as_str(), rel)),
        None => None,
    }
}

impl Project {
    /// The XDG directories resolvable from the given environment alone:
    /// purposes whose backing variable is unset are omitted, with no
    /// fallback to the standard locations.
    pub fn xdg_with_env_exclude_missing(&self, env: XdgEnv) -> (r: ProjectDirs)
        ensures
            forall|d: Directory|
                #[trigger] r.entry_view(d) == xdg_excl_path(
                    env,
                    self.application_name_spec(),
                    d,
                ),
    {
        let app = self.application_name();
        let hdr = hdr_component_str();
        let bin = match &env.home_dir {
            Some(h) => Some(path_join(path_join(h.as_str(), ".local").as_str(), "bin")),
            None => None,
        };
        let cache = join_opt(&env.xdg_cache_home, app);
        let config = join_opt(&env.xdg_config_home, app);
        let data = join_opt(&env.xdg_data_home, app);
        let inc = match &env.xdg_data_home {
            Some(p) => Some(path_join(path_join(p.as_str(), app).as_str(), hdr.as_str())),
            None => None,
        };
        let lib = match &env.xdg_data_home {
            Some(p) => Some(path_join(path_join(p.as_str(), app).as_str(), "lib")),
            None => None,
        };
        let log = match &env.xdg_state_home {
            Some(p) => Some(path_join(path_join(p.as_str(), app).as_str(), "log")),
            None => None,
        };
        let runtime = join_opt(&env.xdg_runtime_dir, app);
        let state = join_opt(&env.xdg_state_home, app);
        ProjectDirs {
            bin,
            cache,
            config,
            data,
            inc,
            lib,
            log,
            project_root: None,
            runtime,
            state,
        }
    }

    /// The strict XDG directories for the given environment: a complete
    /// set with set variables winning over the home-derived defaults, or
    /// an error exactly when the home directory is unknown.
    pub fn xdg_with_env(&self, env: XdgEnv) -> (r: Result<FullProjectDirs, XdgError>)
        ensures
            r is Ok <==> env.home_dir is Some,
            r is Err ==> r->Err_0 == XdgError::UnresolvedHomeDir,
            r is Ok ==> forall|d: Directory|
                #[trigger] (r->Ok_0).entry_view(d) == xdg_full_path(
                    env,
                    self.application_name_spec(),
                    d,
                ),
    {
        let app = self.application_name();
        let hdr = hdr_component_str();
        match &env.home_dir {
            None => Err(XdgError::UnresolvedHomeDir),
            Some(h) => {
                let dot_local = path_join(h.as_str(), ".local");
                let share = path_join(dot_local.as_str(), "share");
                let state_default = path_join(dot_local.as_str(), "state");
                let bin = path_join(dot_local.as_str(), "bin");
                let cache = match &env.xdg_cache_home {
                    Some(p) => path_join(p.as_str(), app),
                    None => path_join(path_join(h.as_str(), ".cache").as_str(), app),
                };
                let config = match &env.xdg_config_home {
                    Some(p) => path_join(p.as_str(), app),
                    None => path_join(path_join(h.as_str(), ".config").as_str(), app),
                };
                let data = match &env.xdg_data_home {
                    Some(p) => path_join(p.as_str(), app),
                    None => path_join(share.as_str(), app),
                };
                let inc = match &env.xdg_data_home {
                    Some(p) => path_join(path_join(p.as_str(), app).as_str(), hdr.as_str()),
                    None => path_join(path_join(share.as_str(), app).as_str(), hdr.as_str()),
                };
                let lib = match &env.xdg_data_home {
                    Some(p) => path_join(path_join(p.as_str(), app).as_str(), "lib"),
                    None => path_join(path_join(share.as_str(), app).as_str(), "lib"),
                };
                let log = match &env.xdg_state_home {
                    Some(p) => path_join(path_join(p.as_str(), app).as_str(), "log"),
                    None => path_join(path_join(state_default.as_str(), app).as_str(), "log"),
                };
                let state = match &env.xdg_state_home {
                    Some(p) => path_join(p.as_str(), app),
                    None => path_join(state_default.as_str(), app),
                };
                let runtime = join_opt(&env.xdg_runtime_dir, app);
                Ok(
                    FullProjectDirs {
                        bin,
                        cache,
                        config,
                        data,
                        inc,
                        lib,
                        log,
                        project_root: None,
                        runtime,
                        state,
                    },
                )
            },
        }
    }

    /// The strict XDG directories for a host snapshot.
    pub fn xdg(&self, host: &HostEnv) -> (r: Result<FullProjectDirs, XdgError>)
        ensures
            r is Ok <==> host.home_dir is Some,
            r is Err ==> r->Err_0 == XdgError::UnresolvedHomeDir,
            r is Ok ==> forall|d: Directory|
                #[trigger] (r->Ok_0).entry_view(d) == xdg_full_path(
                    XdgEnv::of_host(*host),
                    self.application_name_spec(),
                    d,
                ),
    {
        self.xdg_with_env(XdgEnv::new_system(host))
    }
}

/// The data search path: the `XDG_DATA_DIRS` value split on `:`, or the
/// two standard locations when the variable is absent.
pub fn xdg_data_dirs(value: Option<&str>) -> (r: Vec<String>)
    ensures
        match value {
            Some(s) => r.deep_view() == split_colon(s@),
            None => r.deep_view() =~~= seq!["/usr/local/share"@, "/usr/share"@],
        },
{
    match value {
        Some(s) => split_colon_str(s),
        None => {
            let mut r: Vec<String> = Vec::new();
            r.push(String::from_str("/usr/local/share"));
            r.push(String::from_str("/usr/share"));
            proof {
                assert(r.deep_view() =~~= seq!["/usr/local/share"@, "/usr/share"@]);
            }
            r
        },
    }
}

/// The config search path: the `XDG_CONFIG_DIRS` value split on `:`, or
/// the standard location when the variable is absent.
pub fn xdg_config_dirs(value: Option<&str>) -> (r: Vec<String>)
    ensures
        match value {
            Some(s) => r.deep_view() == split_colon(s@),
            None => r.deep_view() =~~= seq!["/etc/xdg"@],
        },
{
    match value {
        Some(s) => split_colon_str(s),
        None => {
            let mut r: Vec<String> = Vec::new();
            r.push(String::from_str("/etc/xdg"));
            proof {
                assert(r.deep_view() =~~= seq!["/etc/xdg"@]);
            }
            r
        },
    }
}

/// Law: with only the home directory known, strict resolution places
/// every mandatory purpose at its home-derived default location.
pub proof fn lemma_xdg_home_only_defaults(env: XdgEnv, app: Seq<char>)
    requires
        env.home_dir is Some,
        env.xdg_data_home is None,
        env.xdg_config_home is None,
        env.xdg_state_home is None,
        env.xdg_cache_home is None,
    ensures
        ({
            let h = env.home_dir->0@;
            let share = seq_join(seq_join(h, ".local"@), "share"@);
            let state_default = seq_join(seq_join(h, ".local"@), "state"@);
            &&& xdg_full_path(env, app, Directory::Bin) == Some(
                seq_join(seq_join(h, ".local"@), "bin"@),
            )
            &&& xdg_full_path(env, app, Directory::Cache) == Some(
                seq_join(seq_join(h, ".cache"@), app),
            )
            &&& xdg_full_path(env, app, Directory::Config) == Some(
                seq_join(seq_join(h, ".config"@), app),
            )
            &&& xdg_full_path(env, app, Directory::Data) == Some(seq_join(share, app))
            &&& xdg_full_path(env, app, Directory::Include) == Some(
                seq_join(seq_join(share, app), hdr_component()),
            )
            &&& xdg_full_path(env, app, Directory::Lib) == Some(
                seq_join(seq_join(share, app), "lib"@),
            )
            &&& xdg_full_path(env, app, Directory::Log) == Some(
                seq_join(seq_join(state_default, app), "log"@),
            )
            &&& xdg_full_path(env, app, Directory::State) == Some(seq_join(state_default, app))
        }),
{
}

} // verus!
