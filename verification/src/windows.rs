//! The Windows known-folder strategy. Each mode joins
//! `organization/application` under one or two known-folder roots:
//! machine-wide installs use the program-files and program-data folders,
//! per-user installs the roaming and local application-data folders.
//! The roots arrive already resolved through [`WindowsEnv`], so the
//! resolution logic itself is portable; purposes whose backing root is
//! absent are simply omitted.

use vstd::prelude::*;

use crate::Directory;
use crate::Project;
use crate::path_util::hdr_component;
use crate::path_util::hdr_component_str;
use crate::path_util::opt_view;
use crate::path_util::path_join;
use crate::path_util::seq_join;
use crate::path_util::str_eq;
use crate::proj_dirs::ProjectDirs;
use crate::xdg::nonempty_clone;
use crate::xdg::nonempty_opt;

verus! {

/// The Windows known-folder roots, each possibly unresolved.
#[derive(Debug, Clone)]
pub struct WindowsEnv {
    pub program_files: Option<String>,
    pub program_data: Option<String>,
    pub roaming_app_data: Option<String>,
    pub local_app_data: Option<String>,
}

impl WindowsEnv {
    /// The environment with every root unresolved.
    pub open spec fn default_spec() -> WindowsEnv {
        WindowsEnv {
            program_files: None,
            program_data: None,
            roaming_app_data: None,
            local_app_data: None,
        }
    }

    /// One override applied to the environment: a present, non-empty
    /// value sets the root; an absent or empty one clears it when
    /// clearing is allowed and is ignored otherwise; unknown keys are
    /// ignored.
    pub open spec fn extend_one(
        env: WindowsEnv,
        k: String,
        v: Option<String>,
        allow: bool,
    ) -> WindowsEnv {
        let nv = nonempty_opt(v);
        if allow || nv is Some {
            if k@ == "%ProgramFiles%"@ {
                WindowsEnv { program_files: nv, ..env }
            } else if k@ == "%ProgramData%"@ {
                WindowsEnv { program_data: nv, ..env }
            } else if k@ == "%RoamingAppData%"@ {
                WindowsEnv { roaming_app_data: nv, ..env }
            } else if k@ == "%LocalAppData%"@ {
                WindowsEnv { local_app_data: nv, ..env }
            } else {
                env
            }
        } else {
            env
        }
    }

    /// The environment after every override of the list, first to last.
    pub open spec fn extend_spec(
        env: WindowsEnv,
        pairs: Seq<(String, Option<String>)>,
        allow: bool,
    ) -> WindowsEnv
        decreases pairs.len(),
    {
        if pairs.len() == 0 {
            env
        } else {
            WindowsEnv::extend_one(
                WindowsEnv::extend_spec(env, pairs.drop_last(), allow),
                pairs.last().0,
                pairs.last().1,
                allow,
            )
        }
    }

    /// Merges caller-supplied overrides into the environment, with the
    /// same setting/clearing semantics as the XDG overlay.
    pub fn extend_with_env(
        &mut self,
        other: &Vec<(String, Option<String>)>,
        allow_clearing: bool,
    )
        ensures
            *final(self) == WindowsEnv::extend_spec(*old(self), other@, allow_clearing),
    {
        let n = other.len();
        let mut i: usize = 0;
        while i < n
            invariant
                n == other@.len(),
                i <= n,
                *self == WindowsEnv::extend_spec(
                    *old(self),
                    other@.take(i as int),
                    allow_clearing,
                ),
            decreases n - i,
        {
            let nv = nonempty_clone(&other[i].1);
            let k = other[i].0.as_str();
            proof {
                assert(other@.take(i + 1).drop_last() =~= other@.take(i as int));
                assert(other@.take(i + 1).last() == other@[i as int]);
            }
            if allow_clearing || nv.is_some() {
                if str_eq(k, "%ProgramFiles%") {
                    self.program_files = nv;
                } else if str_eq(k, "%ProgramData%") {
                    self.program_data = nv;
                } else if str_eq(k, "%RoamingAppData%") {
                    self.roaming_app_data = nv;
                } else if str_eq(k, "%LocalAppData%") {
                    self.local_app_data = nv;
                }
            }
            i = i + 1;
        }
        proof {
            assert(other@.take(n as int) =~= other@);
        }
    }
}

impl Default for WindowsEnv {
    fn default() -> (r: WindowsEnv)
        ensures
            r == WindowsEnv::default_spec(),
    {
        WindowsEnv {
            program_files: None,
            program_data: None,
            roaming_app_data: None,
            local_app_data: None,
        }
    }
}

/// The `organization/application` namespace under a known-folder root.
pub open spec fn win_ns(root: Seq<char>, org: Seq<char>, app: Seq<char>) -> Seq<char> {
    seq_join(seq_join(root, org), app)
}

/// The Windows path for a purpose, given the root for static data
/// (binaries, config, headers, libraries), the root for changing data
/// (data, cache, runtime, state, logs), and the project root if the mode
/// sets one. A purpose whose root is absent is omitted.
pub open spec fn windows_path(
    static_root: Option<Seq<char>>,
    changing_root: Option<Seq<char>>,
    project_root: Option<Seq<char>>,
    org: Seq<char>,
    app: Seq<char>,
    d: Directory,
) -> Option<Seq<char>> {
    match d {
        Directory::Bin => match static_root {
            Some(r) => Some(seq_join(win_ns(r, org, app), "bin"@)),
            None => None,
        },
        Directory::Config => match static_root {
            Some(r) => Some(seq_join(win_ns(r, org, app), "config"@)),
            None => None,
        },
        Directory::Include => match static_root {
            Some(r) => Some(seq_join(win_ns(r, org, app), hdr_component())),
            None => None,
        },
        Directory::Lib => match static_root {
            Some(r) => Some(seq_join(win_ns(r, org, app), "lib"@)),
            None => None,
        },
        Directory::Data => match changing_root {
            Some(r) => Some(seq_join(win_ns(r, org, app), "data"@)),
            None => None,
        },
        Directory::Cache => match changing_root {
            Some(r) => Some(seq_join(win_ns(r, org, app), "cache"@)),
            None => None,
        },
        Directory::Runtime => match changing_root {
            Some(r) => Some(seq_join(win_ns(r, org, app), "tmp"@)),
            None => None,
        },
        Directory::State => match changing_root {
            Some(r) => Some(seq_join(win_ns(r, org, app), "state"@)),
            None => None,
        },
        Directory::Log => match changing_root {
            Some(r) => Some(seq_join(win_ns(r, org, app), "logs"@)),
            None => None,
        },
        Directory::ProjectRoot => project_root,
    }
}

/// Joins `organization/application` under a known-folder root.
pub fn join_win_path(path: &str, project: &Project) -> (r: String)
    ensures
        r@ == win_ns(path@, project.organization_name_spec(), project.application_name_spec()),
{
    let with_org = path_join(path, project.organization_name());
    path_join(with_org.as_str(), project.application_name())
}

/// Fills the changing-data purposes (data, cache, runtime, state, logs)
/// from one root; the other purposes keep their values.
fn changing_data(result: &mut ProjectDirs, path: &str, project: &Project)
    ensures
        ({
            let ns = win_ns(
                path@,
                project.organization_name_spec(),
                project.application_name_spec(),
            );
            &&& opt_view(final(result).data) == Some(seq_join(ns, "data"@))
            &&& opt_view(final(result).cache) == Some(seq_join(ns, "cache"@))
            &&& opt_view(final(result).runtime) == Some(seq_join(ns, "tmp"@))
            &&& opt_view(final(result).state) == Some(seq_join(ns, "state"@))
            &&& opt_view(final(result).log) == Some(seq_join(ns, "logs"@))
            &&& final(result).bin == old(result).bin
            &&& final(result).config == old(result).config
            &&& final(result).inc == old(result).inc
            &&& final(result).lib == old(result).lib
            &&& final(result).project_root == old(result).project_root
        }),
{
    result.data = Some(path_join(join_win_path(path, project).as_str(), "data"));
    result.cache = Some(path_join(join_win_path(path, project).as_str(), "cache"));
    result.runtime = Some(path_join(join_win_path(path, project).as_str(), "tmp"));
    result.state = Some(path_join(join_win_path(path, project).as_str(), "state"));
    result.log = Some(path_join(join_win_path(path, project).as_str(), "logs"));
}

/// Fills the static-data purposes (binaries, config, headers, libraries)
/// from one root; the other purposes keep their values.
fn static_data(result: &mut ProjectDirs, path: &str, project: &Project)
    ensures
        ({
            let ns = win_ns(
                path@,
                project.organization_name_spec(),
                project.application_name_spec(),
            );
            &&& opt_view(final(result).bin) == Some(seq_join(ns, "bin"@))
            &&& opt_view(final(result).config) == Some(seq_join(ns, "config"@))
            &&& opt_view(final(result).inc) == Some(seq_join(ns, hdr_component()))
            &&& opt_view(final(result).lib) == Some(seq_join(ns, "lib"@))
            &&& final(result).data == old(result).data
            &&& final(result).cache == old(result).cache
            &&& final(result).runtime == old(result).runtime
            &&& final(result).state == old(result).state
            &&& final(result).log == old(result).log
            &&& final(result).project_root == old(result).project_root
        }),
{
    let hdr = hdr_component_str();
    result.bin = Some(path_join(join_win_path(path, project).as_str(), "bin"));
    result.config = Some(path_join(join_win_path(path, project).as_str(), "config"));
    result.inc = Some(path_join(join_win_path(path, project).as_str(), hdr.as_str()));
    result.lib = Some(path_join(join_win_path(path, project).as_str(), "lib"));
}

impl Project {
    /// The directories of a machine-wide Windows installation: static
    /// data under the program-files folder, changing data under the
    /// program-data folder.
    pub fn windows_system_with_env(&self, env: WindowsEnv) -> (r: ProjectDirs)
        ensures
            forall|d: Directory|
                #[trigger] r.entry_view(d) == windows_path(
                    opt_view(env.program_files),
                    opt_view(env.program_data),
                    None,
                    self.organization_name_spec(),
                    self.application_name_spec(),
                    d,
                ),
    {
        let mut result = ProjectDirs::empty();
        if let Some(static_data_dir) = &env.program_files {
            static_data(&mut result, static_data_dir.as_str(), self);
        }
        if let Some(changing_data_dir) = &env.program_data {
            changing_data(&mut result, changing_data_dir.as_str(), self);
        }
        result
    }

    /// The directories of a per-user Windows installation: static data
    /// under the roaming folder, changing data under the local folder.
    pub fn windows_user_with_env(&self, env: WindowsEnv) -> (r: ProjectDirs)
        ensures
            forall|d: Directory|
                #[trigger] r.entry_view(d) == windows_path(
                    opt_view(env.roaming_app_data),
                    opt_view(env.local_app_data),
                    None,
                    self.organization_name_spec(),
                    self.application_name_spec(),
                    d,
                ),
    {
        let mut result = ProjectDirs::empty();
        if let Some(static_data_dir) = &env.roaming_app_data {
            static_data(&mut result, static_data_dir.as_str(), self);
        }
        if let Some(changing_data_dir) = &env.local_app_data {
            changing_data(&mut result, changing_data_dir.as_str(), self);
        }
        result
    }

    /// The directories of a per-user Windows installation with nothing
    /// roamed: everything under the local folder, which also becomes the
    /// project root.
    pub fn windows_user_local_with_env(&self, env: WindowsEnv) -> (r: ProjectDirs)
        ensures
            forall|d: Directory|
                #[trigger] r.entry_view(d) == windows_path(
                    opt_view(env.local_app_data),
                    opt_view(env.local_app_data),
                    opt_view(env.local_app_data),
                    self.organization_name_spec(),
                    self.application_name_spec(),
                    d,
                ),
    {
        let mut result = ProjectDirs::empty();
        if let Some(data_dir) = &env.local_app_data {
            changing_data(&mut result, data_dir.as_str(), self);
            static_data(&mut result, data_dir.as_str(), self);
            result.project_root = Some(data_dir.clone());
        }
        result
    }

    /// The directories of a per-user Windows installation with everything
    /// roamed: everything under the roaming folder, which also becomes
    /// the project root.
    pub fn windows_user_shared_with_env(&self, env: WindowsEnv) -> (r: ProjectDirs)
        ensures
            forall|d: Directory|
                #[trigger] r.entry_view(d) == windows_path(
                    opt_view(env.roaming_app_data),
                    opt_view(env.roaming_app_data),
                    opt_view(env.roaming_app_data),
                    self.organization_name_spec(),
                    self.application_name_spec(),
                    d,
                ),
    {
        let mut result = ProjectDirs::empty();
        if let Some(data_dir) = &env.roaming_app_data {
            changing_data(&mut result, data_dir.as_str(), self);
            static_data(&mut result, data_dir.as_str(), self);
            result.project_root = Some(data_dir.clone());
        }
        result
    }
}

} // verus!
