//! Convention-correct project directory resolution.
//!
//! Given an application identity (qualifier, organization, application), this
//! library computes the set of filesystem locations (config, cache, data,
//! logs, ...) the application should use, following one of several platform
//! conventions: XDG base directories, the Filesystem Hierarchy Standard,
//! ad-hoc unix-style layouts rooted at a base path, and Windows known-folder
//! layouts. Resolution is a pure function of the identity and an explicitly
//! supplied environment snapshot, so results are reproducible and testable.

pub mod builder;
pub mod dir_utils;
pub mod fhs;
pub mod host;
pub mod path_util;
pub mod unix;
pub mod windows;
pub mod xdg;
pub mod proj_dirs;
pub mod triplet;

pub use proj_dirs::FullProjectDirs;
pub use proj_dirs::MissingError;
pub use proj_dirs::ProjectDirs;

use vstd::prelude::*;

verus! {

use crate::fhs::fhs_path;
use crate::host::HostEnv;
use crate::path_util::opt_view;
use crate::path_util::seq_join;
use crate::triplet::qualifier_norm;
use crate::triplet::unix_norm;
use crate::triplet::windows_norm;
use crate::unix::dotted;
use crate::unix::unix_style_path;
use crate::xdg::XdgEnv;
use crate::xdg::xdg_full_path;

/// Purpose of a resolved directory: the key of every directory mapping.
#[derive(Debug, Clone, Copy, PartialEq, Eq, Structural, Hash, PartialOrd, Ord)]
pub enum Directory {
    /// Binaries directory. This is where the project executable(s) live
    Bin,
    /// Non-essential data, usually used to speed up the application
    Cache,
    /// Configuration files, e.g. a conf.d directory
    Config,
    /// Essential files like db files and cross-session data
    Data,
    /// C/C++ header files
    Include,
    /// Shared library files
    Lib,
    /// Application logs, usually a subdirectory of the state
    Log,
    /// Root directory of the project; meaningful only for some strategies
    ProjectRoot,
    /// Runtime files: like cache, but not persisted across sessions/reboots
    Runtime,
    /// Non-essential data that persists between sessions, e.g. history
    State,
}

/// The project identity: the raw qualifier / organization / application
/// triplet together with the canonical names derived from it once at
/// construction. The raw values are retained so platform-specific name
/// flavors can be derived later regardless of the host platform.
pub struct Project {
    orig_qualifier: String,
    orig_organization: String,
    orig_application: String,
    qualifier_value: String,
    organization_name: String,
    application_name: String,
}

impl Project {
    /// The raw qualifier this identity was built from.
    pub closed spec fn orig_qualifier_spec(self) -> Seq<char> {
        self.orig_qualifier@
    }

    /// The raw organization this identity was built from.
    pub closed spec fn orig_organization_spec(self) -> Seq<char> {
        self.orig_organization@
    }

    /// The raw application this identity was built from.
    pub closed spec fn orig_application_spec(self) -> Seq<char> {
        self.orig_application@
    }

    /// The canonical qualifier.
    pub closed spec fn qualifier_spec(self) -> Seq<char> {
        self.qualifier_value@
    }

    /// The canonical organization name for the host platform.
    pub closed spec fn organization_name_spec(self) -> Seq<char> {
        self.organization_name@
    }

    /// The canonical application name for the host platform.
    pub closed spec fn application_name_spec(self) -> Seq<char> {
        self.application_name@
    }

    pub fn new(qualifier: &str, organization: &str, application: &str) -> (r: Self)
        ensures
            r.orig_qualifier_spec() == qualifier@,
            r.orig_organization_spec() == organization@,
            r.orig_application_spec() == application@,
            r.qualifier_spec() == qualifier_norm(qualifier@),
            r.organization_name_spec() == unix_norm(organization@),
            r.application_name_spec() == unix_norm(application@),
    {
        Project {
            orig_qualifier: String::from_str(qualifier),
            orig_organization: String::from_str(organization),
            orig_application: String::from_str(application),
            qualifier_value: triplet::qualifier_cleanup(qualifier),
            organization_name: triplet::name_cleanup(organization),
            application_name: triplet::name_cleanup(application),
        }
    }

    /// The application name for Unix-family systems (excluding macOS).
    pub fn application_name_unix(&self) -> (r: String)
        ensures
            r@ == unix_norm(self.orig_application_spec()),
    {
        triplet::unix_name_cleanup(self.orig_application.as_str())
    }

    /// The application name for Windows systems.
    pub fn application_name_windows(&self) -> (r: String)
        ensures
            r@ == windows_norm(self.orig_application_spec()),
    {
        triplet::windows_name_cleanup(self.orig_application.as_str())
    }

    /// The application name for macOS.
    pub fn application_name_macos(&self) -> (r: String)
        ensures
            r@ == unix_norm(self.orig_application_spec()),
    {
        triplet::unix_name_cleanup(self.orig_application.as_str())
    }

    /// The organization name for Windows systems.
    pub fn organization_name_windows(&self) -> (r: String)
        ensures
            r@ == windows_norm(self.orig_organization_spec()),
    {
        triplet::windows_name_cleanup(self.orig_organization.as_str())
    }

    /// The organization name calculated for the host platform.
    pub fn organization_name(&self) -> (r: &str)
        ensures
            r@ == self.organization_name_spec(),
    {
        self.organization_name.as_str()
    }

    /// The application name calculated for the host platform.
    pub fn application_name(&self) -> (r: &str)
        ensures
            r@ == self.application_name_spec(),
    {
        self.application_name.as_str()
    }

    /// The qualifier calculated for the host platform.
    pub fn qualifier(&self) -> (r: &str)
        ensures
            r@ == self.qualifier_spec(),
    {
        self.qualifier_value.as_str()
    }
}

/// Project directories gathered by scope: per-user, system-wide, and
/// local to the working directory.
#[derive(Debug)]
pub struct Scoped {
    pub user: ProjectDirs,
    pub system: ProjectDirs,
    pub local: ProjectDirs,
}

/// The per-user scope on this host family: strict XDG resolution from
/// the snapshot, or nothing when the home directory is unknown.
pub open spec fn user_scope_path(host: HostEnv, app: Seq<char>, d: Directory) -> Option<
    Seq<char>,
> {
    let env = XdgEnv::of_host(host);
    if env.home_dir is Some {
        xdg_full_path(env, app, d)
    } else {
        None
    }
}

/// The local scope on this host family: unix-style directories under the
/// working directory with prefix `.`, or nothing when it is unknown.
pub open spec fn local_scope_path(host: HostEnv, app: Seq<char>, d: Directory) -> Option<
    Seq<char>,
> {
    match opt_view(host.current_dir) {
        Some(c) => unix_style_path(seq_join(c, dotted(app)), d),
        None => None,
    }
}

impl Project {
    /// The three canonical directory sets of this host family, from one
    /// environment snapshot: XDG for the user scope, shared FHS for the
    /// system scope, and working-directory unix-style for the local
    /// scope. A scope whose base cannot be resolved comes back empty.
    pub fn project_dirs(&self, host: &HostEnv) -> (r: Scoped)
        ensures
            forall|d: Directory|
                #[trigger] r.user.entry_view(d) == user_scope_path(
                    *host,
                    self.application_name_spec(),
                    d,
                ),
            forall|d: Directory|
                #[trigger] r.system.entry_view(d) == fhs_path(
                    self.application_name_spec(),
                    false,
                    d,
                ),
            forall|d: Directory|
                #[trigger] r.local.entry_view(d) == local_scope_path(
                    *host,
                    self.application_name_spec(),
                    d,
                ),
    {
        proof {
            broadcast use crate::proj_dirs::lemma_partial_of_full_entries;
            broadcast use crate::proj_dirs::lemma_empty_entries;
        }
        let user = match self.xdg_with_env(XdgEnv::new_system(host)) {
            Ok(f) => ProjectDirs::from_full(f),
            Err(_) => ProjectDirs::empty(),
        };
        let system = ProjectDirs::from_full(self.fhs());
        let local = match self.unix_pwd(host) {
            Ok(f) => ProjectDirs::from_full(f),
            Err(_) => ProjectDirs::empty(),
        };
        Scoped { user, system, local }
    }
}

} // verus!
