//! The FHS strategy: fixed absolute roots under `/var`, `/etc`, `/run`
//! and either `/usr` (shared mode) or `/usr/local` (local mode). `Bin`
//! resolves to the root `bin` directory, not a per-application one;
//! every other purpose is namespaced under the application name;
//! `ProjectRoot` is always absent and `Runtime` always present.

use vstd::prelude::*;

use crate::Directory;
use crate::Project;
use crate::path_util::hdr_component;
use crate::path_util::hdr_component_str;
use crate::path_util::path_join;
use crate::path_util::seq_join;
use crate::proj_dirs::FullProjectDirs;

verus! {

/// The FHS path for a purpose: `local` selects the `/usr/local` roots
/// for the purposes whose root differs between the modes.
pub open spec fn fhs_path(app: Seq<char>, local: bool, d: Directory) -> Option<Seq<char>> {
    match d {
        Directory::Cache => Some(seq_join("/var/cache"@, app)),
        Directory::Data => Some(seq_join("/var/lib"@, app)),
        Directory::Log => Some(seq_join("/var/log"@, app)),
        Directory::Runtime => Some(seq_join("/run"@, app)),
        Directory::State => Some(seq_join("/var/lib"@, app)),
        Directory::ProjectRoot => None,
        Directory::Bin => Some(
            if local {
                "/usr/local/bin"@
            } else {
                "/usr/bin"@
            },
        ),
        Directory::Config => Some(
            seq_join(
                if local {
                    "/usr/local/etc"@
                } else {
                    "/etc"@
                },
                app,
            ),
        ),
        Directory::Include => Some(
            seq_join(
                seq_join(
                    if local {
                        "/usr/local"@
                    } else {
                        "/usr"@
                    },
                    hdr_component(),
                ),
                app,
            ),
        ),
        Directory::Lib => Some(
            seq_join(
                if local {
                    "/usr/local/lib"@
                } else {
                    "/usr/lib"@
                },
                app,
            ),
        ),
    }
}

impl Project {
    /// The standard FHS directories, assuming files can be shared across
    /// the system (e.g. over nfs).
    pub fn fhs(&self) -> (r: FullProjectDirs)
        ensures
            forall|d: Directory|
                #[trigger] r.entry_view(d) == fhs_path(self.application_name_spec(), false, d),
    {
        let app = self.application_name();
        let hdr = hdr_component_str();
        FullProjectDirs {
            cache: path_join("/var/cache", app),
            data: path_join("/var/lib", app),
            log: path_join("/var/log", app),
            runtime: Some(path_join("/run", app)),
            state: path_join("/var/lib", app),
            project_root: None,
            bin: String::from_str("/usr/bin"),
            config: path_join("/etc", app),
            inc: path_join(path_join("/usr", hdr.as_str()).as_str(), app),
            lib: path_join("/usr/lib", app),
        }
    }

    /// The FHS directories for files local to this machine, rooted at
    /// `/usr/local` where the modes differ.
    pub fn fhs_local(&self) -> (r: FullProjectDirs)
        ensures
            forall|d: Directory|
                #[trigger] r.entry_view(d) == fhs_path(self.application_name_spec(), true, d),
    {
        let app = self.application_name();
        let hdr = hdr_component_str();
        FullProjectDirs {
            cache: path_join("/var/cache", app),
            data: path_join("/var/lib", app),
            log: path_join("/var/log", app),
            runtime: Some(path_join("/run", app)),
            state: path_join("/var/lib", app),
            project_root: None,
            bin: String::from_str("/usr/local/bin"),
            config: path_join("/usr/local/etc", app),
            inc: path_join(path_join("/usr/local", hdr.as_str()).as_str(), app),
            lib: path_join("/usr/local/lib", app),
        }
    }
}

/// Law: the shared and local FHS modes agree on every namespaced purpose;
/// only the `Bin`, `Config`, `Include` and `Lib` roots differ.
pub proof fn lemma_fhs_shared_local_agree(app: Seq<char>, d: Directory)
    requires
        d != Directory::Bin,
        d != Directory::Config,
        d != Directory::Include,
        d != Directory::Lib,
    ensures
        fhs_path(app, true, d) == fhs_path(app, false, d),
{
}

} // verus!
