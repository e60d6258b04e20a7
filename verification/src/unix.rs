//! The unix-style strategy: all directories live under one project
//! namespace `base/{prefix}{application-name}`. `Config` and
//! `ProjectRoot` are the namespace itself; the other purposes are fixed
//! subdirectories of it. Three canonical bases exist — the working
//! directory, the home directory and the executable's directory — each
//! with prefix `.`.

use vstd::prelude::*;

use crate::Directory;
use crate::Project;
use crate::host::HostEnv;
use crate::path_util::hdr_component;
use crate::path_util::hdr_component_str;
use crate::path_util::parent_dir;
use crate::path_util::parent_dir_str;
use crate::path_util::path_join;
use crate::path_util::push_str;
use crate::path_util::seq_join;
use crate::proj_dirs::FullProjectDirs;

verus! {

/// Why a canonical base path could not be resolved.
#[derive(Debug, Clone, Copy, PartialEq, Eq, Structural)]
pub enum LookupError {
    /// The working directory is not known to the host snapshot
    CurrentDirUnresolved,
    /// The executable path is not known to the host snapshot
    CurrentExeUnresolved,
}

/// A name with `.` put in front, as used by the canonical bases to keep
/// the project namespace hidden.
pub open spec fn dotted(name: Seq<char>) -> Seq<char> {
    seq!['.'] + name
}

/// The unix-style path for a purpose, under the project namespace `ns`.
pub open spec fn unix_style_path(ns: Seq<char>, d: Directory) -> Option<Seq<char>> {
    match d {
        Directory::Bin => Some(seq_join(ns, "bin"@)),
        Directory::Cache => Some(seq_join(ns, "cache"@)),
        Directory::Config => Some(ns),
        Directory::Data => Some(seq_join(ns, "data"@)),
        Directory::Include => Some(seq_join(ns, hdr_component())),
        Directory::Lib => Some(seq_join(ns, "lib"@)),
        Directory::Log => Some(seq_join(ns, "log"@)),
        Directory::ProjectRoot => Some(ns),
        Directory::Runtime => Some(seq_join(ns, "tmp"@)),
        Directory::State => Some(seq_join(ns, "state"@)),
    }
}

/// The unix-style directories for a given namespace path, independent of
/// any project identity.
pub fn unix(full_project_path: &str) -> (r: FullProjectDirs)
    ensures
        forall|d: Directory| #[trigger] r.entry_view(d) == unix_style_path(full_project_path@, d),
{
    let hdr = hdr_component_str();
    FullProjectDirs {
        cache: path_join(full_project_path, "cache"),
        data: path_join(full_project_path, "data"),
        log: path_join(full_project_path, "log"),
        runtime: Some(path_join(full_project_path, "tmp")),
        state: path_join(full_project_path, "state"),
        bin: path_join(full_project_path, "bin"),
        config: String::from_str(full_project_path),
        inc: path_join(full_project_path, hdr.as_str()),
        lib: path_join(full_project_path, "lib"),
        project_root: Some(String::from_str(full_project_path)),
    }
}

impl Project {
    /// The unix-style directories under `parent_path`, with the namespace
    /// name built from the prefix and the application name.
    pub fn unix_prefixed(&self, parent_path: &str, prefix: &str) -> (r: FullProjectDirs)
        ensures
            forall|d: Directory|
                #[trigger] r.entry_view(d) == unix_style_path(
                    seq_join(parent_path@, prefix@ + self.application_name_spec()),
                    d,
                ),
    {
        let mut project_name = String::from_str(prefix);
        push_str(&mut project_name, self.application_name());
        let full_project_path = path_join(parent_path, project_name.as_str());
        unix(full_project_path.as_str())
    }

    /// The unix-style directories under `parent_path`, the namespace named
    /// after the application with no prefix.
    pub fn unix(&self, parent_path: &str) -> (r: FullProjectDirs)
        ensures
            forall|d: Directory|
                #[trigger] r.entry_view(d) == unix_style_path(
                    seq_join(parent_path@, self.application_name_spec()),
                    d,
                ),
    {
        let r = self.unix_prefixed(parent_path, "");
        proof {
            reveal_strlit("");
            assert(""@ + self.application_name_spec() =~= self.application_name_spec());
        }
        r
    }

    /// The unix-style directories for the working directory recorded in
    /// the host snapshot, with prefix `.`.
    pub fn unix_pwd(&self, host: &HostEnv) -> (r: Result<FullProjectDirs, LookupError>)
        ensures
            r is Ok <==> host.current_dir is Some,
            r is Err ==> r->Err_0 == LookupError::CurrentDirUnresolved,
            r is Ok ==> forall|d: Directory|
                #[trigger] (r->Ok_0).entry_view(d) == unix_style_path(
                    seq_join(host.current_dir->0@, dotted(self.application_name_spec())),
                    d,
                ),
    {
        match &host.current_dir {
            Some(cwd) => {
                let r = self.unix_prefixed(cwd.as_str(), ".");
                proof {
                    reveal_strlit(".");
                    assert("."@ + self.application_name_spec() =~= dotted(
                        self.application_name_spec(),
                    ));
                }
                Ok(r)
            },
            None => Err(LookupError::CurrentDirUnresolved),
        }
    }

    /// The unix-style directories for the home directory recorded in the
    /// host snapshot, with prefix `.`.
    pub fn unix_home(&self, host: &HostEnv) -> (r: Option<FullProjectDirs>)
        ensures
            r is Some <==> host.home_dir is Some,
            r is Some ==> forall|d: Directory|
                #[trigger] (r->0).entry_view(d) == unix_style_path(
                    seq_join(host.home_dir->0@, dotted(self.application_name_spec())),
                    d,
                ),
    {
        match &host.home_dir {
            Some(home) => {
                let r = self.unix_prefixed(home.as_str(), ".");
                proof {
                    reveal_strlit(".");
                    assert("."@ + self.application_name_spec() =~= dotted(
                        self.application_name_spec(),
                    ));
                }
                Some(r)
            },
            None => None,
        }
    }

    /// The unix-style directories for the directory of the executable
    /// path recorded in the host snapshot, with prefix `.`.
    pub fn unix_binary(&self, host: &HostEnv) -> (r: Result<FullProjectDirs, LookupError>)
        ensures
            r is Ok <==> host.current_exe is Some,
            r is Err ==> r->Err_0 == LookupError::CurrentExeUnresolved,
            r is Ok ==> forall|d: Directory|
                #[trigger] (r->Ok_0).entry_view(d) == unix_style_path(
                    seq_join(
                        parent_dir(host.current_exe->0@),
                        dotted(self.application_name_spec()),
                    ),
                    d,
                ),
    {
        match &host.current_exe {
            Some(exe) => {
                let base = parent_dir_str(exe.as_str());
                let r = self.unix_prefixed(base.as_str(), ".");
                proof {
                    reveal_strlit(".");
                    assert("."@ + self.application_name_spec() =~= dotted(
                        self.application_name_spec(),
                    ));
                }
                Ok(r)
            },
            None => Err(LookupError::CurrentExeUnresolved),
        }
    }
}

} // verus!
