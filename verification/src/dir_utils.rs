//! Post-processing of resolved directory sets: filtering by observed
//! filesystem state and remounting under a mountpoint. Each path is
//! classified by one filesystem observation; "does not exist" and
//! "exists but access denied" are distinct, first-class outcomes.

use vstd::prelude::*;

use crate::Directory;
use crate::path_util::mount_seq;
use crate::path_util::mount_path;
use crate::path_util::opt_view;
use crate::proj_dirs::FullProjectDirs;
use crate::proj_dirs::ProjectDirs;

verus! {

/// What one filesystem query of a path reported.
#[derive(Debug, Clone, Copy, PartialEq, Eq, Structural)]
pub enum FsStatus {
    /// The path exists and is a directory
    IsDir,
    /// The path exists and is not a directory
    ExistsNotDir,
    /// The existence check succeeded and reported the path absent
    Absent,
    /// The existence check itself failed, e.g. permission denied
    Denied,
}

/// What an existence check alone reported.
#[derive(Debug, Clone, Copy, PartialEq, Eq, Structural)]
enum Existence {
    Exists,
    Missing,
    Inaccessible,
}

/// The filters a directory set can be narrowed by; each keeps the entries
/// whose path is in one filesystem state.
#[derive(Debug, Clone, Copy, PartialEq, Eq, Structural)]
pub enum Filter {
    /// Keep only paths that are directories on the filesystem
    FsPresent,
    /// Keep only paths whose existence check reports them absent
    FsAbsent,
    /// Keep only paths that exist and are not directories
    FsNotDir,
    /// Keep only paths whose existence check itself fails
    FsDenied,
    /// Keep everything that is not a valid directory; negation of FsPresent
    FsNonValidDir,
}

/// Relies on `std::path::Path::is_dir`: whether the path points to an
/// existing directory. The answer depends on the filesystem, so nothing
/// is promised of it.
#[verifier::external_body]
fn fs_is_dir(p: &str) -> bool {
    std::path::Path::new(p).is_dir()
}

/// Relies on `std::path::Path::try_exists`: whether the path exists,
/// with a failed check kept apart from a negative answer. The answer
/// depends on the filesystem, so nothing is promised of it.
#[verifier::external_body]
fn fs_try_exists(p: &str) -> Existence {
    match std::path::Path::new(p).try_exists() {
        Ok(true) => Existence::Exists,
        Ok(false) => Existence::Missing,
        Err(_) => Existence::Inaccessible,
    }
}

/// Classifies a path by one round of filesystem queries.
fn probe_status(p: &str) -> FsStatus {
    match fs_try_exists(p) {
        Existence::Inaccessible => FsStatus::Denied,
        Existence::Missing => FsStatus::Absent,
        Existence::Exists => if fs_is_dir(p) {
            FsStatus::IsDir
        } else {
            FsStatus::ExistsNotDir
        },
    }
}

/// One filesystem observation per directory purpose.
#[derive(Debug, Clone, Copy)]
pub struct DirStatuses {
    pub bin: FsStatus,
    pub cache: FsStatus,
    pub config: FsStatus,
    pub data: FsStatus,
    pub inc: FsStatus,
    pub lib: FsStatus,
    pub log: FsStatus,
    pub project_root: FsStatus,
    pub runtime: FsStatus,
    pub state: FsStatus,
}

impl DirStatuses {
    /// The observation recorded for a purpose.
    pub open spec fn status_of(self, d: Directory) -> FsStatus {
        match d {
            Directory::Bin => self.bin,
            Directory::Cache => self.cache,
            Directory::Config => self.config,
            Directory::Data => self.data,
            Directory::Include => self.inc,
            Directory::Lib => self.lib,
            Directory::Log => self.log,
            Directory::ProjectRoot => self.project_root,
            Directory::Runtime => self.runtime,
            Directory::State => self.state,
        }
    }
}

/// Whether a filter keeps an entry whose path was observed in the given
/// state.
pub open spec fn keeps(kind: Filter, st: FsStatus) -> bool {
    match kind {
        Filter::FsPresent => st == FsStatus::IsDir,
        Filter::FsAbsent => st == FsStatus::Absent,
        Filter::FsNotDir => st == FsStatus::ExistsNotDir,
        Filter::FsDenied => st == FsStatus::Denied,
        Filter::FsNonValidDir => st != FsStatus::IsDir,
    }
}

/// An entry after filtering: kept as it is, or removed.
pub open spec fn kept_entry(e: Option<String>, keep: bool) -> Option<String> {
    if e is Some && keep {
        e
    } else {
        None
    }
}

/// A directory set filtered against one set of filesystem observations.
pub open spec fn apply_filter_spec(pd: ProjectDirs, kind: Filter, ds: DirStatuses) -> ProjectDirs {
    ProjectDirs {
        bin: kept_entry(pd.bin, keeps(kind, ds.bin)),
        cache: kept_entry(pd.cache, keeps(kind, ds.cache)),
        config: kept_entry(pd.config, keeps(kind, ds.config)),
        data: kept_entry(pd.data, keeps(kind, ds.data)),
        inc: kept_entry(pd.inc, keeps(kind, ds.inc)),
        lib: kept_entry(pd.lib, keeps(kind, ds.lib)),
        log: kept_entry(pd.log, keeps(kind, ds.log)),
        project_root: kept_entry(pd.project_root, keeps(kind, ds.project_root)),
        runtime: kept_entry(pd.runtime, keeps(kind, ds.runtime)),
        state: kept_entry(pd.state, keeps(kind, ds.state)),
    }
}

/// Whether a filter keeps an entry in the given observed state.
fn keeps_exec(kind: Filter, st: FsStatus) -> (r: bool)
    ensures
        r == keeps(kind, st),
{
    match kind {
        Filter::FsPresent => st == FsStatus::IsDir,
        Filter::FsAbsent => st == FsStatus::Absent,
        Filter::FsNotDir => st == FsStatus::ExistsNotDir,
        Filter::FsDenied => st == FsStatus::Denied,
        Filter::FsNonValidDir => !(st == FsStatus::IsDir),
    }
}

/// The entry kept or removed, by value.
fn kept(e: &Option<String>, keep: bool) -> (r: Option<String>)
    ensures
        r == kept_entry(*e, keep),
{
    match e {
        Some(p) => if keep {
            Some(p.clone())
        } else {
            None
        },
        None => None,
    }
}

/// Classifies every present path of the set; an absent entry gets a
/// placeholder observation that no filter ever reads.
fn probe_all(pd: &ProjectDirs) -> DirStatuses {
    DirStatuses {
        bin: probe_opt(&pd.bin),
        cache: probe_opt(&pd.cache),
        config: probe_opt(&pd.config),
        data: probe_opt(&pd.data),
        inc: probe_opt(&pd.inc),
        lib: probe_opt(&pd.lib),
        log: probe_opt(&pd.log),
        project_root: probe_opt(&pd.project_root),
        runtime: probe_opt(&pd.runtime),
        state: probe_opt(&pd.state),
    }
}

/// Classifies a present path; an absent entry is never kept, so its
/// placeholder observation is irrelevant.
fn probe_opt(e: &Option<String>) -> FsStatus {
    match e {
        Some(p) => probe_status(p.as_str()),
        None => FsStatus::Absent,
    }
}

impl ProjectDirs {
    /// The set narrowed by a filter against the given observations.
    pub fn filter_with(&self, kind: Filter, ds: &DirStatuses) -> (r: ProjectDirs)
        ensures
            r == apply_filter_spec(*self, kind, *ds),
    {
        ProjectDirs {
            bin: kept(&self.bin, keeps_exec(kind, ds.bin)),
            cache: kept(&self.cache, keeps_exec(kind, ds.cache)),
            config: kept(&self.config, keeps_exec(kind, ds.config)),
            data: kept(&self.data, keeps_exec(kind, ds.data)),
            inc: kept(&self.inc, keeps_exec(kind, ds.inc)),
            lib: kept(&self.lib, keeps_exec(kind, ds.lib)),
            log: kept(&self.log, keeps_exec(kind, ds.log)),
            project_root: kept(&self.project_root, keeps_exec(kind, ds.project_root)),
            runtime: kept(&self.runtime, keeps_exec(kind, ds.runtime)),
            state: kept(&self.state, keeps_exec(kind, ds.state)),
        }
    }

    /// The set narrowed by a filter against one fresh round of filesystem
    /// observations.
    pub fn filter_fs(&self, kind: Filter) -> (r: ProjectDirs)
        ensures
            exists|ds: DirStatuses| r == apply_filter_spec(*self, kind, ds),
    {
        let ds = probe_all(self);
        let r = self.filter_with(kind, &ds);
        proof {
            assert(r == apply_filter_spec(*self, kind, ds));
        }
        r
    }

    /// Keeps only the entries whose path is a directory on the filesystem.
    pub fn filter_existing_dirs(&self) -> (r: ProjectDirs)
        ensures
            exists|ds: DirStatuses| r == apply_filter_spec(*self, Filter::FsPresent, ds),
    {
        self.filter_fs(Filter::FsPresent)
    }

    /// Keeps only the entries that exist and are not directories, e.g. a
    /// `log` file in the place of the `log` directory.
    pub fn filter_non_dirs(&self) -> (r: ProjectDirs)
        ensures
            exists|ds: DirStatuses| r == apply_filter_spec(*self, Filter::FsNotDir, ds),
    {
        self.filter_fs(Filter::FsNotDir)
    }

    /// Keeps only the entries whose path does not exist.
    pub fn filter_absent(&self) -> (r: ProjectDirs)
        ensures
            exists|ds: DirStatuses| r == apply_filter_spec(*self, Filter::FsAbsent, ds),
    {
        self.filter_fs(Filter::FsAbsent)
    }

    /// Keeps only the entries whose existence check fails, e.g. for lack
    /// of read or execute access.
    pub fn filter_denied(&self) -> (r: ProjectDirs)
        ensures
            exists|ds: DirStatuses| r == apply_filter_spec(*self, Filter::FsDenied, ds),
    {
        self.filter_fs(Filter::FsDenied)
    }

    /// Keeps everything that is not a valid directory; the negation of
    /// [`ProjectDirs::filter_existing_dirs`].
    pub fn filter_non_valid(&self) -> (r: ProjectDirs)
        ensures
            exists|ds: DirStatuses| r == apply_filter_spec(*self, Filter::FsNonValidDir, ds),
    {
        self.filter_fs(Filter::FsNonValidDir)
    }

    /// The set with every path remounted under the mountpoint: the root
    /// component stripped and the remainder joined under it; purposes
    /// unchanged.
    pub fn mounted(self, mountpoint: &str) -> (r: ProjectDirs)
        ensures
            forall|d: Directory|
                #[trigger] r.entry_view(d) == match self.entry_view(d) {
                    Some(p) => Some(mount_seq(mountpoint@, p)),
                    None => None,
                },
    {
        ProjectDirs {
            bin: mount_opt(&self.bin, mountpoint),
            cache: mount_opt(&self.cache, mountpoint),
            config: mount_opt(&self.config, mountpoint),
            data: mount_opt(&self.data, mountpoint),
            inc: mount_opt(&self.inc, mountpoint),
            lib: mount_opt(&self.lib, mountpoint),
            log: mount_opt(&self.log, mountpoint),
            project_root: mount_opt(&self.project_root, mountpoint),
            runtime: mount_opt(&self.runtime, mountpoint),
            state: mount_opt(&self.state, mountpoint),
        }
    }
}

/// An optional path remounted under the mountpoint.
fn mount_opt(e: &Option<String>, mountpoint: &str) -> (r: Option<String>)
    ensures
        opt_view(r) == match opt_view(*e) {
            Some(p) => Some(mount_seq(mountpoint@, p)),
            None => None::<Seq<char>>,
        },
{
    match e {
        Some(p) => Some(mount_path(mountpoint, p.as_str())),
        None => None,
    }
}

impl FullProjectDirs {
    /// The complete set with every path remounted under the mountpoint.
    pub fn mounted(self, mountpoint: &str) -> (r: FullProjectDirs)
        ensures
            forall|d: Directory|
                #[trigger] r.entry_view(d) == match self.entry_view(d) {
                    Some(p) => Some(mount_seq(mountpoint@, p)),
                    None => None,
                },
    {
        FullProjectDirs {
            bin: mount_path(mountpoint, self.bin.as_str()),
            cache: mount_path(mountpoint, self.cache.as_str()),
            config: mount_path(mountpoint, self.config.as_str()),
            data: mount_path(mountpoint, self.data.as_str()),
            inc: mount_path(mountpoint, self.inc.as_str()),
            lib: mount_path(mountpoint, self.lib.as_str()),
            log: mount_path(mountpoint, self.log.as_str()),
            project_root: mount_opt(&self.project_root, mountpoint),
            runtime: mount_opt(&self.runtime, mountpoint),
            state: mount_path(mountpoint, self.state.as_str()),
        }
    }
}

/// A filtered set answers for a purpose with the unfiltered entry when
/// the filter keeps its observed state, and with nothing otherwise.
pub broadcast proof fn lemma_apply_filter_entries(
    pd: ProjectDirs,
    kind: Filter,
    ds: DirStatuses,
    d: Directory,
)
    ensures
        #[trigger] apply_filter_spec(pd, kind, ds).entry_view(d) == (if pd.entry(d) is Some
            && keeps(kind, ds.status_of(d)) {
            pd.entry_view(d)
        } else {
            None
        }),
{
}

/// Law: filtering is idempotent. Narrowing a set twice by the same filter
/// against the same observations yields what one narrowing yields.
pub proof fn lemma_filter_idempotent(pd: ProjectDirs, kind: Filter, ds: DirStatuses)
    ensures
        apply_filter_spec(apply_filter_spec(pd, kind, ds), kind, ds) == apply_filter_spec(
            pd,
            kind,
            ds,
        ),
{
}

/// Relies on `home::home_dir`: the current user's home directory as the
/// environment or OS reports it, or nothing. The answer depends on the
/// process environment, so nothing is promised of it; a non-UTF-8 path
/// counts as unavailable.
#[verifier::external_body]
pub fn home_dir() -> Option<String> {
    home::home_dir().and_then(|p| p.into_os_string().into_string().ok())
}

} // verus!
