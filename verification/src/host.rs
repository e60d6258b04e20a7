//! The host environment snapshot: everything the resolvers may read from
//! the process environment, observed once by the caller and handed in
//! explicitly. Resolution never reads global state itself, so re-invoking
//! with a changed snapshot observes the change, and tests can substitute
//! fixtures freely.

use vstd::prelude::*;

verus! {

/// One observation of the process environment: the resolved home
/// directory, the working directory and executable path, the XDG base
/// directory variables, and the Windows known-folder roots. A field is
/// `None` where the host could not resolve the value; values are kept
/// verbatim, empty strings included.
#[derive(Debug, Clone)]
pub struct HostEnv {
    /// The resolved home directory
    pub home_dir: Option<String>,
    /// The process working directory
    pub current_dir: Option<String>,
    /// The path of the running executable
    pub current_exe: Option<String>,
    /// The raw `XDG_DATA_HOME` variable
    pub xdg_data_home: Option<String>,
    /// The raw `XDG_CONFIG_HOME` variable
    pub xdg_config_home: Option<String>,
    /// The raw `XDG_STATE_HOME` variable
    pub xdg_state_home: Option<String>,
    /// The raw `XDG_CACHE_HOME` variable
    pub xdg_cache_home: Option<String>,
    /// The raw `XDG_RUNTIME_DIR` variable
    pub xdg_runtime_dir: Option<String>,
    /// The resolved "program files" known folder
    pub program_files: Option<String>,
    /// The resolved "program data" known folder
    pub program_data: Option<String>,
    /// The resolved roaming application-data known folder
    pub roaming_app_data: Option<String>,
    /// The resolved local application-data known folder
    pub local_app_data: Option<String>,
}

impl HostEnv {
    /// The snapshot with nothing resolved.
    pub open spec fn empty_spec() -> HostEnv {
        HostEnv {
            home_dir: None,
            current_dir: None,
            current_exe: None,
            xdg_data_home: None,
            xdg_config_home: None,
            xdg_state_home: None,
            xdg_cache_home: None,
            xdg_runtime_dir: None,
            program_files: None,
            program_data: None,
            roaming_app_data: None,
            local_app_data: None,
        }
    }

    pub fn empty() -> (r: HostEnv)
        ensures
            r == HostEnv::empty_spec(),
    {
        HostEnv {
            home_dir: None,
            current_dir: None,
            current_exe: None,
            xdg_data_home: None,
            xdg_config_home: None,
            xdg_state_home: None,
            xdg_cache_home: None,
            xdg_runtime_dir: None,
            program_files: None,
            program_data: None,
            roaming_app_data: None,
            local_app_data: None,
        }
    }
}

} // verus!
