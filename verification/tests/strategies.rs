use project_dirs::Directory;
use project_dirs::Project;
use project_dirs::host::HostEnv;
use project_dirs::unix::LookupError;
use project_dirs::unix::unix;
use project_dirs::xdg::XdgEnv;
use project_dirs::xdg::XdgError;
use project_dirs::xdg::xdg_config_dirs;
use project_dirs::xdg::xdg_data_dirs;
use project_dirs::ProjectDirs;
use project_dirs::windows::WindowsEnv;

fn strategy_host(
    home: Option<&str>,
    cwd: Option<&str>,
    exe: Option<&str>,
) -> HostEnv {
    let mut host = HostEnv::empty();
    host.home_dir = home.map(|s| s.to_string());
    host.current_dir = cwd.map(|s| s.to_string());
    host.current_exe = exe.map(|s| s.to_string());
    host
}

#[test]
fn fhs_shared_and_local() {
    let project = Project::new("", "", "my-magic-super-app");

    let shared = project.fhs();
    assert_eq!(shared.bin, "/usr/bin");
    assert_eq!(shared.log, "/var/log/my-magic-super-app");
    assert_eq!(shared.cache, "/var/cache/my-magic-super-app");
    assert_eq!(shared.config, "/etc/my-magic-super-app");
    assert_eq!(shared.data, "/var/lib/my-magic-super-app");
    assert_eq!(shared.state, "/var/lib/my-magic-super-app");
    assert_eq!(shared.runtime.as_deref(), Some("/run/my-magic-super-app"));
    assert_eq!(shared.project_root, None);

    let local = project.fhs_local();
    assert_eq!(local.bin, "/usr/local/bin");
    assert_eq!(local.log, "/var/log/my-magic-super-app");
    assert_eq!(local.cache, "/var/cache/my-magic-super-app");
    assert_eq!(local.config, "/usr/local/etc/my-magic-super-app");
    assert_eq!(local.lib, "/usr/local/lib/my-magic-super-app");
}

#[test]
fn unix_style_layout() {
    let dirs = unix("/proj/.app");
    assert_eq!(dirs.cache, "/proj/.app/cache");
    assert_eq!(dirs.data, "/proj/.app/data");
    assert_eq!(dirs.log, "/proj/.app/log");
    assert_eq!(dirs.runtime.as_deref(), Some("/proj/.app/tmp"));
    assert_eq!(dirs.state, "/proj/.app/state");
    assert_eq!(dirs.bin, "/proj/.app/bin");
    assert_eq!(dirs.config, "/proj/.app");
    assert_eq!(dirs.project_root.as_deref(), Some("/proj/.app"));
}

#[test]
fn unix_pwd() {
    let project = Project::new("com", "my-org Corp", "funny-bunny v.2137_0");
    let host = strategy_host(None, Some("/work/here"), None);
    let dirs = project.unix_pwd(&host).unwrap();
    assert_eq!(dirs.config, "/work/here/.funny-bunny-v-2137-0");
    assert_eq!(dirs.cache, "/work/here/.funny-bunny-v-2137-0/cache");

    let no_cwd = strategy_host(None, None, None);
    assert_eq!(
        project.unix_pwd(&no_cwd).unwrap_err(),
        LookupError::CurrentDirUnresolved
    );
}

#[test]
fn unix_home() {
    let project = Project::new("com", "my-org Corp", "funny-bunny v.2137_0");
    let host = strategy_host(Some("/home/bunny"), None, None);
    let dirs = project.unix_home(&host).unwrap();
    assert_eq!(dirs.config, "/home/bunny/.funny-bunny-v-2137-0");
    assert_eq!(dirs.state, "/home/bunny/.funny-bunny-v-2137-0/state");

    assert!(project.unix_home(&strategy_host(None, None, None)).is_none());
}

#[test]
fn unix_binary_in_target_dir() {
    let project = Project::new("com", "my-org Corp", "funny-bunny v.2137_0");
    let exe = "/proj/target/debug/app";
    let host = strategy_host(None, None, Some(exe));
    let dirs = project.unix_binary(&host).unwrap();
    // The base is the executable's directory, not the executable itself.
    assert_eq!(dirs.config, "/proj/target/debug/.funny-bunny-v-2137-0");
    assert_eq!(dirs.cache, "/proj/target/debug/.funny-bunny-v-2137-0/cache");
    let expected_parent = "/proj/target";
    for dir in [
        &dirs.bin, &dirs.cache, &dirs.config, &dirs.data, &dirs.inc, &dirs.lib, &dirs.log,
        &dirs.state,
    ] {
        assert!(
            dir.starts_with(expected_parent),
            "{dir:?} is not in {expected_parent:?}"
        );
    }

    let no_exe = strategy_host(None, None, None);
    assert_eq!(
        project.unix_binary(&no_exe).unwrap_err(),
        LookupError::CurrentExeUnresolved
    );
}

#[test]
fn unix_env_checks() {
    let default_pb = Some("/a/b".to_string());

    let mut env = XdgEnv {
        home_dir: None,
        xdg_data_home: default_pb.clone(),
        xdg_config_home: default_pb.clone(),
        xdg_state_home: default_pb.clone(),
        xdg_cache_home: default_pb.clone(),
        xdg_runtime_dir: None,
    };

    assert!(env.is_ok());

    env.xdg_data_home = None;
    assert!(!env.is_ok());

    env.xdg_runtime_dir = default_pb.clone();
    assert!(!env.is_ok());

    env.home_dir = default_pb;
    assert!(env.is_ok());

    env.xdg_state_home = None;
    env.xdg_cache_home = None;
    env.xdg_config_home = None;
    env.home_dir = None;
    assert!(!env.is_ok());
}

#[test]
fn xdg_strict_failure() {
    let project = Project::new("com", "my-org Corp", "funny-bunny v.2137_0");
    let empty = XdgEnv {
        home_dir: None,
        xdg_data_home: None,
        xdg_config_home: None,
        xdg_state_home: None,
        xdg_cache_home: None,
        xdg_runtime_dir: None,
    };
    assert_eq!(
        project.xdg_with_env(empty).unwrap_err(),
        XdgError::UnresolvedHomeDir
    );
}

#[test]
fn xdg_home_only_defaults() {
    let project = Project::new("com", "my-org Corp", "funny-bunny v.2137_0");
    let env = XdgEnv {
        home_dir: Some("/home/bunny".to_string()),
        xdg_data_home: None,
        xdg_config_home: None,
        xdg_state_home: None,
        xdg_cache_home: None,
        xdg_runtime_dir: None,
    };
    let dirs = project.xdg_with_env(env).unwrap();
    let app = "funny-bunny-v-2137-0";
    assert_eq!(dirs.bin, "/home/bunny/.local/bin");
    assert_eq!(dirs.cache, format!("/home/bunny/.cache/{app}"));
    assert_eq!(dirs.config, format!("/home/bunny/.config/{app}"));
    assert_eq!(dirs.data, format!("/home/bunny/.local/share/{app}"));
    assert_eq!(dirs.state, format!("/home/bunny/.local/state/{app}"));
    assert_eq!(dirs.log, format!("/home/bunny/.local/state/{app}/log"));
    assert_eq!(dirs.lib, format!("/home/bunny/.local/share/{app}/lib"));
    assert_eq!(dirs.runtime, None);
    assert_eq!(dirs.project_root, None);
}

#[test]
fn xdg_variables_win_over_defaults() {
    let project = Project::new("com", "my-org Corp", "funny-bunny v.2137_0");
    let env = XdgEnv {
        home_dir: Some("/home/bunny".to_string()),
        xdg_data_home: Some("/data".to_string()),
        xdg_config_home: None,
        xdg_state_home: None,
        xdg_cache_home: Some("/cachier".to_string()),
        xdg_runtime_dir: Some("/rt".to_string()),
    };
    let app = "funny-bunny-v-2137-0";
    let dirs = project.xdg_with_env(env).unwrap();
    assert_eq!(dirs.data, format!("/data/{app}"));
    assert_eq!(dirs.cache, format!("/cachier/{app}"));
    assert_eq!(dirs.lib, format!("/data/{app}/lib"));
    assert_eq!(dirs.config, format!("/home/bunny/.config/{app}"));
    assert_eq!(dirs.runtime.as_deref(), Some(format!("/rt/{app}").as_str()));
}

#[test]
fn xdg_exclude_missing_mode() {
    let project = Project::new("com", "my-org Corp", "funny-bunny v.2137_0");
    let env = XdgEnv {
        home_dir: None,
        xdg_data_home: Some("/data".to_string()),
        xdg_config_home: None,
        xdg_state_home: None,
        xdg_cache_home: None,
        xdg_runtime_dir: None,
    };
    let app = "funny-bunny-v-2137-0";
    let pd = project.xdg_with_env_exclude_missing(env);
    assert_eq!(
        pd.get(&Directory::Data).map(|p| p.as_str()),
        Some(format!("/data/{app}").as_str())
    );
    assert_eq!(
        pd.get(&Directory::Lib).map(|p| p.as_str()),
        Some(format!("/data/{app}/lib").as_str())
    );
    assert!(pd.get(&Directory::Bin).is_none());
    assert!(pd.get(&Directory::Config).is_none());
    assert!(pd.get(&Directory::Cache).is_none());
}

#[test]
fn xdg_special_dirs() {
    assert_eq!(
        xdg_data_dirs(Some("/a/b:/e/f")),
        vec!["/a/b".to_string(), "/e/f".to_string()]
    );

    assert_eq!(
        xdg_config_dirs(Some("/x/y:/z")),
        vec!["/x/y".to_string(), "/z".to_string()]
    );

    assert_eq!(xdg_config_dirs(None), vec!["/etc/xdg".to_string()]);
    assert_eq!(
        xdg_data_dirs(None),
        vec!["/usr/local/share".to_string(), "/usr/share".to_string()]
    );
}

#[test]
fn unix_systems_project_dirs() {
    let project = Project::new("com", "my-org Corp", "funny-bunny v.2137_0");
    let host = strategy_host(Some("/home/bunny"), Some("/work"), None);

    let dirs = project.project_dirs(&host);
    assert_eq!(dirs.system, ProjectDirs::from_full(project.fhs()));
    assert_eq!(
        dirs.local,
        ProjectDirs::from_full(project.unix_pwd(&host).unwrap())
    );
    assert_eq!(
        dirs.user,
        ProjectDirs::from_full(project.xdg(&host).unwrap())
    );
}

#[test]
fn windows_modes() {
    let project = Project::new("com", "my-org Corp", "funny-bunny v.2137_0");
    let org = "my-org-corp";
    let app = "funny-bunny-v-2137-0";

    let env = WindowsEnv {
        program_files: Some("/pf".to_string()),
        program_data: Some("/pdata".to_string()),
        roaming_app_data: Some("/roam".to_string()),
        local_app_data: Some("/localdata".to_string()),
    };

    let system = project.windows_system_with_env(env.clone());
    assert_eq!(
        system.get(&Directory::Bin).map(|p| p.as_str()),
        Some(format!("/pf/{org}/{app}/bin").as_str())
    );
    assert_eq!(
        system.get(&Directory::Log).map(|p| p.as_str()),
        Some(format!("/pdata/{org}/{app}/logs").as_str())
    );
    assert!(system.get(&Directory::ProjectRoot).is_none());

    let user = project.windows_user_with_env(env.clone());
    assert_eq!(
        user.get(&Directory::Config).map(|p| p.as_str()),
        Some(format!("/roam/{org}/{app}/config").as_str())
    );
    assert_eq!(
        user.get(&Directory::Cache).map(|p| p.as_str()),
        Some(format!("/localdata/{org}/{app}/cache").as_str())
    );

    let local = project.windows_user_local_with_env(env.clone());
    assert_eq!(
        local.get(&Directory::ProjectRoot).map(|p| p.as_str()),
        Some("/localdata")
    );
    assert_eq!(
        local.get(&Directory::Runtime).map(|p| p.as_str()),
        Some(format!("/localdata/{org}/{app}/tmp").as_str())
    );

    let shared = project.windows_user_shared_with_env(env);
    assert_eq!(
        shared.get(&Directory::ProjectRoot).map(|p| p.as_str()),
        Some("/roam")
    );

    let empty = project.windows_user_shared_with_env(WindowsEnv {
        program_files: None,
        program_data: None,
        roaming_app_data: None,
        local_app_data: None,
    });
    assert!(empty.get(&Directory::Data).is_none());
    assert!(empty.get(&Directory::Bin).is_none());
}
