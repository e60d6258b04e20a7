use project_dirs::Directory;
use project_dirs::builder::Builder;
use project_dirs::builder::CustomEnv;
use project_dirs::builder::Fhs;
use project_dirs::builder::Filter;
use project_dirs::builder::FromBuilderError;
use project_dirs::builder::Spec;
use project_dirs::builder::SpecEntry;
use project_dirs::builder::Strategy;
use project_dirs::host::HostEnv;

const Q: &str = "com";
const O: &str = "my-org Corp";
const A: &str = "funny-bunny v.2137_0";

fn builder_host() -> HostEnv {
    let mut host = HostEnv::empty();
    host.home_dir = Some("/home/bunny".to_string());
    host.current_dir = Some("/work".to_string());
    host
}

fn plain_entry(strategy: Strategy) -> SpecEntry {
    SpecEntry { strategy, directories: Vec::new(), filter: None, mountpoint: None }
}

#[test]
fn builder_system_defaults() {
    let host = builder_host();

    let builder = Builder {
        spec: Spec::SystemDefault,
        qualifier: Q.to_string(),
        organization: O.to_string(),
        application: A.to_string(),
        custom_env: CustomEnv::default(),
    };

    let built = builder.build(&host);

    let builder_splitted = Builder {
        spec: Spec::Custom(vec![
            ("user".to_string(), plain_entry(Strategy::CurrentUser)),
            ("local".to_string(), plain_entry(Strategy::CurrentLocal)),
            ("system".to_string(), plain_entry(Strategy::CurrentSystem)),
        ]),
        qualifier: Q.to_string(),
        organization: O.to_string(),
        application: A.to_string(),
        custom_env: CustomEnv::default(),
    };

    let built_splitted = builder_splitted.build(&host);

    assert_eq!(built.application_name, built_splitted.application_name);
    assert_eq!(built.dirs.len(), 3);
    assert_eq!(built_splitted.dirs.len(), 3);
    for name in ["system", "user", "local"] {
        assert_eq!(built.get(name), built_splitted.get(name));
    }
    assert!(built.get("system").is_some());
    assert!(built.get("user").is_some());
    assert!(built.get("local").is_some());
}

#[test]
fn builder_subset_and_mount() {
    let host = builder_host();
    let entry = SpecEntry {
        strategy: Strategy::Fhs(Some(Fhs::Shared)),
        directories: vec![Directory::Log],
        filter: None,
        mountpoint: Some("/mnt".to_string()),
    };
    let builder = Builder {
        spec: Spec::Custom(vec![("logs-only".to_string(), entry)]),
        qualifier: String::new(),
        organization: String::new(),
        application: "my-magic-super-app".to_string(),
        custom_env: CustomEnv::default(),
    };
    let built = builder.build(&host);
    assert_eq!(built.application_name, "my-magic-super-app");
    let pd = built.get("logs-only").unwrap();
    assert_eq!(
        pd.get(&Directory::Log).map(|p| p.as_str()),
        Some("/mnt/var/log/my-magic-super-app")
    );
    assert!(pd.get(&Directory::Bin).is_none());
    assert!(pd.get(&Directory::Cache).is_none());
}

#[test]
fn builder_filter_drops_missing() {
    let host = builder_host();
    let entry = SpecEntry {
        strategy: Strategy::Fhs(None),
        directories: Vec::new(),
        filter: Some(Filter::FsPresent),
        mountpoint: None,
    };
    let builder = Builder {
        spec: Spec::Custom(vec![("present".to_string(), entry)]),
        qualifier: String::new(),
        organization: String::new(),
        application: "no-such-app-a5a1f6".to_string(),
        custom_env: CustomEnv::default(),
    };
    let built = builder.build(&host);
    let pd = built.get("present").unwrap();
    // The namespaced FHS paths of an unknown application do not exist.
    assert!(pd.get(&Directory::Log).is_none());
    assert!(pd.get(&Directory::Cache).is_none());
}

#[test]
fn builder_xdg_no_fallback() {
    let host = builder_host();
    let entry = plain_entry(Strategy::Xdg);
    let builder = Builder {
        spec: Spec::Custom(vec![("xdg".to_string(), entry)]),
        qualifier: Q.to_string(),
        organization: O.to_string(),
        application: A.to_string(),
        custom_env: CustomEnv {
            env: vec![("XDG_CACHE_HOME".to_string(), Some("/xdg-cache".to_string()))],
            fallback_to_system: false,
            allow_variable_clearing: false,
        },
    };
    let built = builder.build(&host);
    let pd = built.get("xdg").unwrap();
    assert_eq!(
        pd.get(&Directory::Cache).map(|p| p.as_str()),
        Some("/xdg-cache/funny-bunny-v-2137-0")
    );
    assert!(pd.get(&Directory::Config).is_none());
    assert!(pd.get(&Directory::Bin).is_none());
}

#[test]
fn builder_variable_clearing() {
    let host = builder_host();
    let overrides = vec![("HOME".to_string(), None)];

    let cleared = Builder {
        spec: Spec::Custom(vec![("xdg".to_string(), plain_entry(Strategy::Xdg))]),
        qualifier: Q.to_string(),
        organization: O.to_string(),
        application: A.to_string(),
        custom_env: CustomEnv {
            env: overrides.clone(),
            fallback_to_system: true,
            allow_variable_clearing: true,
        },
    };
    // Clearing HOME makes strict resolution fail, so the entry is empty.
    let built = cleared.build(&host);
    assert!(built.get("xdg").unwrap().get(&Directory::Cache).is_none());

    let ignored = Builder {
        spec: Spec::Custom(vec![("xdg".to_string(), plain_entry(Strategy::Xdg))]),
        qualifier: Q.to_string(),
        organization: O.to_string(),
        application: A.to_string(),
        custom_env: CustomEnv {
            env: overrides,
            fallback_to_system: true,
            allow_variable_clearing: false,
        },
    };
    // Without clearing, an absent override is ignored and resolution
    // succeeds from the host snapshot.
    let built = ignored.build(&host);
    assert_eq!(
        built.get("xdg").unwrap().get(&Directory::Cache).map(|p| p.as_str()),
        Some("/home/bunny/.cache/funny-bunny-v-2137-0")
    );
}

#[test]
fn builder_windows_strategy() {
    let host = builder_host();
    let entry = plain_entry(Strategy::Windows(project_dirs::builder::Windows::Local));
    let builder = Builder {
        spec: Spec::Custom(vec![("win".to_string(), entry)]),
        qualifier: Q.to_string(),
        organization: O.to_string(),
        application: A.to_string(),
        custom_env: CustomEnv {
            env: vec![("%LocalAppData%".to_string(), Some("/appdata-local".to_string()))],
            fallback_to_system: true,
            allow_variable_clearing: false,
        },
    };
    let built = builder.build(&host);
    let pd = built.get("win").unwrap();
    assert_eq!(
        pd.get(&Directory::ProjectRoot).map(|p| p.as_str()),
        Some("/appdata-local")
    );
    assert_eq!(
        pd.get(&Directory::Data).map(|p| p.as_str()),
        Some("/appdata-local/my-org-corp/funny-bunny-v-2137-0/data")
    );
}

#[test]
fn builder_unix_binary_strategy() {
    let mut host = builder_host();
    host.current_exe = Some("/proj/target/debug/app".to_string());
    let entry = plain_entry(Strategy::Unix(project_dirs::builder::Unix::Binary));
    let builder = Builder {
        spec: Spec::Custom(vec![("bin".to_string(), entry)]),
        qualifier: Q.to_string(),
        organization: O.to_string(),
        application: A.to_string(),
        custom_env: CustomEnv::default(),
    };
    let built = builder.build(&host);
    let pd = built.get("bin").unwrap();
    assert_eq!(
        pd.get(&Directory::Config).map(|p| p.as_str()),
        Some("/proj/target/debug/.funny-bunny-v-2137-0")
    );
}

#[test]
fn builder_duplicate_names_keep_first() {
    let host = builder_host();
    let builder = Builder {
        spec: Spec::Custom(vec![
            ("twice".to_string(), plain_entry(Strategy::Fhs(None))),
            (
                "twice".to_string(),
                plain_entry(Strategy::Windows(project_dirs::builder::Windows::Standard)),
            ),
        ]),
        qualifier: Q.to_string(),
        organization: O.to_string(),
        application: A.to_string(),
        custom_env: CustomEnv::default(),
    };
    let built = builder.build(&host);
    // Both entries are evaluated and kept in order; a lookup answers
    // with the first. The second (a Windows strategy with no resolved
    // roots) would have been empty.
    assert_eq!(built.dirs.len(), 2);
    assert_eq!(
        built.get("twice").unwrap().get(&Directory::Log).map(|p| p.as_str()),
        Some("/var/log/funny-bunny-v-2137-0")
    );
}

#[test]
fn from_builder_error_codes() {
    assert_eq!(FromBuilderError::NoError.code(), 0);
    assert_eq!(FromBuilderError::NullInput.code(), 1);
    assert_eq!(FromBuilderError::NonStrInput.code(), 2);
    assert_eq!(FromBuilderError::BuilderParsingFailed.code(), 3);
    assert_eq!(FromBuilderError::ResultSerializationFailed.code(), 4);
}
