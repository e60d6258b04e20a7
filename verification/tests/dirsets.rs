use project_dirs::Directory;
use project_dirs::FullProjectDirs;
use project_dirs::ProjectDirs;
use project_dirs::path_util::hdr_component_str;

#[test]
fn full_project_dirs_convert() {
    let full_project_dirs_orig = FullProjectDirs {
        cache: "cache".to_string(),
        data: "data".to_string(),
        log: "log".to_string(),
        runtime: Some("runtime".to_string()),
        state: "state".to_string(),
        bin: "bin".to_string(),
        config: "config".to_string(),
        inc: hdr_component_str(),
        lib: "lib".to_string(),
        project_root: Some("project_root".to_string()),
    };

    let project_dirs = ProjectDirs::from_full(full_project_dirs_orig.clone());
    let full_project_dirs = FullProjectDirs::try_from_partial(project_dirs).unwrap();
    assert_eq!(full_project_dirs, full_project_dirs_orig);

    let partial_project_dirs = ProjectDirs::new(vec![
        (Directory::Config, "config".to_string()),
        (Directory::Data, "data".to_string()),
    ]);

    let failed_full_project_dirs = FullProjectDirs::try_from_partial(partial_project_dirs);
    assert!(failed_full_project_dirs.is_err());

    let mut failed_full_project_dirs = failed_full_project_dirs.unwrap_err();
    let mut failed_dirs = vec![
        Directory::Cache,
        Directory::Log,
        Directory::Bin,
        Directory::Lib,
        Directory::State,
    ];
    failed_full_project_dirs.sort();
    failed_dirs.sort();

    assert_eq!(failed_full_project_dirs, failed_dirs);
}

#[test]
fn directories_minor_utils() {
    let pd = ProjectDirs::new(vec![(Directory::Cache, "cache".to_string())]);

    assert_eq!(pd.get(&Directory::Cache).map(|p| p.as_str()), Some("cache"));
    assert!(pd.get(&Directory::Data).is_none());

    let empty = ProjectDirs::empty();
    assert!(empty.get(&Directory::Cache).is_none());
    assert!(empty.get(&Directory::Bin).is_none());
    assert!(empty.get(&Directory::ProjectRoot).is_none());
}

#[test]
fn later_entries_override() {
    let pd = ProjectDirs::new(vec![
        (Directory::Cache, "first".to_string()),
        (Directory::Cache, "second".to_string()),
    ]);
    assert_eq!(pd.get(&Directory::Cache).map(|p| p.as_str()), Some("second"));
}
