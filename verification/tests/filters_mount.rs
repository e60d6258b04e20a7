use project_dirs::Directory;
use project_dirs::ProjectDirs;

fn two_path_set(present: &str, missing: &str) -> ProjectDirs {
    ProjectDirs::new(vec![
        (Directory::Log, present.to_string()),
        (Directory::Cache, missing.to_string()),
    ])
}

#[test]
fn mount_strips_root() {
    let pd = ProjectDirs::new(vec![(Directory::Log, "/var/log/app".to_string())]);
    let mounted = pd.mounted("/mnt");
    assert_eq!(
        mounted.get(&Directory::Log).map(|p| p.as_str()),
        Some("/mnt/var/log/app")
    );

    let relative = ProjectDirs::new(vec![(Directory::Log, "var/log/app".to_string())]);
    let mounted_rel = relative.mounted("/mnt");
    assert_eq!(
        mounted_rel.get(&Directory::Log).map(|p| p.as_str()),
        Some("/mnt/var/log/app")
    );
}

#[test]
fn mount_strips_doubled_root() {
    // Every leading separator is stripped, so the remainder cannot stay
    // absolute and escape the mountpoint.
    let pd = ProjectDirs::new(vec![(Directory::Log, "//x/app".to_string())]);
    let mounted = pd.mounted("/mnt");
    assert_eq!(
        mounted.get(&Directory::Log).map(|p| p.as_str()),
        Some("/mnt/x/app")
    );
}

#[test]
fn full_set_mounted() {
    let dirs = project_dirs::unix::unix("/proj/.app").mounted("/mnt");
    assert_eq!(dirs.config, "/mnt/proj/.app");
    assert_eq!(dirs.cache, "/mnt/proj/.app/cache");
    assert_eq!(dirs.project_root.as_deref(), Some("/mnt/proj/.app"));
}

#[test]
fn mountpoint_with_trailing_separator() {
    let pd = ProjectDirs::new(vec![(Directory::Log, "/var/log/app".to_string())]);
    let mounted = pd.mounted("/mnt/");
    assert_eq!(
        mounted.get(&Directory::Log).map(|p| p.as_str()),
        Some("/mnt/var/log/app")
    );
}

#[test]
fn filter_existing_keeps_directories() {
    // The root directory exists on every host this runs on; the other
    // path does not.
    let pd = two_path_set("/", "/no-such-path-a5a1f6");
    let filtered = pd.filter_existing_dirs();
    assert_eq!(filtered.get(&Directory::Log).map(|p| p.as_str()), Some("/"));
    assert!(filtered.get(&Directory::Cache).is_none());
}

#[test]
fn filter_absent_keeps_missing() {
    let pd = two_path_set("/", "/no-such-path-a5a1f6");
    let filtered = pd.filter_absent();
    assert!(filtered.get(&Directory::Log).is_none());
    assert_eq!(
        filtered.get(&Directory::Cache).map(|p| p.as_str()),
        Some("/no-such-path-a5a1f6")
    );
}

#[test]
fn filter_non_valid_negates_present() {
    let pd = two_path_set("/", "/no-such-path-a5a1f6");
    let filtered = pd.filter_non_valid();
    assert!(filtered.get(&Directory::Log).is_none());
    assert_eq!(
        filtered.get(&Directory::Cache).map(|p| p.as_str()),
        Some("/no-such-path-a5a1f6")
    );
}

#[test]
fn filter_non_dirs_drops_both() {
    // A directory is not "exists and is not a directory", and a missing
    // path is not either.
    let pd = two_path_set("/", "/no-such-path-a5a1f6");
    let filtered = pd.filter_non_dirs();
    assert!(filtered.get(&Directory::Log).is_none());
    assert!(filtered.get(&Directory::Cache).is_none());
}

#[test]
fn filter_denied_drops_reachable() {
    let pd = two_path_set("/", "/no-such-path-a5a1f6");
    let filtered = pd.filter_denied();
    assert!(filtered.get(&Directory::Log).is_none());
    assert!(filtered.get(&Directory::Cache).is_none());
}

#[test]
fn filter_idempotence() {
    let pd = two_path_set("/", "/no-such-path-a5a1f6");
    let once = pd.filter_existing_dirs();
    let twice = once.filter_existing_dirs();
    assert_eq!(once, twice);
}
