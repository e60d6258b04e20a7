use project_dirs::Project;

const Q: &str = "com";
const O: &str = "my-org Corp";
const A: &str = "funny-bunny v.2137_0";

#[test]
fn project_name_unix() {
    for (orig, expected) in [
        (A, "funny-bunny-v-2137-0"),
        ("my-proj", "my-proj"),
        ("żołądź project", "od-project"),
        ("123-my_proj", "123-my-proj"),
    ] {
        assert_eq!(Project::new(Q, O, orig).application_name_unix(), expected);
    }
}

#[test]
fn project_name_windows() {
    for (orig, expected) in [
        (A, "funny-bunny v.2137_0"),
        ("my-proj", "my-proj"),
        ("żołądź project", "od project"),
        ("123-my_proj", "123-my_proj"),
    ] {
        assert_eq!(Project::new(Q, O, orig).application_name_windows(), expected);
    }
}

#[test]
fn triplet() {
    let q = "123asd_&&-.supoer.comą";
    let project = Project::new(q, O, A);
    assert_eq!(project.qualifier(), "123asd-.supoer.com");

    assert_eq!(project.organization_name(), "my-org-corp");
    assert_eq!(project.organization_name_windows(), O);
    assert_eq!(project.application_name(), "funny-bunny-v-2137-0");
    assert_eq!(project.application_name_macos(), "funny-bunny-v-2137-0");
    assert_eq!(project.application_name_windows(), A);
}

#[test]
fn lib_triplet() {
    let q = "123asd_&&-.supoer.comą";
    let project = Project::new(q, O, A);
    assert_eq!(project.qualifier(), "123asd-.supoer.com");

    // The Windows-flavored names, queryable regardless of the host platform.
    assert_eq!(project.organization_name_windows(), "my-org Corp");
    assert_eq!(project.application_name_windows(), "funny-bunny v.2137_0");
    assert_eq!(project.application_name_macos(), "funny-bunny-v-2137-0");
}

#[test]
fn unix_name_example() {
    assert_eq!(
        project_dirs::triplet::unix_name_cleanup("My Magic Super/App"),
        "my-magic-super-app"
    );
}

#[test]
fn qualifier_lowercases() {
    let project = Project::new("ABC.Def", O, A);
    assert_eq!(project.qualifier(), "abc.def");
}
