use target_test_dir::paths::{
    ancestors_of, executable_candidates, keep_build_dirs, manifest_candidates, shorter_parent,
};

fn texts(items: &[&str]) -> Vec<String> {
    items.iter().map(|s| s.to_string()).collect()
}

fn names(items: &[Option<&str>]) -> Vec<Option<String>> {
    items.iter().map(|n| n.map(|s| s.to_string())).collect()
}

#[test]
fn walk_goes_on_to_a_shorter_parent_only() {
    assert_eq!(shorter_parent("/a/b", Some("/a".to_string())), Some("/a".to_string()));
    assert_eq!(shorter_parent("a", Some(String::new())), Some(String::new()));
    assert_eq!(shorter_parent("/a", Some("/a".to_string())), None);
    assert_eq!(shorter_parent("/a", Some("/a/b".to_string())), None);
    assert_eq!(shorter_parent("/", None), None);
    assert_eq!(shorter_parent("é", Some("ab".to_string())), None);
}

#[test]
fn directories_called_target_are_kept_in_order() {
    let dirs = texts(&["/t/target/x", "/t/target", "/t", "/target", "/"]);
    let found = names(&[Some("x"), Some("target"), Some("t"), Some("target"), None]);
    assert_eq!(keep_build_dirs(dirs, found), vec!["/t/target", "/target"]);
}

#[test]
fn directories_go_by_the_names_found_for_them() {
    let dirs = texts(&["/a/target", "/b"]);
    assert_eq!(keep_build_dirs(dirs.clone(), names(&[Some("a"), Some("target")])), vec!["/b"]);
    assert_eq!(keep_build_dirs(dirs.clone(), names(&[Some("targets"), Some("Target")])), Vec::<String>::new());
    assert_eq!(keep_build_dirs(dirs.clone(), names(&[None, None])), Vec::<String>::new());
    assert_eq!(keep_build_dirs(Vec::new(), names(&[Some("target")])), Vec::<String>::new());
}

#[test]
fn directories_without_a_name_found_are_left_out() {
    let dirs = texts(&["/a/target", "/b/target"]);
    assert_eq!(keep_build_dirs(dirs.clone(), names(&[Some("target")])), vec!["/a/target"]);
    assert_eq!(keep_build_dirs(dirs, Vec::new()), Vec::<String>::new());
}

#[test]
fn ancestors_of_an_absolute_path() {
    assert_eq!(ancestors_of("/a/b/c"), vec!["/a/b/c", "/a/b", "/a", "/"]);
}

#[test]
fn ancestors_of_a_relative_path() {
    assert_eq!(ancestors_of("a/b"), vec!["a/b", "a", ""]);
}

#[test]
fn ancestors_of_the_root_and_of_nothing() {
    assert_eq!(ancestors_of("/"), vec!["/"]);
    assert_eq!(ancestors_of(""), vec![""]);
}

#[test]
fn manifest_candidates_walk_up_to_the_root() {
    assert_eq!(
        manifest_candidates("/work/suite/crates/core"),
        vec![
            "/work/suite/crates/core/target",
            "/work/suite/crates/target",
            "/work/suite/target",
            "/work/target",
            "/target",
        ]
    );
}

#[test]
fn manifest_candidates_of_a_relative_directory() {
    assert_eq!(manifest_candidates("pkg"), vec!["pkg/target", "target"]);
}

#[test]
fn executable_candidates_are_the_ancestors_called_target() {
    assert_eq!(
        executable_candidates("/work/suite/target/debug/deps/basic-0123abcd"),
        vec!["/work/suite/target"]
    );
}

#[test]
fn executable_candidates_keep_the_nearest_first() {
    assert_eq!(
        executable_candidates("/target/x/target/debug/t"),
        vec!["/target/x/target", "/target"]
    );
}

#[test]
fn executable_candidates_may_be_none() {
    assert_eq!(executable_candidates("/usr/bin/t"), Vec::<String>::new());
    assert_eq!(executable_candidates("/work/targets/t"), Vec::<String>::new());
}
