use target_test_dir::get_test_dir_name;
use target_test_dir::wrapper::impl_fn_name;

#[test]
fn name_of_nested_module_path() {
    assert_eq!(get_test_dir_name("crate::mod::sub", "my_test"), "crate-mod-sub-my_test");
}

#[test]
fn name_of_crate_root() {
    assert_eq!(get_test_dir_name("crate", "f"), "crate-f");
}

#[test]
fn name_of_two_segments() {
    assert_eq!(get_test_dir_name("a::b", "c"), "a-b-c");
}

#[test]
fn name_is_the_same_on_every_call() {
    let first = get_test_dir_name("suite::io::files", "reads_back");
    let second = get_test_dir_name("suite::io::files", "reads_back");
    assert_eq!(first, second);
    assert_eq!(first, "suite-io-files-reads_back");
}

#[test]
fn name_of_empty_texts() {
    assert_eq!(get_test_dir_name("", ""), "-");
    assert_eq!(get_test_dir_name("", "f"), "-f");
    assert_eq!(get_test_dir_name("m", ""), "m-");
}

#[test]
fn name_keeps_a_lone_colon() {
    assert_eq!(get_test_dir_name("a:b", "f"), "a:b-f");
    assert_eq!(get_test_dir_name(":", "f"), ":-f");
    assert_eq!(get_test_dir_name("a:", "f"), "a:-f");
}

#[test]
fn name_pairs_colons_from_the_left() {
    assert_eq!(get_test_dir_name(":::", "f"), "-:-f");
    assert_eq!(get_test_dir_name("::::", "f"), "---f");
    assert_eq!(get_test_dir_name("a:::b", "f"), "a-:b-f");
    assert_eq!(get_test_dir_name("::a::", "f"), "-a--f");
}

#[test]
fn name_agrees_with_the_replacement_of_std() {
    let paths = ["crate::mod::sub", "", ":", "::", ":::", "a::::b", "x:y::z:", "né::ü", "a-b::c"];
    for modpath in paths {
        let expected = format!("{}-{}", modpath.replace("::", "-"), "t");
        assert_eq!(get_test_dir_name(modpath, "t"), expected);
    }
}

#[test]
fn name_leaves_the_function_name_alone() {
    assert_eq!(get_test_dir_name("m", "a::b"), "m-a::b");
}

#[test]
fn names_of_distinct_identities_differ() {
    let identities = [("a::b", "c"), ("a", "b_c"), ("a::b::c", "d"), ("a", "b"), ("ab", "c")];
    for (i, (m1, f1)) in identities.iter().enumerate() {
        for (j, (m2, f2)) in identities.iter().enumerate() {
            if i != j {
                assert_ne!(get_test_dir_name(m1, f1), get_test_dir_name(m2, f2));
            }
        }
    }
}

#[test]
fn names_with_hyphens_can_collide() {
    assert_eq!(get_test_dir_name("a-b", "c"), get_test_dir_name("a::b", "c"));
    assert_eq!(get_test_dir_name("a", "b-c"), get_test_dir_name("a::b", "c"));
}

#[test]
fn impl_name_has_the_suffix() {
    assert_eq!(impl_fn_name("my_test"), "my_test_impl");
    assert_eq!(impl_fn_name(""), "_impl");
}
