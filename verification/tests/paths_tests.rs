use xrpicker::paths::{
    get_extension, get_file_name, get_has_file_name, get_parent, join_paths, set_extension,
};

#[test]
fn file_name_is_what_follows_the_last_separator() {
    assert_eq!(get_file_name("/etc/openxr/1/active_runtime.json"), "active_runtime.json");
    assert_eq!(get_file_name("monado.json"), "monado.json");
    assert_eq!(get_file_name("/etc/openxr/"), "");
    assert_eq!(get_file_name(""), "");
}

#[test]
fn dot_names_are_no_file_names() {
    assert!(get_has_file_name("/a/b.json"));
    assert!(get_has_file_name("..."));
    assert!(!get_has_file_name("/a/"));
    assert!(!get_has_file_name("/a/."));
    assert!(!get_has_file_name("/a/.."));
    assert!(!get_has_file_name(""));
}

#[test]
fn extension_follows_the_last_dot() {
    assert_eq!(get_extension("/a/layer.json"), Some("json".to_string()));
    assert_eq!(get_extension("/a/layer.tar.gz"), Some("gz".to_string()));
    assert_eq!(get_extension("/a/layer.disabled"), Some("disabled".to_string()));
    assert_eq!(get_extension("/a/layer."), Some("".to_string()));
}

#[test]
fn extension_is_missing_without_a_dot_or_with_a_leading_one() {
    assert_eq!(get_extension("/a/layer"), None);
    assert_eq!(get_extension("/a/.hidden"), None);
    assert_eq!(get_extension("/a.d/layer"), None);
    assert_eq!(get_extension("/a/.."), None);
    assert_eq!(get_extension("/a/"), None);
    assert_eq!(get_extension(""), None);
}

#[test]
fn a_hidden_file_can_have_an_extension() {
    assert_eq!(get_extension("/a/.hidden.json"), Some("json".to_string()));
}

#[test]
fn set_extension_replaces_or_adds() {
    assert_eq!(set_extension("/a/layer.json", "disabled"), "/a/layer.disabled");
    assert_eq!(set_extension("/a/layer.disabled", "json"), "/a/layer.json");
    assert_eq!(set_extension("/a/layer", "json"), "/a/layer.json");
    assert_eq!(set_extension("/a/.hidden", "json"), "/a/.hidden.json");
    assert_eq!(set_extension("/a/layer.tar.gz", "json"), "/a/layer.tar.json");
    assert_eq!(set_extension("/a.d/layer", "json"), "/a.d/layer.json");
}

#[test]
fn set_extension_with_nothing_removes_it() {
    assert_eq!(set_extension("/a/layer.json", ""), "/a/layer");
    assert_eq!(set_extension("/a/layer", ""), "/a/layer");
}

#[test]
fn set_extension_leaves_a_path_without_file_name() {
    assert_eq!(set_extension("/a/", "json"), "/a/");
    assert_eq!(set_extension("/a/..", "json"), "/a/..");
    assert_eq!(set_extension("", "json"), "");
}

#[test]
fn parent_is_what_stands_before_the_last_separator() {
    assert_eq!(get_parent("/etc/openxr/1/monado.json"), "/etc/openxr/1");
    assert_eq!(get_parent("/monado.json"), "/");
    assert_eq!(get_parent("monado.json"), "");
    assert_eq!(get_parent("a/b"), "a");
    assert_eq!(get_parent(""), "");
}

#[test]
fn join_puts_one_separator_between() {
    assert_eq!(join_paths("/etc", "openxr/1"), "/etc/openxr/1");
    assert_eq!(join_paths("/etc/", "openxr"), "/etc/openxr");
    assert_eq!(join_paths("", "openxr"), "openxr");
    assert_eq!(join_paths("/etc", ""), "/etc/");
    assert_eq!(join_paths("/", "lib.so"), "/lib.so");
}

#[test]
fn join_with_an_absolute_path_gives_that_path() {
    assert_eq!(join_paths("/etc/openxr/1", "/usr/lib/libmonado.so"), "/usr/lib/libmonado.so");
    assert_eq!(join_paths("", "/usr"), "/usr");
}

#[test]
fn join_keeps_dot_components() {
    assert_eq!(
        join_paths("/etc/openxr/1", "../../lib/libmonado.so"),
        "/etc/openxr/1/../../lib/libmonado.so"
    );
}
