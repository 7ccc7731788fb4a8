use xrpicker::path_simplifier::{PathRoot, PathSimplifier};

fn user() -> PathSimplifier {
    PathSimplifier::for_user(
        Some("/home/user".to_string()),
        Some("/home/user/.config".to_string()),
    )
}

#[test]
fn the_more_specific_root_wins() {
    assert_eq!(
        user().simplify("/home/user/.config/openxr/1/active_runtime.json"),
        "$XDG_CONFIG_HOME/openxr/1/active_runtime.json"
    );
    assert_eq!(user().simplify("/home/user/monado/build/rt.json"), "~/monado/build/rt.json");
}

#[test]
fn a_root_itself_is_shortened() {
    assert_eq!(user().simplify("/home/user"), "~");
    assert_eq!(user().simplify("/home/user/.config"), "$XDG_CONFIG_HOME");
}

#[test]
fn other_paths_stay() {
    assert_eq!(user().simplify("/etc/openxr/1/monado.json"), "/etc/openxr/1/monado.json");
    assert_eq!(user().simplify("/home/username/x.json"), "/home/username/x.json");
    assert_eq!(user().simplify("/home/user.json"), "/home/user.json");
    assert_eq!(user().simplify(""), "");
}

#[test]
fn without_roots_nothing_changes() {
    let none = PathSimplifier::for_user(None, None);
    assert_eq!(none.simplify("/home/user/x.json"), "/home/user/x.json");
    let only_home = PathSimplifier::for_user(Some("/home/user".to_string()), None);
    assert_eq!(only_home.simplify("/home/user/.config/x.json"), "~/.config/x.json");
}

#[test]
fn roots_are_tried_in_order() {
    let simplifier = PathSimplifier::new(vec![
        PathRoot { directory: "/a".to_string(), shorthand: "A".to_string() },
        PathRoot { directory: "/a/b".to_string(), shorthand: "B".to_string() },
        PathRoot { directory: "".to_string(), shorthand: "never".to_string() },
    ]);
    assert_eq!(simplifier.simplify("/a/b/c"), "A/b/c");
    assert_eq!(simplifier.simplify("/x"), "/x");
}
