use xrpicker::app_state::{clone_paths, extra_paths, AppState, PersistentAppState};
use xrpicker::linux::{make_platform, LinuxObservations, LinuxPlatform, LinuxRuntime};
use xrpicker::platform::{PlatformApiLayer, PlatformRuntime};
use xrpicker::snapshot::{FileKind, FileProbe, FsSnapshot};
use xrpicker::Error;

fn strings(items: &[&str]) -> Vec<String> {
    items.iter().map(|s| s.to_string()).collect()
}

fn runtime_file(name: &str) -> FileProbe {
    let path = format!("/r/{}.json", name);
    FileProbe {
        path: path.clone(),
        canonical: Some(path),
        kind: Some(FileKind::File),
        contents: Ok(format!(
            r#"{{"file_format_version": "1.0.0", "runtime": {{"name": "{}", "library_path": "lib{}.so"}}}}"#,
            name, name
        )),
    }
}

fn layer_file(name: &str) -> FileProbe {
    let path = format!("/l/{}.json", name);
    FileProbe {
        path: path.clone(),
        canonical: Some(path),
        kind: Some(FileKind::File),
        contents: Ok(format!(
            r#"{{"file_format_version": "1.0.0", "api_layer": {{"name": "{}", "library_path": "lib{}.so"}}}}"#,
            name, name
        )),
    }
}

/// A machine that holds the named runtimes and layers, in that order.
fn machine(runtimes: &[&str], layers: &[&str], active: Option<&str>) -> LinuxPlatform {
    let mut files = FsSnapshot::new();
    for name in runtimes {
        files.record(runtime_file(name));
    }
    for name in layers {
        files.record(layer_file(name));
    }
    let mut config_active_markers = Vec::new();
    if let Some(name) = active {
        files.record(FileProbe {
            path: "/c/openxr/1/active_runtime.json".to_string(),
            canonical: Some(format!("/r/{}.json", name)),
            kind: Some(FileKind::File),
            contents: Ok(String::new()),
        });
        config_active_markers.push("/c/openxr/1/active_runtime.json".to_string());
    }
    let mut platform = make_platform();
    platform.observe(LinuxObservations {
        config_runtime_files: runtimes.iter().map(|n| format!("/r/{}.json", n)).collect(),
        sysconf_runtime_entries: Vec::new(),
        config_active_markers,
        config_layer_files: layers.iter().map(|n| format!("/l/{}.json", n)).collect(),
        sysconf_layer_entries: Vec::new(),
        config_layer_dirs: Vec::new(),
        files,
    });
    platform
}

fn names(runtimes: &[LinuxRuntime]) -> Vec<String> {
    runtimes.iter().map(|r| r.get_runtime_name()).collect()
}

#[test]
fn appending_keeps_the_first_of_equal_paths() {
    let mut state = PersistentAppState { extra_paths: strings(&["/a", "/b"]) };
    state.append_new_extra_paths(strings(&["/b", "/c", "/a", "/c", "/d"]));
    assert_eq!(state.extra_paths, strings(&["/a", "/b", "/c", "/d"]));
}

#[test]
fn appending_nothing_changes_nothing() {
    let mut state = PersistentAppState { extra_paths: strings(&["/a", "/b", "/a"]) };
    state.append_new_extra_paths(Vec::new());
    assert_eq!(state.extra_paths, strings(&["/a", "/b", "/a"]));
}

#[test]
fn appending_cleans_up_what_was_there() {
    let mut state = PersistentAppState { extra_paths: strings(&["/a", "/b", "/a"]) };
    state.append_new_extra_paths(strings(&["/b"]));
    assert_eq!(state.extra_paths, strings(&["/a", "/b"]));
}

#[test]
fn appending_to_nothing() {
    let mut state = PersistentAppState::default();
    assert!(state.extra_paths.is_empty());
    state.append_new_extra_paths(strings(&["/x", "/x"]));
    assert_eq!(state.extra_paths, strings(&["/x"]));
    assert_eq!(state.iterate_extra_paths(), strings(&["/x"]));
}

#[test]
fn the_extra_paths_of_a_pass() {
    let state = PersistentAppState { extra_paths: strings(&["/a", "/b"]) };
    assert_eq!(extra_paths(Some(&state)), strings(&["/a", "/b"]));
    assert!(extra_paths(None).is_empty());
    assert_eq!(clone_paths(&strings(&["/a", "/a"])), strings(&["/a", "/a"]));
}

#[test]
fn a_new_state_holds_what_the_pass_found() {
    let platform = machine(&["A", "B"], &["one"], Some("B"));
    let state = AppState::new(&platform).ok().unwrap();
    assert_eq!(names(&state.runtimes), strings(&["A", "B"]));
    assert_eq!(state.api_layers.len(), 1);
    assert_eq!(state.api_layers[0].get_layer_name(), "one");
    assert!(state.nonfatal_runtime_errors.is_empty());
    assert!(state.nonfatal_api_layer_errors.is_empty());
    assert_eq!(state.active_runtime_data.active_manifest(), Some("/r/B.json"));
}

#[test]
fn a_new_state_without_extra_paths_does_not_look_at_them() {
    let mut platform = machine(&["A"], &[], None);
    let mut observed = LinuxObservations {
        config_runtime_files: platform.observed().config_runtime_files.clone(),
        sysconf_runtime_entries: Vec::new(),
        config_active_markers: Vec::new(),
        config_layer_files: Vec::new(),
        sysconf_layer_entries: Vec::new(),
        config_layer_dirs: Vec::new(),
        files: FsSnapshot::new(),
    };
    observed.files.record(runtime_file("A"));
    observed.files.record(runtime_file("X"));
    observed.files.record(layer_file("Y"));
    platform.observe(observed);
    let state = AppState::new(&platform).ok().unwrap();
    assert_eq!(names(&state.runtimes), strings(&["A"]));

    let kept = PersistentAppState { extra_paths: strings(&["/r/X.json", "/l/Y.json"]) };
    let state = AppState::new_with_persistent_state(&platform, &kept).ok().unwrap();
    assert_eq!(names(&state.runtimes), strings(&["A", "X"]));
    assert_eq!(state.api_layers.len(), 1);
    assert_eq!(state.api_layers[0].get_layer_name(), "Y");
    assert_eq!(
        state.nonfatal_runtime_errors[0].1,
        Error::JsonParseError("missing field library_path".to_string())
    );
    assert_eq!(state.nonfatal_runtime_errors[0].0, "/l/Y.json");
    assert_eq!(state.nonfatal_api_layer_errors[0].0, "/r/X.json");
}

#[test]
fn a_refresh_keeps_the_runtimes_in_their_places() {
    let before = machine(&["A", "B"], &["one"], Some("A"));
    let state = AppState::new(&before).ok().unwrap();
    assert_eq!(names(&state.runtimes), strings(&["A", "B"]));

    let after = machine(&["B", "C"], &["two"], Some("C"));
    let state = state.refresh(&after, None).ok().unwrap();
    assert_eq!(names(&state.runtimes), strings(&["A", "B", "C"]));
    assert_eq!(state.api_layers.len(), 1);
    assert_eq!(state.api_layers[0].get_layer_name(), "two");
    assert_eq!(state.active_runtime_data.active_manifest(), Some("/r/C.json"));
}

#[test]
fn a_refresh_on_the_same_machine_changes_nothing() {
    let platform = machine(&["A", "B", "C"], &[], None);
    let state = AppState::new(&platform).ok().unwrap();
    let state = state.refresh(&platform, None).ok().unwrap();
    assert_eq!(names(&state.runtimes), strings(&["A", "B", "C"]));
    let state = state.refresh(&platform, Some(&PersistentAppState::default())).ok().unwrap();
    assert_eq!(names(&state.runtimes), strings(&["A", "B", "C"]));
}

#[test]
fn a_refresh_takes_new_runtimes_in_the_order_of_the_pass() {
    let state = AppState::new(&machine(&["C"], &[], None)).ok().unwrap();
    let state = state.refresh(&machine(&["B", "C", "A"], &[], None), None).ok().unwrap();
    assert_eq!(names(&state.runtimes), strings(&["C", "B", "A"]));
}

#[test]
fn a_refresh_looks_at_the_extra_paths() {
    let mut platform = machine(&["A"], &[], None);
    let mut observed = LinuxObservations {
        config_runtime_files: strings(&["/r/A.json"]),
        sysconf_runtime_entries: Vec::new(),
        config_active_markers: Vec::new(),
        config_layer_files: Vec::new(),
        sysconf_layer_entries: Vec::new(),
        config_layer_dirs: Vec::new(),
        files: FsSnapshot::new(),
    };
    observed.files.record(runtime_file("A"));
    observed.files.record(runtime_file("X"));
    let state = AppState::new(&platform).ok().unwrap();
    platform.observe(observed);
    let kept = PersistentAppState { extra_paths: strings(&["/r/X.json", "/r/unseen.json"]) };
    let state = state.refresh(&platform, Some(&kept)).ok().unwrap();
    assert_eq!(names(&state.runtimes), strings(&["A", "X"]));
    assert!(state.nonfatal_runtime_errors.is_empty());
}

#[test]
fn a_refresh_reports_the_failures_of_the_new_pass_only() {
    let mut broken = machine(&["A"], &[], None);
    let mut observed = LinuxObservations {
        config_runtime_files: strings(&["/r/A.json", "/r/bad.json"]),
        sysconf_runtime_entries: Vec::new(),
        config_active_markers: Vec::new(),
        config_layer_files: Vec::new(),
        sysconf_layer_entries: Vec::new(),
        config_layer_dirs: Vec::new(),
        files: FsSnapshot::new(),
    };
    observed.files.record(runtime_file("A"));
    observed.files.record(FileProbe {
        path: "/r/bad.json".to_string(),
        canonical: Some("/r/bad.json".to_string()),
        kind: Some(FileKind::File),
        contents: Err(Error::IoError("Permission denied (os error 13)".to_string())),
    });
    broken.observe(observed);
    let state = AppState::new(&broken).ok().unwrap();
    assert_eq!(state.nonfatal_runtime_errors.len(), 1);
    assert_eq!(
        state.nonfatal_runtime_errors[0].1,
        Error::IoError("Permission denied (os error 13)".to_string())
    );
    let state = state.refresh(&machine(&["A"], &[], None), None).ok().unwrap();
    assert!(state.nonfatal_runtime_errors.is_empty());
    assert_eq!(names(&state.runtimes), strings(&["A"]));
}
