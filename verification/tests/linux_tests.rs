use xrpicker::activation::ActivationRequest;
use xrpicker::discovery::Found;
use xrpicker::linux::{
    find_potential_api_layer_manifests_sysconfdir, find_potential_api_layer_manifests_xdg,
    find_potential_runtime_manifests_sysconfdir, find_potential_runtime_manifests_xdg,
    is_active_runtime_name, make_api_layer_suffix_explicit, make_api_layer_suffix_implicit,
    make_path_suffix, make_platform, make_sysconfdir, possible_active, possible_active_api_layers,
    possible_active_runtimes, resolve_candidates, LinuxActiveRuntimeData, LinuxApiLayer,
    LinuxObservations, LinuxPlatform, LinuxRuntime,
};
use xrpicker::manifest::{Manifest, ManifestKind};
use xrpicker::path_simplifier::PathSimplifier;
use xrpicker::platform::{Platform, PlatformApiLayer, PlatformRuntime};
use xrpicker::snapshot::{DirEntry, FileKind, FileProbe, FsSnapshot};
use xrpicker::{ActiveState, Error, ManifestError};

fn runtime_text(library: &str) -> String {
    format!(
        r#"{{"file_format_version": "1.0.0", "runtime": {{"library_path": "{}"}}}}"#,
        library
    )
}

fn layer_text(name: &str) -> String {
    format!(
        r#"{{"file_format_version": "1.0.0", "api_layer": {{"name": "{}", "library_path": "lib{}.so"}}}}"#,
        name, name
    )
}

fn file(path: &str, canonical: &str, text: &str) -> FileProbe {
    FileProbe {
        path: path.to_string(),
        canonical: Some(canonical.to_string()),
        kind: Some(FileKind::File),
        contents: Ok(text.to_string()),
    }
}

fn dir(path: &str) -> FileProbe {
    FileProbe {
        path: path.to_string(),
        canonical: Some(path.to_string()),
        kind: Some(FileKind::Directory),
        contents: Err(Error::IoError("Is a directory (os error 21)".to_string())),
    }
}

fn missing(path: &str) -> FileProbe {
    FileProbe {
        path: path.to_string(),
        canonical: None,
        kind: None,
        contents: Err(Error::IoError("No such file or directory (os error 2)".to_string())),
    }
}

fn entry(path: &str, kind: FileKind) -> DirEntry {
    DirEntry { path: path.to_string(), kind }
}

fn strings(items: &[&str]) -> Vec<String> {
    items.iter().map(|s| s.to_string()).collect()
}

fn nothing() -> LinuxObservations {
    LinuxObservations {
        config_runtime_files: Vec::new(),
        sysconf_runtime_entries: Vec::new(),
        config_active_markers: Vec::new(),
        config_layer_files: Vec::new(),
        sysconf_layer_entries: Vec::new(),
        config_layer_dirs: Vec::new(),
        files: FsSnapshot::new(),
    }
}

fn platform(observed: LinuxObservations) -> LinuxPlatform {
    let mut platform = make_platform();
    platform.observe(observed);
    platform
}

fn origins(runtimes: &[LinuxRuntime]) -> Vec<String> {
    runtimes.iter().map(|r| r.orig_path().to_string()).collect()
}

fn found(orig: &str, canonical: &str, kind: ManifestKind, name: Option<&str>) -> Found {
    Found {
        orig_path: orig.to_string(),
        manifest_path: canonical.to_string(),
        manifest: Manifest::from_fields(
            kind,
            Some("1.0.0".to_string()),
            Some("libx.so".to_string()),
            name.map(|n| n.to_string()),
        )
        .unwrap(),
    }
}

fn layer(orig: &str) -> LinuxApiLayer {
    LinuxApiLayer::from_found(found(orig, "/real/layer.json", ManifestKind::ApiLayer, Some("L")))
}

#[test]
fn where_manifests_lie() {
    assert_eq!(make_path_suffix(), "openxr/1");
    assert_eq!(make_sysconfdir("openxr/1"), "/etc/openxr/1");
    assert_eq!(make_api_layer_suffix_implicit("openxr/1"), "/api_layers/implicit.d");
    assert_eq!(make_api_layer_suffix_explicit("openxr/1"), "/api_layers/explicit.d");
}

#[test]
fn the_scan_plan_names_the_places() {
    let plan = make_platform().scan_plan();
    assert_eq!(plan.config_runtime_dir, "openxr/1");
    assert_eq!(plan.sysconf_runtime_dir, "/etc/openxr/1");
    assert_eq!(plan.config_active_marker, "openxr/1/active_runtime.json");
    assert_eq!(plan.sysconf_active_marker, "/etc/openxr/1/active_runtime.json");
    assert_eq!(plan.config_layer_dir, "/api_layers/implicit.d");
    assert_eq!(plan.sysconf_layer_dir, "/api_layers/implicit.d");
}

#[test]
fn the_marker_is_told_by_its_name() {
    assert!(is_active_runtime_name("/etc/openxr/1/active_runtime.json"));
    assert!(is_active_runtime_name("active_runtime.json"));
    assert!(!is_active_runtime_name("/etc/openxr/1/old_active_runtime5.json"));
    assert!(!is_active_runtime_name("/etc/openxr/1/active_runtime.json.bak"));
    assert!(!is_active_runtime_name("/etc/openxr/1/active_runtime.json/"));
    assert!(!is_active_runtime_name(""));
}

#[test]
fn the_marker_is_no_runtime_manifest() {
    let listed = strings(&[
        "/home/u/.config/openxr/1/active_runtime.json",
        "/home/u/.config/openxr/1/monado.json",
        "/etc/xdg/openxr/1/steam.json",
    ]);
    assert_eq!(
        find_potential_runtime_manifests_xdg(&listed),
        strings(&["/home/u/.config/openxr/1/monado.json", "/etc/xdg/openxr/1/steam.json"])
    );
    assert_eq!(find_potential_api_layer_manifests_xdg(&listed), listed);
}

#[test]
fn the_system_directory_gives_files_and_links() {
    let entries = vec![
        entry("/etc/openxr/1/active_runtime.json", FileKind::Symlink),
        entry("/etc/openxr/1/monado.json", FileKind::File),
        entry("/etc/openxr/1/link.json", FileKind::Symlink),
        entry("/etc/openxr/1/sub", FileKind::Directory),
        entry("/etc/openxr/1/socket", FileKind::Other),
    ];
    assert_eq!(
        find_potential_runtime_manifests_sysconfdir(&entries),
        strings(&["/etc/openxr/1/monado.json", "/etc/openxr/1/link.json"])
    );
    assert_eq!(
        find_potential_api_layer_manifests_sysconfdir(&entries),
        strings(&["/etc/openxr/1/monado.json"])
    );
}

#[test]
fn markers_are_taken_weightiest_first_and_resolved() {
    let mut files = FsSnapshot::new();
    files.record(file("/etc/xdg/openxr/1/active_runtime.json", "/usr/share/steam.json", ""));
    files.record(file("/home/u/.config/openxr/1/active_runtime.json", "/usr/share/monado.json", ""));
    files.record(file("/etc/openxr/1/active_runtime.json", "/usr/share/system.json", ""));
    let config_found = strings(&[
        "/etc/xdg/openxr/1/active_runtime.json",
        "/home/u/.config/openxr/1/active_runtime.json",
    ]);
    assert_eq!(
        possible_active(&config_found, "/etc/openxr/1/active_runtime.json".to_string(), &files),
        strings(&["/usr/share/monado.json", "/usr/share/steam.json", "/usr/share/system.json"])
    );
}

#[test]
fn markers_that_lead_to_no_file_are_left_out() {
    let mut files = FsSnapshot::new();
    files.record(dir("/a/active_runtime.json"));
    files.record(missing("/b/active_runtime.json"));
    files.record(FileProbe {
        path: "/c/active_runtime.json".to_string(),
        canonical: None,
        kind: Some(FileKind::File),
        contents: Ok(String::new()),
    });
    files.record(file("/etc/openxr/1/active_runtime.json", "/usr/share/system.json", ""));
    let config_found = strings(&[
        "/a/active_runtime.json",
        "/b/active_runtime.json",
        "/c/active_runtime.json",
        "/not/looked/at",
    ]);
    assert_eq!(
        possible_active(&config_found, "/etc/openxr/1/active_runtime.json".to_string(), &files),
        strings(&["/usr/share/system.json"])
    );
    assert!(possible_active(&config_found, "/nowhere".to_string(), &files).is_empty());
}

#[test]
fn the_first_probe_of_a_path_counts() {
    let mut files = FsSnapshot::new();
    files.record(file("/a.json", "/first.json", "1"));
    files.record(file("/a.json", "/second.json", "2"));
    assert_eq!(files.canonical("/a.json"), Some("/first.json".to_string()));
    assert_eq!(files.find("/a.json").unwrap().contents, Ok("1".to_string()));
    assert!(files.is_file("/a.json"));
    assert_eq!(files.canonical("/b.json"), None);
    assert!(files.find("/b.json").is_none());
    assert!(!files.is_file("/b.json"));
}

#[test]
fn paths_that_lead_nowhere_make_no_candidate() {
    let mut files = FsSnapshot::new();
    files.record(missing("/stale.json"));
    files.record(file("/link.json", "/real.json", &runtime_text("a.so")));
    files.record(file("/broken.json", "/broken.json", "{"));
    let paths = strings(&["/stale.json", "/unseen.json", "/link.json", "/broken.json"]);
    let candidates = resolve_candidates(ManifestKind::Runtime, &files, &paths);
    assert_eq!(candidates.len(), 2);
    assert_eq!(candidates[0].orig_path, "/link.json");
    assert_eq!(candidates[0].canonical_path, "/real.json");
    assert_eq!(candidates[0].loaded.as_ref().unwrap().library_path(), "a.so");
    assert_eq!(candidates[1].orig_path, "/broken.json");
    assert!(matches!(candidates[1].loaded, Err(Error::JsonParseError(_))));
}

#[test]
fn a_pass_on_nothing_finds_nothing() {
    let platform = make_platform();
    let (runtimes, errors) = platform.find_available_runtimes(&Vec::new()).unwrap();
    assert!(runtimes.is_empty());
    assert!(errors.is_empty());
    let (layers, errors) = platform.find_available_api_layers(&Vec::new()).unwrap();
    assert!(layers.is_empty());
    assert!(errors.is_empty());
    assert!(platform.get_active_runtime_manifests().is_empty());
    assert!(platform.get_active_api_layer_manifests().is_empty());
    assert_eq!(platform.get_active_runtime_data().active_manifest(), None);
    assert_eq!(platform.observed(), &nothing());
}

/// A user override and a system manifest that lead to one file, a broken
/// manifest, a marker that names a runtime found nowhere else, and an extra
/// path.
fn machine() -> LinuxObservations {
    let monado = runtime_text("../../lib/libmonado.so");
    let mut files = FsSnapshot::new();
    files.record(file("/home/u/.config/openxr/1/openxr_monado.json", "/usr/share/openxr/1/openxr_monado.json", &monado));
    files.record(file("/etc/openxr/1/openxr_monado.json", "/usr/share/openxr/1/openxr_monado.json", &monado));
    files.record(file("/etc/openxr/1/broken.json", "/etc/openxr/1/broken.json", "{ not json"));
    files.record(file("/etc/openxr/1/old.json", "/etc/openxr/1/old.json",
        r#"{"file_format_version": "2.0.0", "runtime": {"library_path": "x.so"}}"#));
    files.record(file("/home/u/.config/openxr/1/active_runtime.json", "/opt/steam/steamxr.json", "ignored"));
    files.record(file("/opt/steam/steamxr.json", "/opt/steam/steamxr.json",
        &runtime_text("/opt/steam/bin/vrclient.so")));
    files.record(file("/home/u/dev/wivrn.json", "/home/u/dev/wivrn.json",
        &runtime_text("/home/u/dev/libopenxr_wivrn.so")));
    files.record(missing("/home/u/dev/gone.json"));
    files.record(file("/usr/share/openxr/1/../../lib/libmonado.so", "/usr/lib/libmonado.so", ""));
    LinuxObservations {
        config_runtime_files: strings(&[
            "/home/u/.config/openxr/1/active_runtime.json",
            "/home/u/.config/openxr/1/openxr_monado.json",
        ]),
        sysconf_runtime_entries: vec![
            entry("/etc/openxr/1/openxr_monado.json", FileKind::File),
            entry("/etc/openxr/1/broken.json", FileKind::File),
            entry("/etc/openxr/1/old.json", FileKind::Symlink),
            entry("/etc/openxr/1/subdir", FileKind::Directory),
        ],
        config_active_markers: strings(&["/home/u/.config/openxr/1/active_runtime.json"]),
        config_layer_files: Vec::new(),
        sysconf_layer_entries: Vec::new(),
        config_layer_dirs: Vec::new(),
        files,
    }
}

#[test]
fn a_pass_takes_the_user_first_then_the_system_then_what_is_active_then_extra_paths() {
    let platform = platform(machine());
    let extra = strings(&["/home/u/dev/wivrn.json", "/home/u/dev/gone.json"]);
    let (runtimes, errors) = platform.find_available_runtimes(&extra).unwrap();
    assert_eq!(
        origins(&runtimes),
        strings(&[
            "/home/u/.config/openxr/1/openxr_monado.json",
            "/opt/steam/steamxr.json",
            "/home/u/dev/wivrn.json",
        ])
    );
    let names: Vec<String> = runtimes.iter().map(|r| r.get_runtime_name()).collect();
    assert_eq!(names, strings(&["Monado", "SteamVR", "WiVRn"]));
    assert_eq!(errors.len(), 2);
    assert_eq!(errors[0].0, "/etc/openxr/1/broken.json");
    assert!(matches!(errors[0].1, Error::JsonParseError(_)));
    assert_eq!(
        errors[1],
        ManifestError("/etc/openxr/1/old.json".to_string(), Error::ManifestVersionMismatch)
    );
}

#[test]
fn two_paths_to_one_manifest_make_one_runtime_named_by_its_library() {
    let platform = platform(machine());
    let (runtimes, _) = platform.find_available_runtimes(&Vec::new()).unwrap();
    let monado: Vec<&LinuxRuntime> = runtimes
        .iter()
        .filter(|r| r.get_manifests() == strings(&["/usr/share/openxr/1/openxr_monado.json"]))
        .collect();
    assert_eq!(monado.len(), 1);
    assert_eq!(monado[0].orig_path(), "/home/u/.config/openxr/1/openxr_monado.json");
    assert_eq!(monado[0].get_runtime_name(), "Monado");
    assert_eq!(monado[0].base().library_path(), "../../lib/libmonado.so");
}

#[test]
fn the_active_runtime_is_the_one_the_marker_leads_to() {
    let platform = platform(machine());
    let (runtimes, _) = platform.find_available_runtimes(&Vec::new()).unwrap();
    let active = platform.get_active_runtime_data();
    assert_eq!(active.active_manifest(), Some("/opt/steam/steamxr.json"));
    assert_eq!(platform.get_active_runtime_manifests(), strings(&["/opt/steam/steamxr.json"]));
    let states: Vec<ActiveState> =
        runtimes.iter().map(|r| platform.get_runtime_active_state(r, &active)).collect();
    assert_eq!(states, vec![ActiveState::NotActive, ActiveState::ActiveIndependentRuntime]);
    assert_eq!(possible_active_runtimes(platform.observed()), strings(&["/opt/steam/steamxr.json"]));
}

#[test]
fn without_a_marker_no_runtime_is_active() {
    let none = LinuxActiveRuntimeData::new(&Vec::new());
    let rt = LinuxRuntime::from_found(found("/a.json", "/a.json", ManifestKind::Runtime, None));
    assert_eq!(none.check_runtime(&rt), ActiveState::NotActive);
    let other = LinuxActiveRuntimeData::new(&strings(&["/b.json", "/a.json"]));
    assert_eq!(other.active_manifest(), Some("/b.json"));
    assert_eq!(other.check_runtime(&rt), ActiveState::NotActive);
    let this = LinuxActiveRuntimeData::new(&strings(&["/a.json"]));
    assert_eq!(this.check_runtime(&rt), ActiveState::ActiveIndependentRuntime);
}

#[test]
fn the_active_state_goes_by_the_manifest_not_by_where_it_was_found() {
    let rt = LinuxRuntime::from_found(found("/link.json", "/real.json", ManifestKind::Runtime, None));
    let by_link = LinuxActiveRuntimeData::new(&strings(&["/link.json"]));
    assert_eq!(by_link.check_runtime(&rt), ActiveState::NotActive);
    let by_target = LinuxActiveRuntimeData::new(&strings(&["/real.json"]));
    assert_eq!(by_target.check_runtime(&rt), ActiveState::ActiveIndependentRuntime);
}

#[test]
fn a_runtime_knows_its_manifests_and_libraries() {
    let platform = platform(machine());
    let (runtimes, _) = platform.find_available_runtimes(&Vec::new()).unwrap();
    let files = &platform.observed().files;
    assert_eq!(runtimes[0].get_manifests(), strings(&["/usr/share/openxr/1/openxr_monado.json"]));
    assert_eq!(runtimes[0].get_libraries(files), strings(&["/usr/lib/libmonado.so"]));
    assert_eq!(runtimes[1].get_libraries(files), strings(&["/opt/steam/bin/vrclient.so"]));
    assert_eq!(
        runtimes[0].get_libraries(&FsSnapshot::new()),
        strings(&["/usr/share/openxr/1/../../lib/libmonado.so"])
    );
}

#[test]
fn a_runtime_found_under_another_path_says_so() {
    let platform = platform(machine());
    let (runtimes, _) = platform.find_available_runtimes(&Vec::new()).unwrap();
    let simplifier = PathSimplifier::for_user(
        Some("/home/u".to_string()),
        Some("/home/u/.config".to_string()),
    );
    assert_eq!(
        runtimes[0].describe(&simplifier),
        "$XDG_CONFIG_HOME/openxr/1/openxr_monado.json → /usr/share/openxr/1/openxr_monado.json → ../../lib/libmonado.so"
    );
    assert_eq!(
        runtimes[1].describe(&simplifier),
        "/opt/steam/steamxr.json → /opt/steam/bin/vrclient.so"
    );
}

#[test]
fn new_loads_an_entity_from_what_reading_gave() {
    let rt = LinuxRuntime::new("/link.json", "/real.json", &Ok(runtime_text("lib.so"))).unwrap();
    assert_eq!(rt.orig_path(), "/link.json");
    assert_eq!(rt.base().get_manifest_path(), "/real.json");
    assert_eq!(
        LinuxRuntime::new("/a", "/a", &Err(Error::IoError("denied".to_string()))),
        Err(Error::IoError("denied".to_string()))
    );
    let l = LinuxApiLayer::new("/l.json", "/l.json", &Ok(layer_text("one"))).unwrap();
    assert_eq!(l.get_layer_name(), "one");
    assert_eq!(l.base().get_manifest_path(), "/l.json");
    assert_eq!(
        LinuxApiLayer::new("/l.json", "/l.json", &Ok(runtime_text("lib.so"))),
        Err(Error::JsonParseError("missing field library_path".to_string()))
    );
}

#[test]
fn making_a_runtime_active_begins_with_the_base_directories() {
    let rt = LinuxRuntime::from_found(found("/link.json", "/real.json", ManifestKind::Runtime, None));
    let (state, request) = rt.make_active(42);
    assert_eq!(request, ActivationRequest::OpenBaseDirectories);
    assert!(!state.is_finished());
    let (state, _) = state.step(xrpicker::activation::ActivationEvent::BaseDirectories(Ok(())));
    let (state, _) = state.step(xrpicker::activation::ActivationEvent::Placed {
        path: "/c/openxr/1/active_runtime.json".to_string(),
        created: Ok(()),
    });
    let (_, request) = state.step(xrpicker::activation::ActivationEvent::Renamed(Err(
        Error::IoError("nothing".to_string()),
    )));
    assert_eq!(
        request,
        ActivationRequest::Symlink {
            target: "/real.json".to_string(),
            link: "/c/openxr/1/active_runtime.json".to_string()
        }
    );
}

fn layers_machine() -> LinuxObservations {
    let mut files = FsSnapshot::new();
    files.record(file("/home/u/.config/api_layers/implicit.d/one.json", "/home/u/.config/api_layers/implicit.d/one.json", &layer_text("one")));
    files.record(file("/home/u/.config/api_layers/implicit.d/two.disabled", "/home/u/.config/api_layers/implicit.d/two.disabled", &layer_text("two")));
    files.record(file("/api_layers/implicit.d/one.json", "/home/u/.config/api_layers/implicit.d/one.json", &layer_text("one")));
    files.record(file("/api_layers/implicit.d/three.json", "/api_layers/implicit.d/three.json", &layer_text("three")));
    files.record(file("/api_layers/implicit.d/bad.json", "/api_layers/implicit.d/bad.json", "[]"));
    files.record(file("/extra/four.json", "/extra/four.json", &layer_text("four")));
    LinuxObservations {
        config_runtime_files: Vec::new(),
        sysconf_runtime_entries: Vec::new(),
        config_active_markers: Vec::new(),
        config_layer_files: strings(&[
            "/home/u/.config/api_layers/implicit.d/one.json",
            "/home/u/.config/api_layers/implicit.d/two.disabled",
        ]),
        sysconf_layer_entries: vec![
            entry("/api_layers/implicit.d/one.json", FileKind::File),
            entry("/api_layers/implicit.d/link.json", FileKind::Symlink),
            entry("/api_layers/implicit.d/three.json", FileKind::File),
            entry("/api_layers/implicit.d/bad.json", FileKind::File),
        ],
        config_layer_dirs: Vec::new(),
        files,
    }
}

#[test]
fn a_pass_finds_api_layers() {
    let platform = platform(layers_machine());
    let (layers, errors) =
        platform.find_available_api_layers(&strings(&["/extra/four.json"])).unwrap();
    let names: Vec<String> = layers.iter().map(|l| l.get_layer_name()).collect();
    assert_eq!(names, strings(&["one", "two", "three", "four"]));
    assert_eq!(layers[0].orig_path(), "/home/u/.config/api_layers/implicit.d/one.json");
    assert_eq!(
        errors,
        vec![ManifestError(
            "/api_layers/implicit.d/bad.json".to_string(),
            Error::JsonParseError("missing field file_format_version".to_string())
        )]
    );
    let states: Vec<ActiveState> =
        layers.iter().map(|l| platform.get_api_layer_active_state(l)).collect();
    assert_eq!(
        states,
        vec![
            ActiveState::ActiveIndependentApiLayer,
            ActiveState::NotActive,
            ActiveState::ActiveIndependentApiLayer,
            ActiveState::ActiveIndependentApiLayer,
        ]
    );
    assert_eq!(layers[0].get_manifests(), strings(&["/home/u/.config/api_layers/implicit.d/one.json"]));
    assert_eq!(
        layers[0].get_libraries(&platform.observed().files),
        strings(&["/home/u/.config/api_layers/implicit.d/libone.so"])
    );
    assert_eq!(
        layers[3].describe(&PathSimplifier::new(Vec::new())),
        "/extra/four.json → libfour.so in the dynamic library search path"
    );
}

#[test]
fn active_api_layer_manifests_bear_an_extension_that_is_not_disabled() {
    let mut files = FsSnapshot::new();
    files.record(file("/a/implicit.d", "/a/implicit.d", ""));
    files.record(file("/b/layer.json", "/b/layer.json", ""));
    files.record(file("/c/layer.disabled", "/c/layer.disabled", ""));
    files.record(file("/api_layers/implicit.d", "/api_layers/implicit.d", ""));
    let mut observed = nothing();
    observed.config_layer_dirs = strings(&["/c/layer.disabled", "/b/layer.json", "/a/implicit.d"]);
    observed.files = files;
    assert_eq!(
        possible_active_api_layers(&observed),
        strings(&["/a/implicit.d", "/b/layer.json", "/c/layer.disabled", "/api_layers/implicit.d"])
    );
    let platform = platform(observed);
    assert_eq!(
        platform.get_active_api_layer_manifests(),
        strings(&["/a/implicit.d", "/b/layer.json", "/api_layers/implicit.d"])
    );
}

#[test]
fn a_layer_is_active_unless_its_manifest_is_disabled() {
    assert_eq!(layer("/l/x.json").is_active(), Ok(ActiveState::ActiveIndependentApiLayer));
    assert_eq!(layer("/l/x.disabled").is_active(), Ok(ActiveState::NotActive));
    assert_eq!(layer("/l/x.txt").is_active(), Ok(ActiveState::ActiveIndependentApiLayer));
    assert_eq!(layer("/l/x.").is_active(), Ok(ActiveState::ActiveIndependentApiLayer));
}

#[test]
fn without_an_extension_the_state_of_a_layer_cannot_be_told() {
    assert_eq!(
        layer("/l/x").is_active(),
        Err(Error::GetActiveError("Api Layer: 'L', Path: '/l/x'".to_string()))
    );
    assert_eq!(
        layer("/l.d/.hidden").is_active(),
        Err(Error::GetActiveError("Api Layer: 'L', Path: '/l.d/.hidden'".to_string()))
    );
    let platform = make_platform();
    assert_eq!(platform.get_api_layer_active_state(&layer("/l/x")), ActiveState::NotActive);
}

#[test]
fn toggling_renames_between_json_and_disabled() {
    assert_eq!(layer("/l/x.json").toggle_target(), "/l/x.disabled");
    assert_eq!(layer("/l/x.disabled").toggle_target(), "/l/x.json");
    assert_eq!(layer("/l/x.txt").toggle_target(), "/l/x.disabled");
    assert_eq!(layer("/l/x").toggle_target(), "/l/x");
    assert_eq!(
        layer("/l/x.json").toggle_request(),
        ("/l/x.json".to_string(), "/l/x.disabled".to_string())
    );
}

#[test]
fn toggling_twice_restores_path_and_state() {
    for path in ["/l/x.json", "/l/x.disabled", "/l/x", "/l/a.b.json", "/l.d/.x.disabled"] {
        let mut l = layer(path);
        let before = l.is_active();
        assert_eq!(l.toggle_layer(Ok(())), Ok(()));
        if before.is_ok() {
            assert_ne!(l.is_active(), before, "{}", path);
            assert_ne!(l.orig_path(), path);
        }
        assert_eq!(l.toggle_layer(Ok(())), Ok(()));
        assert_eq!(l.orig_path(), path);
        assert_eq!(l.is_active(), before);
        assert_eq!(l, layer(path));
    }
}

#[test]
fn toggling_twice_restores_the_state_of_any_layer() {
    let mut l = layer("/l/x.txt");
    l.toggle_layer(Ok(())).unwrap();
    assert_eq!(l.orig_path(), "/l/x.disabled");
    assert_eq!(l.is_active(), Ok(ActiveState::NotActive));
    l.toggle_layer(Ok(())).unwrap();
    assert_eq!(l.orig_path(), "/l/x.json");
    assert_eq!(l.is_active(), Ok(ActiveState::ActiveIndependentApiLayer));
}

#[test]
fn a_rename_that_failed_leaves_the_layer_as_it_was() {
    let mut l = layer("/l/x.json");
    assert_eq!(
        l.toggle_layer(Err(Error::IoError("Permission denied (os error 13)".to_string()))),
        Err(Error::IoError("Permission denied (os error 13)".to_string()))
    );
    assert_eq!(l.orig_path(), "/l/x.json");
    assert_eq!(l.is_active(), Ok(ActiveState::ActiveIndependentApiLayer));
}

#[test]
fn a_user_override_and_the_system_manifest_make_one_runtime() {
    let text = runtime_text("../../lib/libmonado.so");
    let mut files = FsSnapshot::new();
    files.record(file("/home/u/.config/xr/1/openxr_monado.json", "/etc/xr/1/openxr_monado.json", &text));
    files.record(file("/etc/xr/1/openxr_monado.json", "/etc/xr/1/openxr_monado.json", &text));
    let mut observed = nothing();
    observed.config_runtime_files = strings(&["/home/u/.config/xr/1/openxr_monado.json"]);
    observed.sysconf_runtime_entries = vec![entry("/etc/xr/1/openxr_monado.json", FileKind::File)];
    observed.files = files;
    let platform = platform(observed);
    let (runtimes, errors) = platform.find_available_runtimes(&Vec::new()).unwrap();
    assert!(errors.is_empty());
    assert_eq!(runtimes.len(), 1);
    assert_eq!(runtimes[0].orig_path(), "/home/u/.config/xr/1/openxr_monado.json");
    assert_eq!(runtimes[0].get_manifests(), strings(&["/etc/xr/1/openxr_monado.json"]));
    assert_eq!(runtimes[0].get_runtime_name(), "Monado");
}

#[test]
fn no_pass_looks_at_explicit_layers() {
    let platform = make_platform();
    assert_eq!(platform.explicit_layer_suffix(), "/api_layers/explicit.d");
}
