use xrpicker::activation::{
    to_decimal, Activation, ActivationEvent, ActivationRequest, Stage,
};
use xrpicker::Error;

const MANIFEST: &str = "/usr/share/openxr/1/openxr_monado.json";
const MARKER: &str = "/home/u/.config/openxr/1/active_runtime.json";
const BACKUP: &str = "/home/u/.config/openxr/1/old_active_runtime1700000000.json";

fn placed() -> ActivationEvent {
    ActivationEvent::Placed { path: MARKER.to_string(), created: Ok(()) }
}

fn link_request() -> ActivationRequest {
    ActivationRequest::Symlink { target: MANIFEST.to_string(), link: MARKER.to_string() }
}

fn io(text: &str) -> Error {
    Error::IoError(text.to_string())
}

/// Runs the events and gives the requests that they were answered with.
fn run(events: Vec<ActivationEvent>) -> (Activation, Vec<ActivationRequest>) {
    let (mut state, first) = Activation::start(MANIFEST, 1_700_000_000);
    let mut requests = vec![first];
    for event in events {
        let (next, request) = state.step(event);
        state = next;
        requests.push(request);
    }
    (state, requests)
}

#[test]
fn decimal_digits() {
    assert_eq!(to_decimal(0), "0");
    assert_eq!(to_decimal(7), "7");
    assert_eq!(to_decimal(10), "10");
    assert_eq!(to_decimal(1_700_000_000), "1700000000");
    assert_eq!(to_decimal(9_876_543_210), "9876543210");
    assert_eq!(to_decimal(u64::MAX), "18446744073709551615");
}

#[test]
fn without_a_marker_nothing_is_set_aside() {
    let (state, requests) = run(vec![
        ActivationEvent::BaseDirectories(Ok(())),
        placed(),
        ActivationEvent::Renamed(Err(io("No such file or directory (os error 2)"))),
        ActivationEvent::Linked(Ok(())),
    ]);
    assert_eq!(
        requests,
        vec![
            ActivationRequest::OpenBaseDirectories,
            ActivationRequest::PlaceConfigFile {
                relative: "openxr/1/active_runtime.json".to_string()
            },
            ActivationRequest::Rename { from: MARKER.to_string(), to: BACKUP.to_string() },
            link_request(),
            ActivationRequest::Finished(Ok(())),
        ]
    );
    assert!(state.is_finished());
    assert_eq!(state.stage(), Stage::Finished);
    assert_eq!(state.warnings(), &vec![io("No such file or directory (os error 2)")]);
}

#[test]
fn a_marker_that_is_a_file_is_kept_aside() {
    let (state, requests) = run(vec![
        ActivationEvent::BaseDirectories(Ok(())),
        placed(),
        ActivationEvent::Renamed(Ok(())),
        ActivationEvent::SymlinkChecked(Some(false)),
        ActivationEvent::Linked(Ok(())),
    ]);
    assert_eq!(
        requests,
        vec![
            ActivationRequest::OpenBaseDirectories,
            ActivationRequest::PlaceConfigFile {
                relative: "openxr/1/active_runtime.json".to_string()
            },
            ActivationRequest::Rename { from: MARKER.to_string(), to: BACKUP.to_string() },
            ActivationRequest::CheckSymlink { path: BACKUP.to_string() },
            link_request(),
            ActivationRequest::Finished(Ok(())),
        ]
    );
    assert!(state.warnings().is_empty());
}

#[test]
fn a_marker_that_is_a_link_is_removed_once_set_aside() {
    let (_, requests) = run(vec![
        ActivationEvent::BaseDirectories(Ok(())),
        placed(),
        ActivationEvent::Renamed(Ok(())),
        ActivationEvent::SymlinkChecked(Some(true)),
        ActivationEvent::Removed(Ok(())),
        ActivationEvent::Linked(Ok(())),
    ]);
    assert_eq!(
        requests[3..],
        [
            ActivationRequest::CheckSymlink { path: BACKUP.to_string() },
            ActivationRequest::RemoveFile { path: BACKUP.to_string() },
            link_request(),
            ActivationRequest::Finished(Ok(())),
        ]
    );
}

#[test]
fn a_backup_that_cannot_be_told_or_removed_does_not_stop_the_activation() {
    let (_, requests) = run(vec![
        ActivationEvent::BaseDirectories(Ok(())),
        placed(),
        ActivationEvent::Renamed(Ok(())),
        ActivationEvent::SymlinkChecked(None),
    ]);
    assert_eq!(requests.last(), Some(&link_request()));

    let (state, requests) = run(vec![
        ActivationEvent::BaseDirectories(Ok(())),
        placed(),
        ActivationEvent::Renamed(Ok(())),
        ActivationEvent::SymlinkChecked(Some(true)),
        ActivationEvent::Removed(Err(io("busy"))),
        ActivationEvent::Linked(Ok(())),
    ]);
    assert_eq!(requests.last(), Some(&ActivationRequest::Finished(Ok(()))));
    assert_eq!(state.warnings(), &vec![io("busy")]);
}

#[test]
fn missing_base_directories_end_the_activation() {
    let (state, requests) =
        run(vec![ActivationEvent::BaseDirectories(Err("$HOME must be set".to_string()))]);
    assert_eq!(
        requests.last(),
        Some(&ActivationRequest::Finished(Err(Error::SetActiveError(
            "$HOME must be set".to_string()
        ))))
    );
    assert!(state.is_finished());
}

#[test]
fn directories_that_cannot_be_created_are_a_warning() {
    let (state, requests) = run(vec![
        ActivationEvent::BaseDirectories(Ok(())),
        ActivationEvent::Placed { path: MARKER.to_string(), created: Err(io("read-only")) },
    ]);
    assert_eq!(
        requests.last(),
        Some(&ActivationRequest::Rename { from: MARKER.to_string(), to: BACKUP.to_string() })
    );
    assert_eq!(state.warnings(), &vec![io("read-only")]);
    assert!(!state.is_finished());
    assert_eq!(state.stage(), Stage::Renamed);
}

#[test]
fn a_link_that_cannot_be_created_fails_the_activation() {
    let (state, requests) = run(vec![
        ActivationEvent::BaseDirectories(Ok(())),
        placed(),
        ActivationEvent::Renamed(Err(io("nothing there"))),
        ActivationEvent::Linked(Err(io("Permission denied (os error 13)"))),
    ]);
    assert_eq!(
        requests.last(),
        Some(&ActivationRequest::Finished(Err(io("Permission denied (os error 13)"))))
    );
    assert!(state.is_finished());
}

#[test]
fn an_event_out_of_order_ends_the_activation() {
    let (state, requests) = run(vec![ActivationEvent::Linked(Ok(()))]);
    assert_eq!(
        requests.last(),
        Some(&ActivationRequest::Finished(Err(Error::SetActiveError(
            "event out of order".to_string()
        ))))
    );
    assert!(state.is_finished());

    let (_, requests) = run(vec![
        ActivationEvent::BaseDirectories(Ok(())),
        placed(),
        ActivationEvent::Renamed(Err(io("x"))),
        ActivationEvent::Linked(Ok(())),
        ActivationEvent::Linked(Ok(())),
    ]);
    assert_eq!(
        requests.last(),
        Some(&ActivationRequest::Finished(Err(Error::SetActiveError(
            "event out of order".to_string()
        ))))
    );
}

#[test]
fn the_backup_lies_beside_the_marker() {
    let (state, _) = Activation::start(MANIFEST, 5);
    let (state, _) = state.step(ActivationEvent::BaseDirectories(Ok(())));
    let (_, request) = state.step(ActivationEvent::Placed {
        path: "/active_runtime.json".to_string(),
        created: Ok(()),
    });
    assert_eq!(
        request,
        ActivationRequest::Rename {
            from: "/active_runtime.json".to_string(),
            to: "/old_active_runtime5.json".to_string()
        }
    );
}
