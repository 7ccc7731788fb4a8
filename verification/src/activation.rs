//! Making a runtime the active one.
//!
//! The active runtime is the one that a marker in the user's configuration
//! directory points to. Replacing the marker takes several operations on the
//! file system, and what is done next depends on how the last one went. The
//! engine decides; whoever drives it performs each request and reports back.

use crate::error::{Error, ErrorView};
use crate::paths::{get_parent, join, join_paths, parent};
use crate::text::append;
use vstd::prelude::*;

verus! {

/// The digit that stands for `d`.
pub open spec fn digit_char(d: nat) -> char {
    if d == 0 {
        '0'
    } else if d == 1 {
        '1'
    } else if d == 2 {
        '2'
    } else if d == 3 {
        '3'
    } else if d == 4 {
        '4'
    } else if d == 5 {
        '5'
    } else if d == 6 {
        '6'
    } else if d == 7 {
        '7'
    } else if d == 8 {
        '8'
    } else {
        '9'
    }
}

/// `n` in decimal digits.
pub open spec fn decimal(n: nat) -> Seq<char>
    decreases n,
{
    if n < 10 {
        seq![digit_char(n)]
    } else {
        decimal(n / 10).push(digit_char(n % 10))
    }
}

/// The digit that stands for `d`, as a string.
fn digit_str(d: u64) -> (r: &'static str)
    requires
        d < 10,
    ensures
        r@ == seq![digit_char(d as nat)],
{
    proof {
        reveal_strlit("0");
        reveal_strlit("1");
        reveal_strlit("2");
        reveal_strlit("3");
        reveal_strlit("4");
        reveal_strlit("5");
        reveal_strlit("6");
        reveal_strlit("7");
        reveal_strlit("8");
        reveal_strlit("9");
    }
    let r = if d == 0 {
        "0"
    } else if d == 1 {
        "1"
    } else if d == 2 {
        "2"
    } else if d == 3 {
        "3"
    } else if d == 4 {
        "4"
    } else if d == 5 {
        "5"
    } else if d == 6 {
        "6"
    } else if d == 7 {
        "7"
    } else if d == 8 {
        "8"
    } else {
        "9"
    };
    assert(r@ =~= seq![digit_char(d as nat)]);
    r
}

/// `n` in decimal digits.
pub fn to_decimal(n: u64) -> (r: String)
    ensures
        r@ == decimal(n as nat),
    decreases n,
{
    if n < 10 {
        digit_str(n).to_owned()
    } else {
        let head = to_decimal(n / 10);
        let r = head.concat(digit_str(n % 10));
        assert(r@ =~= decimal(n as nat));
        r
    }
}

/// The marker of the active runtime, from the user's configuration directory.
pub open spec fn marker_relative() -> Seq<char> {
    join(crate::linux::path_suffix(), crate::linux::active_runtime_filename())
}

/// The name under which the marker that was there at `timestamp`, in seconds
/// since the epoch, is set aside.
pub open spec fn backup_name(timestamp: u64) -> Seq<char> {
    "old_active_runtime"@ + decimal(timestamp as nat) + ".json"@
}

/// Where the marker at `marker` is set aside: beside it.
pub open spec fn backup_path(marker: Seq<char>, timestamp: u64) -> Seq<char> {
    join(parent(marker), backup_name(timestamp))
}

/// What the engine asks to be done next.
#[derive(Debug, PartialEq, Eq)]
pub enum ActivationRequest {
    /// Find the user's base directories.
    OpenBaseDirectories,
    /// Say where `relative` lies in the user's configuration directory, and
    /// create the directories that lead there.
    PlaceConfigFile { relative: String },
    /// Rename `from` to `to`.
    Rename { from: String, to: String },
    /// Say whether `path` itself is a symbolic link.
    CheckSymlink { path: String },
    /// Remove the file at `path`.
    RemoveFile { path: String },
    /// Create at `link` a symbolic link to `target`.
    Symlink { target: String, link: String },
    /// Nothing more: this is how making the runtime active ended.
    Finished(Result<(), Error>),
}

/// An [`ActivationRequest`] over mathematical strings.
pub enum RequestView {
    OpenBaseDirectories,
    PlaceConfigFile { relative: Seq<char> },
    Rename { from: Seq<char>, to: Seq<char> },
    CheckSymlink { path: Seq<char> },
    RemoveFile { path: Seq<char> },
    Symlink { target: Seq<char>, link: Seq<char> },
    Finished(Result<(), ErrorView>),
}

impl View for ActivationRequest {
    type V = RequestView;

    open spec fn view(&self) -> RequestView {
        match self {
            ActivationRequest::OpenBaseDirectories => RequestView::OpenBaseDirectories,
            ActivationRequest::PlaceConfigFile { relative } => RequestView::PlaceConfigFile {
                relative: relative@,
            },
            ActivationRequest::Rename { from, to } => RequestView::Rename { from: from@, to: to@ },
            ActivationRequest::CheckSymlink { path } => RequestView::CheckSymlink { path: path@ },
            ActivationRequest::RemoveFile { path } => RequestView::RemoveFile { path: path@ },
            ActivationRequest::Symlink { target, link } => RequestView::Symlink {
                target: target@,
                link: link@,
            },
            ActivationRequest::Finished(r) => RequestView::Finished(
                match r {
                    Ok(_) => Ok(()),
                    Err(e) => Err(e@),
                },
            ),
        }
    }
}

/// How a request went.
#[derive(Debug, PartialEq, Eq)]
pub enum ActivationEvent {
    /// The base directories were found, or why they were not.
    BaseDirectories(Result<(), String>),
    /// Where the file lies, and whether the directories that lead there
    /// are in place.
    Placed { path: String, created: Result<(), Error> },
    /// Whether the rename took place.
    Renamed(Result<(), Error>),
    /// Whether the path is a symbolic link; `None` where that could not be
    /// told.
    SymlinkChecked(Option<bool>),
    /// Whether the file was removed.
    Removed(Result<(), Error>),
    /// Whether the link was created.
    Linked(Result<(), Error>),
}

/// An [`ActivationEvent`] over mathematical strings.
pub enum EventView {
    BaseDirectories(Result<(), Seq<char>>),
    Placed { path: Seq<char>, created: Result<(), ErrorView> },
    Renamed(Result<(), ErrorView>),
    SymlinkChecked(Option<bool>),
    Removed(Result<(), ErrorView>),
    Linked(Result<(), ErrorView>),
}

/// How an operation went, over mathematical strings.
pub open spec fn outcome_view(r: Result<(), Error>) -> Result<(), ErrorView> {
    match r {
        Ok(_) => Ok(()),
        Err(e) => Err(e@),
    }
}

impl View for ActivationEvent {
    type V = EventView;

    open spec fn view(&self) -> EventView {
        match self {
            ActivationEvent::BaseDirectories(r) => EventView::BaseDirectories(
                match r {
                    Ok(_) => Ok(()),
                    Err(why) => Err(why@),
                },
            ),
            ActivationEvent::Placed { path, created } => EventView::Placed {
                path: path@,
                created: outcome_view(*created),
            },
            ActivationEvent::Renamed(r) => EventView::Renamed(outcome_view(*r)),
            ActivationEvent::SymlinkChecked(r) => EventView::SymlinkChecked(*r),
            ActivationEvent::Removed(r) => EventView::Removed(outcome_view(*r)),
            ActivationEvent::Linked(r) => EventView::Linked(outcome_view(*r)),
        }
    }
}

/// What the engine waits for.
#[derive(Debug, Clone, Copy, PartialEq, Eq, Structural)]
pub enum Stage {
    BaseDirectories,
    Placed,
    Renamed,
    SymlinkChecked,
    Removed,
    Linked,
    Finished,
}

/// A runtime on its way to being the active one.
#[derive(Debug, PartialEq, Eq)]
pub struct Activation {
    stage: Stage,
    manifest_path: String,
    timestamp: u64,
    marker: String,
    warnings: Vec<Error>,
}

/// An [`Activation`] over mathematical strings.
pub struct ActivationView {
    /// What is waited for.
    pub stage: Stage,
    /// The manifest of the runtime.
    pub manifest_path: Seq<char>,
    /// When this began, in seconds since the epoch.
    pub timestamp: u64,
    /// The path of the marker, once it is known.
    pub marker: Seq<char>,
    /// What went wrong without ending the activation.
    pub warnings: Seq<ErrorView>,
}

impl View for Activation {
    type V = ActivationView;

    closed spec fn view(&self) -> ActivationView {
        ActivationView {
            stage: self.stage,
            manifest_path: self.manifest_path@,
            timestamp: self.timestamp,
            marker: self.marker@,
            warnings: self.warnings.deep_view(),
        }
    }
}

/// What is said of an event that the engine did not wait for.
pub open spec fn out_of_order() -> Seq<char> {
    "event out of order"@
}

impl ActivationView {
    /// The state in which the activation of the runtime at `manifest_path`
    /// begins.
    pub open spec fn start(manifest_path: Seq<char>, timestamp: u64) -> ActivationView {
        ActivationView {
            stage: Stage::BaseDirectories,
            manifest_path,
            timestamp,
            marker: Seq::empty(),
            warnings: Seq::empty(),
        }
    }

    /// This state at another stage.
    pub open spec fn at(self, stage: Stage) -> ActivationView {
        ActivationView { stage, ..self }
    }

    /// This state with one more warning.
    pub open spec fn warned(self, outcome: Result<(), ErrorView>) -> ActivationView {
        match outcome {
            Ok(_) => self,
            Err(e) => ActivationView { warnings: self.warnings.push(e), ..self },
        }
    }

    /// The request to put the marker in place.
    pub open spec fn link_request(self) -> RequestView {
        RequestView::Symlink { target: self.manifest_path, link: self.marker }
    }

    /// The end of the activation.
    pub open spec fn finish(self, outcome: Result<(), ErrorView>) -> (ActivationView, RequestView) {
        (self.at(Stage::Finished), RequestView::Finished(outcome))
    }

    /// The state after `event`, and what is to be done next.
    ///
    /// The marker that is there is set aside under a name of its own; where
    /// it was itself a link, what was set aside is removed again. Then the
    /// new marker is put in place. Only two failures end the activation:
    /// that the base directories are not found, and that the new marker
    /// cannot be created. Every other failure is kept as a warning.
    pub open spec fn next(self, event: EventView) -> (ActivationView, RequestView) {
        match (self.stage, event) {
            (Stage::BaseDirectories, EventView::BaseDirectories(Ok(_))) => (
                self.at(Stage::Placed),
                RequestView::PlaceConfigFile { relative: marker_relative() },
            ),
            (Stage::BaseDirectories, EventView::BaseDirectories(Err(why))) => self.finish(
                Err(ErrorView::SetActiveError(why)),
            ),
            (Stage::Placed, EventView::Placed { path, created }) => (
                ActivationView { marker: path, ..self.warned(created).at(Stage::Renamed) },
                RequestView::Rename { from: path, to: backup_path(path, self.timestamp) },
            ),
            (Stage::Renamed, EventView::Renamed(Ok(_))) => (
                self.at(Stage::SymlinkChecked),
                RequestView::CheckSymlink { path: backup_path(self.marker, self.timestamp) },
            ),
            (Stage::Renamed, EventView::Renamed(Err(e))) => (
                self.warned(Err(e)).at(Stage::Linked),
                self.link_request(),
            ),
            (Stage::SymlinkChecked, EventView::SymlinkChecked(Some(true))) => (
                self.at(Stage::Removed),
                RequestView::RemoveFile { path: backup_path(self.marker, self.timestamp) },
            ),
            (Stage::SymlinkChecked, EventView::SymlinkChecked(_)) => (
                self.at(Stage::Linked),
                self.link_request(),
            ),
            (Stage::Removed, EventView::Removed(removed)) => (
                self.warned(removed).at(Stage::Linked),
                self.link_request(),
            ),
            (Stage::Linked, EventView::Linked(linked)) => self.finish(linked),
            _ => self.finish(Err(ErrorView::SetActiveError(out_of_order()))),
        }
    }
}

impl Activation {
    /// Begins to make the runtime at `manifest_path` the active one.
    /// `timestamp` is the time now, in seconds since the epoch.
    pub fn start(manifest_path: &str, timestamp: u64) -> (r: (Activation, ActivationRequest))
        ensures
            r.0@ == ActivationView::start(manifest_path@, timestamp),
            r.1@ == RequestView::OpenBaseDirectories,
    {
        let state = Activation {
            stage: Stage::BaseDirectories,
            manifest_path: manifest_path.to_owned(),
            timestamp,
            marker: String::new(),
            warnings: Vec::new(),
        };
        assert(state.warnings.deep_view() =~= Seq::<ErrorView>::empty());
        (state, ActivationRequest::OpenBaseDirectories)
    }

    /// What is waited for.
    pub fn stage(&self) -> (r: Stage)
        ensures
            r == self@.stage,
    {
        self.stage
    }

    /// Whether nothing more is to be done.
    pub fn is_finished(&self) -> (r: bool)
        ensures
            r == (self@.stage == Stage::Finished),
    {
        match self.stage {
            Stage::Finished => true,
            _ => false,
        }
    }

    /// What went wrong so far without ending the activation.
    pub fn warnings(&self) -> (r: &Vec<Error>)
        ensures
            r.deep_view() == self@.warnings,
    {
        &self.warnings
    }

    /// Where what the marker pointed to before is set aside.
    fn backup(&self) -> (r: String)
        ensures
            r@ == backup_path(self@.marker, self@.timestamp),
    {
        let name = append("old_active_runtime", to_decimal(self.timestamp).as_str()).concat(
            ".json",
        );
        let dir = get_parent(self.marker.as_str());
        join_paths(dir.as_str(), name.as_str())
    }

    fn link(&self) -> (r: ActivationRequest)
        ensures
            r@ == self@.link_request(),
    {
        ActivationRequest::Symlink {
            target: self.manifest_path.clone(),
            link: self.marker.clone(),
        }
    }

    fn warn(&mut self, outcome: Result<(), Error>)
        ensures
            final(self)@ == old(self)@.warned(outcome_view(outcome)),
    {
        match outcome {
            Ok(_) => {},
            Err(e) => {
                self.warnings.push(e);
                assert(self.warnings.deep_view() =~= old(self).warnings.deep_view().push(e@));
            },
        }
    }

    fn finish(self, outcome: Result<(), Error>) -> (r: (Activation, ActivationRequest))
        ensures
            (r.0@, r.1@) == self@.finish(outcome_view(outcome)),
    {
        let mut state = self;
        state.stage = Stage::Finished;
        (state, ActivationRequest::Finished(outcome))
    }

    /// Takes in how the last request went, and says what is to be done next.
    pub fn step(self, event: ActivationEvent) -> (r: (Activation, ActivationRequest))
        ensures
            (r.0@, r.1@) == self@.next(event@),
    {
        let mut state = self;
        match (state.stage, event) {
            (Stage::BaseDirectories, ActivationEvent::BaseDirectories(Ok(_))) => {
                state.stage = Stage::Placed;
                let relative = join_paths(
                    crate::linux::make_path_suffix().as_str(),
                    "active_runtime.json",
                );
                (state, ActivationRequest::PlaceConfigFile { relative })
            },
            (Stage::BaseDirectories, ActivationEvent::BaseDirectories(Err(why))) => state.finish(
                Err(Error::SetActiveError(why)),
            ),
            (Stage::Placed, ActivationEvent::Placed { path, created }) => {
                state.warn(created);
                state.stage = Stage::Renamed;
                state.marker = path.clone();
                let to = state.backup();
                (state, ActivationRequest::Rename { from: path, to })
            },
            (Stage::Renamed, ActivationEvent::Renamed(Ok(_))) => {
                state.stage = Stage::SymlinkChecked;
                let path = state.backup();
                (state, ActivationRequest::CheckSymlink { path })
            },
            (Stage::Renamed, ActivationEvent::Renamed(Err(e))) => {
                state.warn(Err(e));
                state.stage = Stage::Linked;
                let request = state.link();
                (state, request)
            },
            (Stage::SymlinkChecked, ActivationEvent::SymlinkChecked(Some(true))) => {
                state.stage = Stage::Removed;
                let path = state.backup();
                (state, ActivationRequest::RemoveFile { path })
            },
            (Stage::SymlinkChecked, ActivationEvent::SymlinkChecked(_)) => {
                state.stage = Stage::Linked;
                let request = state.link();
                (state, request)
            },
            (Stage::Removed, ActivationEvent::Removed(removed)) => {
                state.warn(removed);
                state.stage = Stage::Linked;
                let request = state.link();
                (state, request)
            },
            (Stage::Linked, ActivationEvent::Linked(linked)) => state.finish(linked),
            _ => state.finish(Err(Error::SetActiveError("event out of order".to_owned()))),
        }
    }
}

/// Making a runtime active where no marker is there yet: the rename that
/// would set the old marker aside fails, for want of one; the next request
/// is to create the marker as a link to the runtime's manifest; once that is
/// done the activation has succeeded. Nothing was asked to be created at the
/// place where a marker would have been set aside.
pub proof fn lemma_first_activation(
    manifest_path: Seq<char>,
    timestamp: u64,
    marker: Seq<char>,
    created: Result<(), ErrorView>,
    nothing_to_rename: ErrorView,
)
    ensures
        ({
            let begun = ActivationView::start(manifest_path, timestamp);
            let opened = begun.next(EventView::BaseDirectories(Ok(())));
            let placed = opened.0.next(EventView::Placed { path: marker, created });
            let renamed = placed.0.next(EventView::Renamed(Err(nothing_to_rename)));
            let linked = renamed.0.next(EventView::Linked(Ok(())));
            &&& opened.1 == RequestView::PlaceConfigFile { relative: marker_relative() }
            &&& placed.1 == RequestView::Rename {
                from: marker,
                to: backup_path(marker, timestamp),
            }
            &&& renamed.1 == RequestView::Symlink { target: manifest_path, link: marker }
            &&& linked.1 == RequestView::Finished(Ok(()))
            &&& linked.0.stage == Stage::Finished
        }),
{
}

/// Nothing is removed but what was set aside and seen to be a link: the old
/// marker, where it was a file, is kept.
pub proof fn lemma_only_links_are_removed(state: ActivationView, event: EventView)
    ensures
        state.next(event).1 matches RequestView::RemoveFile { path } ==> {
            &&& path == backup_path(state.marker, state.timestamp)
            &&& state.stage == Stage::SymlinkChecked
            &&& event == EventView::SymlinkChecked(Some(true))
        },
{
}

/// The activation fails for two reasons only, as long as events come in
/// order: the base directories are not found, or the marker cannot be
/// created.
pub proof fn lemma_what_fails_an_activation(state: ActivationView, event: EventView)
    ensures
        state.next(event).1 matches RequestView::Finished(Err(e)) ==> {
            ||| state.stage == Stage::BaseDirectories && event == EventView::BaseDirectories(
                Err(e->SetActiveError_0),
            )
            ||| state.stage == Stage::Linked && event == EventView::Linked(Err(e))
            ||| e == ErrorView::SetActiveError(out_of_order())
        },
{
}

} // verus!
