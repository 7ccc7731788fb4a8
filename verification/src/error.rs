//! What can go wrong, and how an entity stands towards the platform.

use vstd::prelude::*;

verus! {

/// A failure of the engine.
#[derive(Debug, PartialEq, Eq)]
pub enum Error {
    /// The operating system refused an operation; its own words.
    IoError(String),
    /// A manifest is no JSON document, or lacks what a manifest must hold.
    JsonParseError(String),
    /// A manifest is written for another major version of the format.
    ManifestVersionMismatch,
    /// The platform's state could not be brought to make a runtime active.
    SetActiveError(String),
    /// What is on disk does not tell whether an entity is active.
    GetActiveError(String),
}

/// An [`Error`] over mathematical strings.
pub enum ErrorView {
    IoError(Seq<char>),
    JsonParseError(Seq<char>),
    ManifestVersionMismatch,
    SetActiveError(Seq<char>),
    GetActiveError(Seq<char>),
}

impl View for Error {
    type V = ErrorView;

    open spec fn view(&self) -> ErrorView {
        match self {
            Error::IoError(s) => ErrorView::IoError(s@),
            Error::JsonParseError(s) => ErrorView::JsonParseError(s@),
            Error::ManifestVersionMismatch => ErrorView::ManifestVersionMismatch,
            Error::SetActiveError(s) => ErrorView::SetActiveError(s@),
            Error::GetActiveError(s) => ErrorView::GetActiveError(s@),
        }
    }
}

impl DeepView for Error {
    type V = ErrorView;

    open spec fn deep_view(&self) -> ErrorView {
        self@
    }
}

impl Clone for Error {
    fn clone(&self) -> (r: Self)
        ensures
            r == *self,
    {
        match self {
            Error::IoError(s) => Error::IoError(s.clone()),
            Error::JsonParseError(s) => Error::JsonParseError(s.clone()),
            Error::ManifestVersionMismatch => Error::ManifestVersionMismatch,
            Error::SetActiveError(s) => Error::SetActiveError(s.clone()),
            Error::GetActiveError(s) => Error::GetActiveError(s.clone()),
        }
    }
}

impl Error {
    /// The failure in words: what kind it is, then what it carries.
    pub open spec fn spec_message(self) -> Seq<char> {
        match self {
            Error::IoError(s) => "IO error: "@ + s@,
            Error::JsonParseError(s) => "JSON parsing error: "@ + s@,
            Error::ManifestVersionMismatch => "Manifest version mismatch"@,
            Error::SetActiveError(s) => "Error setting active runtime: "@ + s@,
            Error::GetActiveError(s) => "Error getting active state: "@ + s@,
        }
    }

    /// The failure in words.
    pub fn message(&self) -> (r: String)
        ensures
            r@ == self.spec_message(),
    {
        match self {
            Error::IoError(s) => "IO error: ".to_owned().concat(s.as_str()),
            Error::JsonParseError(s) => "JSON parsing error: ".to_owned().concat(s.as_str()),
            Error::ManifestVersionMismatch => "Manifest version mismatch".to_owned(),
            Error::SetActiveError(s) => "Error setting active runtime: ".to_owned().concat(
                s.as_str(),
            ),
            Error::GetActiveError(s) => "Error getting active state: ".to_owned().concat(
                s.as_str(),
            ),
        }
    }
}

/// A manifest that could not be loaded: its path as it was found, and why.
#[derive(Debug, PartialEq, Eq)]
pub struct ManifestError(pub String, pub Error);

impl View for ManifestError {
    type V = (Seq<char>, ErrorView);

    open spec fn view(&self) -> (Seq<char>, ErrorView) {
        (self.0@, self.1@)
    }
}

impl DeepView for ManifestError {
    type V = (Seq<char>, ErrorView);

    open spec fn deep_view(&self) -> (Seq<char>, ErrorView) {
        self@
    }
}

impl Clone for ManifestError {
    fn clone(&self) -> (r: Self)
        ensures
            r == *self,
    {
        ManifestError(self.0.clone(), self.1.clone())
    }
}

/// How an entity stands towards what the platform holds active.
#[derive(Debug, Clone, Copy, PartialEq, Eq, Structural)]
pub enum ActiveState {
    /// Not active.
    NotActive,
    /// The one runtime the platform points at.
    ActiveIndependentRuntime,
    /// An API layer that is switched on, whatever the others are.
    ActiveIndependentApiLayer,
}

} // verus!
