//! Discovery and activation of OpenXR runtimes and API layers.
//!
//! The crate is a pure engine: everything it knows of the machine it is
//! handed as plain values, and every change it wants made it hands back as
//! a request. What it decides in between is verified.

pub mod activation;
pub mod api_layer;
pub mod app_state;
pub mod discovery;
pub mod error;
pub mod json;
pub mod linux;
pub mod manifest;
pub mod path_simplifier;
pub mod paths;
pub mod platform;
pub mod runtime;
pub mod snapshot;
pub mod text;
pub mod unique;

pub use error::{ActiveState, Error, ErrorView, ManifestError};
pub use app_state::{AppState, PersistentAppState};
pub use linux::make_platform;
pub use platform::Platform;
