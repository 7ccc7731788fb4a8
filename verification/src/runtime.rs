//! A runtime manifest and the path it was loaded from.

use crate::error::{Error, ErrorView};
use crate::manifest::{base_of_read, read_view, BaseView, Manifest, ManifestKind};
use crate::path_simplifier::PathSimplifier;
use crate::paths::{get_parent, join_paths};
use crate::text::{contains, occurs_in};
use vstd::prelude::*;

verus! {

/// The name of the vendor whose mark the library path bears: the first of
/// the known marks that occurs in it.
pub open spec fn vendor_of(library_path: Seq<char>) -> Option<Seq<char>> {
    if occurs_in(library_path, "monado"@) {
        Some("Monado"@)
    } else if occurs_in(library_path, "vrclient"@) {
        Some("SteamVR"@)
    } else if occurs_in(library_path, "wivrn"@) {
        Some("WiVRn"@)
    } else {
        None
    }
}

/// The name a runtime is shown under: the one it declares; else that of the
/// vendor its library path points to; else the path of its manifest.
pub open spec fn runtime_name(base: BaseView) -> Seq<char> {
    match base.manifest.name {
        Some(name) => name,
        None => match vendor_of(base.manifest.library_path) {
            Some(vendor) => vendor,
            None => base.manifest_path,
        },
    }
}

/// The path and parsed data of a runtime manifest.
#[derive(Debug, PartialEq, Eq)]
pub struct BaseRuntime {
    manifest_path: String,
    manifest: Manifest,
}

impl View for BaseRuntime {
    type V = BaseView;

    closed spec fn view(&self) -> BaseView {
        BaseView { manifest_path: self.manifest_path@, manifest: self.manifest@ }
    }
}

impl DeepView for BaseRuntime {
    type V = BaseView;

    open spec fn deep_view(&self) -> BaseView {
        self@
    }
}

/// A result of loading a runtime, over mathematical strings.
pub open spec fn runtime_loaded_view(r: Result<BaseRuntime, Error>) -> Result<
    BaseView,
    ErrorView,
> {
    match r {
        Ok(b) => Ok(b@),
        Err(e) => Err(e@),
    }
}

impl BaseRuntime {
    /// Loads the runtime manifest at `manifest_path` from what reading it
    /// gave. Whether the library exists is not looked at.
    pub fn new(manifest_path: &str, read: &Result<String, Error>) -> (r: Result<Self, Error>)
        ensures
            runtime_loaded_view(r) == base_of_read(
                ManifestKind::Runtime,
                manifest_path@,
                read_view(*read),
            ),
    {
        match Manifest::load(ManifestKind::Runtime, read) {
            Ok(manifest) => Ok(BaseRuntime { manifest_path: manifest_path.to_owned(), manifest }),
            Err(e) => Err(e),
        }
    }

    /// A runtime of a manifest that is already loaded.
    pub fn from_manifest(manifest_path: String, manifest: Manifest) -> (r: Self)
        ensures
            r@ == (BaseView { manifest_path: manifest_path@, manifest: manifest@ }),
    {
        BaseRuntime { manifest_path, manifest }
    }

    /// The path of the manifest.
    pub fn get_manifest_path(&self) -> (r: &str)
        ensures
            r@ == self@.manifest_path,
    {
        self.manifest_path.as_str()
    }

    /// The parsed manifest.
    pub fn manifest(&self) -> (r: &Manifest)
        ensures
            r@ == self@.manifest,
    {
        &self.manifest
    }

    /// A name for the runtime, the declared one where there is one.
    pub fn get_runtime_name(&self) -> (r: String)
        ensures
            r@ == runtime_name(self@),
    {
        if let Some(name) = self.manifest.name() {
            return name.to_owned();
        }
        let library_path = self.manifest.library_path();
        if contains(library_path, "monado") {
            "Monado".to_owned()
        } else if contains(library_path, "vrclient") {
            "SteamVR".to_owned()
        } else if contains(library_path, "wivrn") {
            "WiVRn".to_owned()
        } else {
            self.manifest_path.clone()
        }
    }

    /// The library path as the manifest gives it.
    pub fn library_path(&self) -> (r: &str)
        ensures
            r@ == self@.manifest.library_path,
    {
        self.manifest.library_path()
    }

    /// Whether the manifest's format version is one that is read.
    pub fn is_file_format_version_ok(&self) -> (r: bool)
        ensures
            r == crate::manifest::version_supported(self@.manifest.file_format_version),
    {
        self.manifest.is_file_format_version_ok()
    }

    /// Where the library is looked for: its path taken from the directory
    /// of the manifest.
    pub fn library_candidate(&self) -> (r: String)
        ensures
            r@ == self@.library_candidate(),
    {
        let dir = get_parent(self.manifest_path.as_str());
        join_paths(dir.as_str(), self.manifest.library_path())
    }

    /// The library in this manifest: `resolved`, which is where
    /// `library_candidate` leads, or the candidate where it leads nowhere.
    pub fn resolve_library_path(&self, resolved: Option<String>) -> (r: String)
        ensures
            r@ == self@.library(resolved.deep_view()),
    {
        match resolved {
            Some(path) => path,
            None => self.library_candidate(),
        }
    }

    /// The manifest and its library in one line.
    pub fn describe_manifest(&self, simplifier: &PathSimplifier) -> (r: String)
        ensures
            r@ == self@.manifest.description(self@.manifest_path, simplifier@),
    {
        self.manifest.describe_manifest(self.manifest_path.as_str(), simplifier)
    }
}

} // verus!
