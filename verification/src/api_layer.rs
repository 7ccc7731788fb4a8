//! An API layer manifest and the path it was loaded from.

use crate::error::{Error, ErrorView};
use crate::manifest::{base_of_read, read_view, BaseView, Manifest, ManifestKind};
use crate::path_simplifier::PathSimplifier;
use crate::paths::{get_parent, join_paths};
use vstd::prelude::*;

verus! {

/// The name an API layer is shown under: the one its manifest declares.
pub open spec fn api_layer_name(base: BaseView) -> Seq<char> {
    match base.manifest.name {
        Some(name) => name,
        None => Seq::empty(),
    }
}

/// The path and parsed data of an API layer manifest.
#[derive(Debug, PartialEq, Eq)]
pub struct BaseApiLayer {
    manifest_path: String,
    manifest: Manifest,
}

impl View for BaseApiLayer {
    type V = BaseView;

    closed spec fn view(&self) -> BaseView {
        BaseView { manifest_path: self.manifest_path@, manifest: self.manifest@ }
    }
}

impl DeepView for BaseApiLayer {
    type V = BaseView;

    open spec fn deep_view(&self) -> BaseView {
        self@
    }
}

/// A result of loading an API layer, over mathematical strings.
pub open spec fn api_layer_loaded_view(r: Result<BaseApiLayer, Error>) -> Result<
    BaseView,
    ErrorView,
> {
    match r {
        Ok(b) => Ok(b@),
        Err(e) => Err(e@),
    }
}

impl BaseApiLayer {
    /// Loads the API layer manifest at `manifest_path` from what reading it
    /// gave. Whether the library exists is not looked at.
    pub fn new(manifest_path: &str, read: &Result<String, Error>) -> (r: Result<Self, Error>)
        ensures
            api_layer_loaded_view(r) == base_of_read(
                ManifestKind::ApiLayer,
                manifest_path@,
                read_view(*read),
            ),
    {
        match Manifest::load(ManifestKind::ApiLayer, read) {
            Ok(manifest) => Ok(BaseApiLayer { manifest_path: manifest_path.to_owned(), manifest }),
            Err(e) => Err(e),
        }
    }

    /// An API layer of a manifest that is already loaded.
    pub fn from_manifest(manifest_path: String, manifest: Manifest) -> (r: Self)
        ensures
            r@ == (BaseView { manifest_path: manifest_path@, manifest: manifest@ }),
    {
        BaseApiLayer { manifest_path, manifest }
    }

    /// The path of the manifest.
    pub fn get_manifest_path(&self) -> (r: &str)
        ensures
            r@ == self@.manifest_path,
    {
        self.manifest_path.as_str()
    }

    /// The parsed manifest.
    pub fn manifest(&self) -> (r: &Manifest)
        ensures
            r@ == self@.manifest,
    {
        &self.manifest
    }

    /// The name that the layer declares.
    pub fn get_api_layer_name(&self) -> (r: String)
        ensures
            r@ == api_layer_name(self@),
    {
        match self.manifest.name() {
            Some(name) => name.to_owned(),
            None => String::new(),
        }
    }

    /// The library path as the manifest gives it.
    pub fn library_path(&self) -> (r: &str)
        ensures
            r@ == self@.manifest.library_path,
    {
        self.manifest.library_path()
    }

    /// Whether the manifest's format version is one that is read.
    pub fn is_file_format_version_ok(&self) -> (r: bool)
        ensures
            r == crate::manifest::version_supported(self@.manifest.file_format_version),
    {
        self.manifest.is_file_format_version_ok()
    }

    /// Where the library is looked for: its path taken from the directory
    /// of the manifest.
    pub fn library_candidate(&self) -> (r: String)
        ensures
            r@ == self@.library_candidate(),
    {
        let dir = get_parent(self.manifest_path.as_str());
        join_paths(dir.as_str(), self.manifest.library_path())
    }

    /// The library in this manifest: `resolved`, which is where
    /// `library_candidate` leads, or the candidate where it leads nowhere.
    pub fn resolve_library_path(&self, resolved: Option<String>) -> (r: String)
        ensures
            r@ == self@.library(resolved.deep_view()),
    {
        match resolved {
            Some(path) => path,
            None => self.library_candidate(),
        }
    }

    /// The manifest and its library in one line.
    pub fn describe_manifest(&self, simplifier: &PathSimplifier) -> (r: String)
        ensures
            r@ == self@.manifest.description(self@.manifest_path, simplifier@),
    {
        self.manifest.describe_manifest(self.manifest_path.as_str(), simplifier)
    }
}

} // verus!
