//! What a platform offers: its runtimes, its API layers, and what it holds
//! active.

use crate::error::{ActiveState, Error, ErrorView, ManifestError};
use crate::activation::{Activation, ActivationRequest, ActivationView, RequestView};
use crate::path_simplifier::PathSimplifier;
use crate::snapshot::{FileProbeView, FsSnapshot};
use vstd::prelude::*;

verus! {

/// What a discovery pass gave, over mathematical strings: the entities and
/// the manifests that failed, or the failure of the pass itself.
pub open spec fn pass_view<E: DeepView>(r: Result<(Vec<E>, Vec<ManifestError>), Error>) -> Result<
    (Seq<E::V>, Seq<(Seq<char>, ErrorView)>),
    ErrorView,
> {
    match r {
        Ok(found) => Ok((found.0.deep_view(), found.1.deep_view())),
        Err(e) => Err(e@),
    }
}

/// A runtime as a platform knows it.
pub trait PlatformRuntime: DeepView + Sized {
    /// The name that a runtime is shown under.
    spec fn name_of(v: Self::V) -> Seq<char>;

    /// The manifests that make up a runtime.
    spec fn manifests_of(v: Self::V) -> Seq<Seq<char>>;

    /// The libraries of a runtime, given what was seen of the file system.
    spec fn libraries_of(v: Self::V, files: Seq<FileProbeView>) -> Seq<Seq<char>>;

    /// The line that describes a runtime.
    spec fn description_of(v: Self::V, roots: Seq<(Seq<char>, Seq<char>)>) -> Seq<char>;

    /// The state in which making a runtime active begins.
    spec fn activation_of(v: Self::V, timestamp: u64) -> ActivationView;

    /// Begins to make this runtime the active one: the state to go on from,
    /// and the first thing to be done. `timestamp` is the time now, in
    /// seconds since the epoch.
    fn make_active(&self, timestamp: u64) -> (r: (Activation, ActivationRequest))
        ensures
            r.0@ == Self::activation_of(self.deep_view(), timestamp),
            r.1@ == RequestView::OpenBaseDirectories,
    ;

    /// A name for the runtime, the declared one where there is one. Two
    /// runtimes may bear the same name.
    fn get_runtime_name(&self) -> (r: String)
        ensures
            r@ == Self::name_of(self.deep_view()),
    ;

    /// The paths of the manifests that make up the runtime.
    fn get_manifests(&self) -> (r: Vec<String>)
        ensures
            r.deep_view() == Self::manifests_of(self.deep_view()),
    ;

    /// The libraries of the runtime, resolved as far as `files` tells.
    fn get_libraries(&self, files: &FsSnapshot) -> (r: Vec<String>)
        ensures
            r.deep_view() == Self::libraries_of(self.deep_view(), files@),
    ;

    /// This very runtime, in words: its manifests and its library.
    fn describe(&self, simplifier: &PathSimplifier) -> (r: String)
        ensures
            r@ == Self::description_of(self.deep_view(), simplifier@),
    ;
}

/// An API layer as a platform knows it.
pub trait PlatformApiLayer: DeepView + Sized {
    /// The name that a layer is shown under.
    spec fn name_of(v: Self::V) -> Seq<char>;

    /// The manifests that make up a layer.
    spec fn manifests_of(v: Self::V) -> Seq<Seq<char>>;

    /// The libraries of a layer, given what was seen of the file system.
    spec fn libraries_of(v: Self::V, files: Seq<FileProbeView>) -> Seq<Seq<char>>;

    /// The line that describes a layer.
    spec fn description_of(v: Self::V, roots: Seq<(Seq<char>, Seq<char>)>) -> Seq<char>;

    /// The path that a layer's manifest is renamed from to switch the layer.
    spec fn toggle_source_of(v: Self::V) -> Seq<char>;

    /// The path that a layer's manifest is renamed to to switch the layer.
    spec fn toggle_target_of(v: Self::V) -> Seq<char>;

    /// A layer after it was switched.
    spec fn toggled(v: Self::V) -> Self::V;

    /// Whether a layer is active, or why that cannot be told.
    spec fn active_state_of(v: Self::V) -> Result<ActiveState, ErrorView>;

    /// The rename that switches the layer on or off: from where, to where.
    fn toggle_request(&self) -> (r: (String, String))
        ensures
            r.0@ == Self::toggle_source_of(self.deep_view()),
            r.1@ == Self::toggle_target_of(self.deep_view()),
    ;

    /// Takes in how the rename of `toggle_request` went. Where it took
    /// place, the layer is switched; where it did not, the layer stays as it
    /// was and the failure is handed on.
    fn toggle_layer(&mut self, renamed: Result<(), Error>) -> (r: Result<(), Error>)
        ensures
            match renamed {
                Ok(_) => r is Ok && final(self).deep_view() == Self::toggled(
                    old(self).deep_view(),
                ),
                Err(e) => r == Err::<(), Error>(e) && final(self).deep_view() == old(
                    self,
                ).deep_view(),
            },
    ;

    /// Whether the layer is active.
    fn is_active(&self) -> (r: Result<ActiveState, Error>)
        ensures
            match r {
                Ok(state) => Self::active_state_of(self.deep_view()) == Ok::<_, ErrorView>(state),
                Err(e) => Self::active_state_of(self.deep_view()) == Err::<ActiveState, _>(e@),
            },
    ;

    /// A name for the layer. Two layers may bear the same name.
    fn get_layer_name(&self) -> (r: String)
        ensures
            r@ == Self::name_of(self.deep_view()),
    ;

    /// The paths of the manifests that make up the layer.
    fn get_manifests(&self) -> (r: Vec<String>)
        ensures
            r.deep_view() == Self::manifests_of(self.deep_view()),
    ;

    /// The libraries of the layer, resolved as far as `files` tells.
    fn get_libraries(&self, files: &FsSnapshot) -> (r: Vec<String>)
        ensures
            r.deep_view() == Self::libraries_of(self.deep_view(), files@),
    ;

    /// This very layer, in words: its manifests and its library.
    fn describe(&self, simplifier: &PathSimplifier) -> (r: String)
        ensures
            r@ == Self::description_of(self.deep_view(), simplifier@),
    ;
}

/// The system that runtimes and layers are installed on. A build has one.
pub trait Platform {
    /// The platform's runtimes.
    type PlatformRuntimeType: PlatformRuntime;

    /// What the platform holds active, taken once and compared against
    /// every runtime.
    type PlatformActiveRuntimeData: DeepView;

    /// The platform's API layers.
    type PlatformApiLayerType: PlatformApiLayer;

    /// The runtimes that a pass finds, given the extra paths to look at.
    spec fn available_runtimes(&self, extra_paths: Seq<Seq<char>>) -> Result<
        (Seq<<Self::PlatformRuntimeType as DeepView>::V>, Seq<(Seq<char>, ErrorView)>),
        ErrorView,
    >;

    /// The API layers that a pass finds, given the extra paths to look at.
    spec fn available_api_layers(&self, extra_paths: Seq<Seq<char>>) -> Result<
        (Seq<<Self::PlatformApiLayerType as DeepView>::V>, Seq<(Seq<char>, ErrorView)>),
        ErrorView,
    >;

    /// The manifests of the runtimes that are active.
    spec fn active_runtime_manifests(&self) -> Seq<Seq<char>>;

    /// The manifests of the API layers that are active.
    spec fn active_api_layer_manifests(&self) -> Seq<Seq<char>>;

    /// What the platform holds active.
    spec fn active_runtime_data(&self) -> <Self::PlatformActiveRuntimeData as DeepView>::V;

    /// How a runtime stands towards what is held active.
    spec fn runtime_active_state(
        runtime: <Self::PlatformRuntimeType as DeepView>::V,
        active_data: <Self::PlatformActiveRuntimeData as DeepView>::V,
    ) -> ActiveState;

    /// How an API layer stands.
    spec fn api_layer_active_state(layer: <Self::PlatformApiLayerType as DeepView>::V) -> ActiveState;

    /// All the runtimes that can be found.
    fn find_available_runtimes(&self, extra_paths: &Vec<String>) -> (r: Result<
        (Vec<Self::PlatformRuntimeType>, Vec<ManifestError>),
        Error,
    >)
        ensures
            pass_view(r) == self.available_runtimes(extra_paths.deep_view()),
    ;

    /// All the API layers that can be found.
    fn find_available_api_layers(&self, extra_paths: &Vec<String>) -> (r: Result<
        (Vec<Self::PlatformApiLayerType>, Vec<ManifestError>),
        Error,
    >)
        ensures
            pass_view(r) == self.available_api_layers(extra_paths.deep_view()),
    ;

    /// The manifests of the active runtimes; there may be one for each
    /// architecture.
    fn get_active_runtime_manifests(&self) -> (r: Vec<String>)
        ensures
            r.deep_view() == self.active_runtime_manifests(),
    ;

    /// The manifests of the active API layers.
    fn get_active_api_layer_manifests(&self) -> (r: Vec<String>)
        ensures
            r.deep_view() == self.active_api_layer_manifests(),
    ;

    /// What is active now, to hold each known runtime against.
    fn get_active_runtime_data(&self) -> (r: Self::PlatformActiveRuntimeData)
        ensures
            r.deep_view() == self.active_runtime_data(),
    ;

    /// Whether the runtime is marked active. More than a `bool`: a platform
    /// may have one active runtime for each architecture.
    fn get_runtime_active_state(
        &self,
        runtime: &Self::PlatformRuntimeType,
        active_data: &Self::PlatformActiveRuntimeData,
    ) -> (r: ActiveState)
        ensures
            r == Self::runtime_active_state(runtime.deep_view(), active_data.deep_view()),
    ;

    /// Whether the API layer is marked active.
    fn get_api_layer_active_state(&self, layer: &Self::PlatformApiLayerType) -> (r: ActiveState)
        ensures
            r == Self::api_layer_active_state(layer.deep_view()),
    ;
}

} // verus!
