//! The state of an application that shows what is installed: what a pass
//! found, and the paths that the user added.

use crate::error::{Error, ErrorView, ManifestError};
use crate::platform::Platform;
use crate::unique::{
    distinct_keys, first_by_key, first_occurrences, has_key, lemma_first_by_key_distinct,
    lemma_first_by_key_keeps_prefix, lemma_first_by_key_of_images, manifests_key,
    unique_by_manifests, unique_strings, view_manifests_key,
};
use vstd::prelude::*;

verus! {

/// What is kept from one session to the next: the extra paths that the user
/// gave, in the order they were first given.
#[derive(Debug)]
pub struct PersistentAppState {
    pub extra_paths: Vec<String>,
}

impl View for PersistentAppState {
    type V = Seq<Seq<char>>;

    open spec fn view(&self) -> Seq<Seq<char>> {
        self.extra_paths.deep_view()
    }
}

impl Default for PersistentAppState {
    fn default() -> (r: Self)
        ensures
            r@ == Seq::<Seq<char>>::empty(),
    {
        let r = PersistentAppState { extra_paths: Vec::new() };
        assert(r@ =~= Seq::<Seq<char>>::empty());
        r
    }
}

/// The extra paths after `new` were given: nothing changes where none were;
/// else the new ones follow the old, and of equal paths the first stays.
pub open spec fn appended_paths(old: Seq<Seq<char>>, new: Seq<Seq<char>>) -> Seq<Seq<char>> {
    if new.len() == 0 {
        old
    } else {
        first_occurrences(old + new)
    }
}

/// The extra paths that a pass looks at, given what is kept, if anything.
pub open spec fn extra_paths_of(persistent_state: Option<&PersistentAppState>) -> Seq<Seq<char>> {
    match persistent_state {
        Some(state) => state@,
        None => Seq::empty(),
    }
}

impl PersistentAppState {
    /// Takes in paths that the user gave.
    pub fn append_new_extra_paths(&mut self, new_extra_paths: Vec<String>)
        ensures
            final(self)@ == appended_paths(old(self)@, new_extra_paths.deep_view()),
    {
        if new_extra_paths.len() > 0 {
            let mut new_extra_paths = new_extra_paths;
            let mut all: Vec<String> = Vec::new();
            let ghost old_paths = self.extra_paths.deep_view();
            let ghost new_paths = new_extra_paths.deep_view();
            all.append(&mut self.extra_paths);
            all.append(&mut new_extra_paths);
            assert(all.deep_view() =~= old_paths + new_paths);
            self.extra_paths = unique_strings(all);
        }
    }

    /// The extra paths, in order.
    pub fn iterate_extra_paths(&self) -> (r: Vec<String>)
        ensures
            r.deep_view() == self@,
    {
        clone_paths(&self.extra_paths)
    }
}

/// A copy of a list of paths.
pub fn clone_paths(paths: &Vec<String>) -> (r: Vec<String>)
    ensures
        r.deep_view() == paths.deep_view(),
{
    let mut r: Vec<String> = Vec::new();
    let mut i: usize = 0;
    while i < paths.len()
        invariant
            i <= paths.len(),
            r.len() == i,
            forall|j: int| 0 <= j < i ==> r@[j]@ == paths@[j]@,
        decreases paths.len() - i,
    {
        r.push(paths[i].clone());
        i = i + 1;
    }
    assert(r.deep_view() =~= paths.deep_view());
    r
}

/// The extra paths that a pass looks at, given what is kept, if anything.
pub fn extra_paths(persistent_state: Option<&PersistentAppState>) -> (r: Vec<String>)
    ensures
        r.deep_view() == extra_paths_of(persistent_state),
{
    match persistent_state {
        Some(state) => state.iterate_extra_paths(),
        None => {
            let r: Vec<String> = Vec::new();
            assert(r.deep_view() =~= Seq::<Seq<char>>::empty());
            r
        },
    }
}

/// What an application shows, while nothing has failed as a whole.
pub struct AppState<T: Platform> {
    pub runtimes: Vec<T::PlatformRuntimeType>,
    pub api_layers: Vec<T::PlatformApiLayerType>,
    pub nonfatal_runtime_errors: Vec<ManifestError>,
    pub nonfatal_api_layer_errors: Vec<ManifestError>,
    pub active_runtime_data: T::PlatformActiveRuntimeData,
}

/// An [`AppState`] over mathematical values.
pub struct AppStateView<T: Platform> {
    pub runtimes: Seq<<T::PlatformRuntimeType as DeepView>::V>,
    pub api_layers: Seq<<T::PlatformApiLayerType as DeepView>::V>,
    pub nonfatal_runtime_errors: Seq<(Seq<char>, ErrorView)>,
    pub nonfatal_api_layer_errors: Seq<(Seq<char>, ErrorView)>,
    pub active_runtime_data: <T::PlatformActiveRuntimeData as DeepView>::V,
}

impl<T: Platform> View for AppState<T> {
    type V = AppStateView<T>;

    open spec fn view(&self) -> AppStateView<T> {
        AppStateView {
            runtimes: self.runtimes.deep_view(),
            api_layers: self.api_layers.deep_view(),
            nonfatal_runtime_errors: self.nonfatal_runtime_errors.deep_view(),
            nonfatal_api_layer_errors: self.nonfatal_api_layer_errors.deep_view(),
            active_runtime_data: self.active_runtime_data.deep_view(),
        }
    }
}

/// The outcome of making a state, over mathematical values.
pub open spec fn state_view<T: Platform>(r: Result<AppState<T>, Error>) -> Result<
    AppStateView<T>,
    ErrorView,
> {
    match r {
        Ok(state) => Ok(state@),
        Err(e) => Err(e@),
    }
}

/// The runtimes after a refresh: those that were there, as they stood, and
/// after them those that the pass found; of the runtimes with the same
/// manifests the first stays.
pub open spec fn refreshed_runtimes<T: Platform>(
    old: Seq<<T::PlatformRuntimeType as DeepView>::V>,
    found: Seq<<T::PlatformRuntimeType as DeepView>::V>,
) -> Seq<<T::PlatformRuntimeType as DeepView>::V> {
    first_by_key(old + found, view_manifests_key::<T::PlatformRuntimeType>())
}

/// The state that a pass over `platform` makes from nothing: what the pass
/// found, or the failure of the pass; that of the runtimes comes first.
pub open spec fn fresh_state<T: Platform>(platform: &T, extra_paths: Seq<Seq<char>>) -> Result<
    AppStateView<T>,
    ErrorView,
> {
    match platform.available_runtimes(extra_paths) {
        Err(e) => Err(e),
        Ok(runtimes) => match platform.available_api_layers(extra_paths) {
            Err(e) => Err(e),
            Ok(api_layers) => Ok(
                AppStateView {
                    runtimes: runtimes.0,
                    api_layers: api_layers.0,
                    nonfatal_runtime_errors: runtimes.1,
                    nonfatal_api_layer_errors: api_layers.1,
                    active_runtime_data: platform.active_runtime_data(),
                },
            ),
        },
    }
}

/// The state that a pass over `platform` makes of the state `old`: the
/// runtimes are merged, all else is as the pass found it.
pub open spec fn refreshed_state<T: Platform>(
    old: AppStateView<T>,
    platform: &T,
    extra_paths: Seq<Seq<char>>,
) -> Result<AppStateView<T>, ErrorView> {
    match fresh_state(platform, extra_paths) {
        Err(e) => Err(e),
        Ok(fresh) => Ok(
            AppStateView {
                runtimes: refreshed_runtimes::<T>(old.runtimes, fresh.runtimes),
                api_layers: fresh.api_layers,
                nonfatal_runtime_errors: fresh.nonfatal_runtime_errors,
                nonfatal_api_layer_errors: fresh.nonfatal_api_layer_errors,
                active_runtime_data: fresh.active_runtime_data,
            },
        ),
    }
}

impl<T: Platform> AppState<T> {
    /// Makes a state from nothing, with no extra paths.
    pub fn new(platform: &T) -> (r: Result<Self, Error>)
        ensures
            state_view(r) == fresh_state(platform, Seq::empty()),
    {
        let none: Vec<String> = Vec::new();
        assert(none.deep_view() =~= Seq::<Seq<char>>::empty());
        Self::from_pass(platform, &none)
    }

    /// Makes a state from nothing, with the extra paths that are kept.
    pub fn new_with_persistent_state(platform: &T, persistent_state: &PersistentAppState) -> (r:
        Result<Self, Error>)
        ensures
            state_view(r) == fresh_state(platform, persistent_state@),
    {
        let extra = persistent_state.iterate_extra_paths();
        Self::from_pass(platform, &extra)
    }

    /// One pass over the platform.
    fn from_pass(platform: &T, extra: &Vec<String>) -> (r: Result<Self, Error>)
        ensures
            state_view(r) == fresh_state(platform, extra.deep_view()),
    {
        let (runtimes, nonfatal_runtime_errors) = match platform.find_available_runtimes(extra) {
            Ok(found) => found,
            Err(e) => {
                return Err(e);
            },
        };
        let active_runtime_data = platform.get_active_runtime_data();
        let (api_layers, nonfatal_api_layer_errors) = match platform.find_available_api_layers(
            extra,
        ) {
            Ok(found) => found,
            Err(e) => {
                return Err(e);
            },
        };
        Ok(
            AppState {
                runtimes,
                api_layers,
                nonfatal_runtime_errors,
                nonfatal_api_layer_errors,
                active_runtime_data,
            },
        )
    }

    /// Brings a state up to date. The runtimes that were there keep their
    /// places; the API layers and the failures are those of the new pass.
    pub fn refresh(self, platform: &T, persistent_state: Option<&PersistentAppState>) -> (r:
        Result<Self, Error>)
        ensures
            state_view(r) == refreshed_state(self@, platform, extra_paths_of(persistent_state)),
    {
        let extra = extra_paths(persistent_state);
        let fresh = match Self::from_pass(platform, &extra) {
            Ok(fresh) => fresh,
            Err(e) => {
                return Err(e);
            },
        };
        let ghost old_views = self.runtimes.deep_view();
        let ghost new_views = fresh.runtimes.deep_view();
        let mut all = self.runtimes;
        let mut found = fresh.runtimes;
        all.append(&mut found);
        let ghost merged = all@;
        let runtimes = unique_by_manifests(all);
        proof {
            let image = |x: T::PlatformRuntimeType| x.deep_view();
            assert(all.deep_view() =~= old_views + new_views);
            assert(merged.map_values(image) =~= all.deep_view());
            assert(runtimes@.map_values(image) =~= runtimes.deep_view());
            lemma_first_by_key_of_images(
                merged,
                image,
                view_manifests_key::<T::PlatformRuntimeType>(),
                manifests_key::<T::PlatformRuntimeType>(),
            );
        }
        Ok(
            AppState {
                runtimes,
                api_layers: fresh.api_layers,
                nonfatal_runtime_errors: fresh.nonfatal_runtime_errors,
                nonfatal_api_layer_errors: fresh.nonfatal_api_layer_errors,
                active_runtime_data: fresh.active_runtime_data,
            },
        )
    }
}

/// A refresh keeps the order of what was there: where no two of the old
/// runtimes have the same manifests, the refreshed runtimes are the old ones,
/// each in its place, followed by those that the pass found and that are new,
/// in the order of the pass.
pub proof fn lemma_refresh_keeps_order<T: Platform>(
    old: Seq<<T::PlatformRuntimeType as DeepView>::V>,
    found: Seq<<T::PlatformRuntimeType as DeepView>::V>,
)
    requires
        distinct_keys(old, view_manifests_key::<T::PlatformRuntimeType>()),
    ensures
        refreshed_runtimes::<T>(old, found) == old + first_by_key(
            found.filter(
                |v: <T::PlatformRuntimeType as DeepView>::V|
                    !has_key(
                        old,
                        view_manifests_key::<T::PlatformRuntimeType>(),
                        view_manifests_key::<T::PlatformRuntimeType>()(v),
                    ),
            ),
            view_manifests_key::<T::PlatformRuntimeType>(),
        ),
        distinct_keys(
            refreshed_runtimes::<T>(old, found),
            view_manifests_key::<T::PlatformRuntimeType>(),
        ),
{
    lemma_first_by_key_keeps_prefix(old, found, view_manifests_key::<T::PlatformRuntimeType>());
    lemma_first_by_key_distinct(old + found, view_manifests_key::<T::PlatformRuntimeType>());
}

} // verus!
