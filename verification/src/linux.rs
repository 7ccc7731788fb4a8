//! The platform as Linux has it: manifests under the configuration
//! directories, a marker that points to the active runtime, and API layers
//! that are switched by their file extension.

use crate::activation::{Activation, ActivationRequest, ActivationView};
use crate::api_layer::{api_layer_name, BaseApiLayer};
use crate::discovery::{
    accept_candidates, coherent, discover, has_first_source, lemma_every_failure_reported,
    lemma_first_source_wins, lemma_one_entity_per_target, single_valued, Candidate,
    CandidateView, EntityView, Found,
};
use crate::error::{ActiveState, Error, ErrorView, ManifestError};
use crate::manifest::{indirection_arrow, manifest_of_read, read_view, Manifest, ManifestKind};
use crate::path_simplifier::{simplified, PathSimplifier};
use crate::paths::{
    extension, file_name, get_extension, get_file_name, has_file_name, join, join_paths,
    lemma_with_extension, lemma_with_own_extension, set_extension, valid_extension,
    with_extension,
};
use crate::platform::{Platform, PlatformApiLayer, PlatformRuntime};
use crate::runtime::{runtime_name, BaseRuntime};
use crate::snapshot::{
    canonical_of, leads_to_file, probe_of, DirEntry, FileKind, FileProbeView, FsSnapshot,
};
use crate::text::str_eq;
use crate::unique::{distinct_keys, view_manifests_key};
use vstd::prelude::*;

verus! {

/// The directory of OpenXR within a configuration directory.
pub open spec fn openxr() -> Seq<char> {
    "openxr"@
}

/// The major version of OpenXR, whose directory holds the manifests.
pub open spec fn openxr_major_version() -> Seq<char> {
    "1"@
}

/// The name of the marker that points to the active runtime.
pub open spec fn active_runtime_filename() -> Seq<char> {
    "active_runtime.json"@
}

/// The system-wide configuration directory.
pub open spec fn etc() -> Seq<char> {
    "/etc"@
}

/// Where manifests lie within a configuration directory.
pub open spec fn path_suffix() -> Seq<char> {
    join(openxr(), openxr_major_version())
}

/// `suffix` within the system-wide configuration directory.
pub open spec fn sysconfdir(suffix: Seq<char>) -> Seq<char> {
    join(etc(), suffix)
}

/// Where the manifests of implicit API layers lie.
pub open spec fn api_layer_suffix_implicit(suffix: Seq<char>) -> Seq<char> {
    join(suffix, "/api_layers/implicit.d"@)
}

/// Where the manifests of explicit API layers lie.
pub open spec fn api_layer_suffix_explicit(suffix: Seq<char>) -> Seq<char> {
    join(suffix, "/api_layers/explicit.d"@)
}

/// Whether `path` names the marker of the active runtime.
pub open spec fn names_active_runtime(path: Seq<char>) -> bool {
    file_name(path) == active_runtime_filename()
}

/// Where manifests lie within a configuration directory.
pub fn make_path_suffix() -> (r: String)
    ensures
        r@ == path_suffix(),
{
    join_paths("openxr", "1")
}

/// `suffix` within the system-wide configuration directory.
pub fn make_sysconfdir(suffix: &str) -> (r: String)
    ensures
        r@ == sysconfdir(suffix@),
{
    join_paths("/etc", suffix)
}

/// Where the manifests of implicit API layers lie.
pub fn make_api_layer_suffix_implicit(suffix: &str) -> (r: String)
    ensures
        r@ == api_layer_suffix_implicit(suffix@),
{
    join_paths(suffix, "/api_layers/implicit.d")
}

/// Where the manifests of explicit API layers lie.
pub fn make_api_layer_suffix_explicit(suffix: &str) -> (r: String)
    ensures
        r@ == api_layer_suffix_explicit(suffix@),
{
    join_paths(suffix, "/api_layers/explicit.d")
}

/// Whether `path` names the marker of the active runtime.
pub fn is_active_runtime_name(path: &str) -> (r: bool)
    ensures
        r == names_active_runtime(path@),
{
    str_eq(get_file_name(path).as_str(), "active_runtime.json")
}

/// The line that describes an entity: its manifest and its library, and
/// before them the path it was found under, where that is another path than
/// the manifest's.
pub open spec fn entity_description(v: EntityView, roots: Seq<(Seq<char>, Seq<char>)>) -> Seq<
    char,
> {
    let description = v.base.manifest.description(v.base.manifest_path, roots);
    if v.orig_path != v.base.manifest_path {
        simplified(roots, v.orig_path) + indirection_arrow() + description
    } else {
        description
    }
}

/// The libraries of an entity: the one its manifest names, where the file
/// system shows it, else as the manifest leads to it.
pub open spec fn entity_libraries(v: EntityView, files: Seq<FileProbeView>) -> Seq<Seq<char>> {
    seq![v.base.library(canonical_of(files, v.base.library_candidate()))]
}

/// An entity that loading gave, over mathematical strings.
pub open spec fn entity_of_read(
    kind: ManifestKind,
    orig_path: Seq<char>,
    canonical_path: Seq<char>,
    read: Result<Seq<char>, ErrorView>,
) -> Result<EntityView, ErrorView> {
    match crate::manifest::base_of_read(kind, canonical_path, read) {
        Ok(base) => Ok(EntityView { orig_path, base }),
        Err(e) => Err(e),
    }
}

/// A runtime on Linux: its manifest, and the path it was found under.
#[derive(Debug, PartialEq, Eq)]
pub struct LinuxRuntime {
    base: BaseRuntime,
    orig_path: String,
}

impl View for LinuxRuntime {
    type V = EntityView;

    closed spec fn view(&self) -> EntityView {
        EntityView { orig_path: self.orig_path@, base: self.base@ }
    }
}

impl DeepView for LinuxRuntime {
    type V = EntityView;

    open spec fn deep_view(&self) -> EntityView {
        self@
    }
}

impl LinuxRuntime {
    /// Loads the runtime whose manifest was found under `orig_path` and lies
    /// at `canonical_path`, from what reading it gave.
    pub fn new(orig_path: &str, canonical_path: &str, read: &Result<String, Error>) -> (r: Result<
        Self,
        Error,
    >)
        ensures
            match r {
                Ok(runtime) => entity_of_read(
                    ManifestKind::Runtime,
                    orig_path@,
                    canonical_path@,
                    read_view(*read),
                ) == Ok::<_, ErrorView>(runtime@),
                Err(e) => entity_of_read(
                    ManifestKind::Runtime,
                    orig_path@,
                    canonical_path@,
                    read_view(*read),
                ) == Err::<EntityView, _>(e@),
            },
    {
        match BaseRuntime::new(canonical_path, read) {
            Ok(base) => Ok(LinuxRuntime { base, orig_path: orig_path.to_owned() }),
            Err(e) => Err(e),
        }
    }

    /// The runtime that a discovery pass found.
    pub fn from_found(found: Found) -> (r: Self)
        ensures
            r@ == found@,
    {
        LinuxRuntime {
            base: BaseRuntime::from_manifest(found.manifest_path, found.manifest),
            orig_path: found.orig_path,
        }
    }

    /// The path the runtime was found under.
    pub fn orig_path(&self) -> (r: &str)
        ensures
            r@ == self@.orig_path,
    {
        self.orig_path.as_str()
    }

    /// The manifest of the runtime.
    pub fn base(&self) -> (r: &BaseRuntime)
        ensures
            r@ == self@.base,
    {
        &self.base
    }
}

impl PlatformRuntime for LinuxRuntime {
    open spec fn name_of(v: EntityView) -> Seq<char> {
        runtime_name(v.base)
    }

    open spec fn manifests_of(v: EntityView) -> Seq<Seq<char>> {
        seq![v.base.manifest_path]
    }

    open spec fn libraries_of(v: EntityView, files: Seq<FileProbeView>) -> Seq<Seq<char>> {
        entity_libraries(v, files)
    }

    open spec fn description_of(v: EntityView, roots: Seq<(Seq<char>, Seq<char>)>) -> Seq<char> {
        entity_description(v, roots)
    }

    open spec fn activation_of(v: EntityView, timestamp: u64) -> ActivationView {
        ActivationView::start(v.base.manifest_path, timestamp)
    }

    fn make_active(&self, timestamp: u64) -> (r: (Activation, ActivationRequest)) {
        Activation::start(self.base.get_manifest_path(), timestamp)
    }

    fn get_runtime_name(&self) -> (r: String) {
        self.base.get_runtime_name()
    }

    fn get_manifests(&self) -> (r: Vec<String>) {
        let r = vec![self.base.get_manifest_path().to_owned()];
        assert(r.deep_view() =~= seq![self@.base.manifest_path]);
        r
    }

    fn get_libraries(&self, files: &FsSnapshot) -> (r: Vec<String>) {
        let candidate = self.base.library_candidate();
        let path = self.base.resolve_library_path(files.canonical(candidate.as_str()));
        let r = vec![path];
        assert(r.deep_view() =~= entity_libraries(self@, files@));
        r
    }

    fn describe(&self, simplifier: &PathSimplifier) -> (r: String) {
        let description = self.base.describe_manifest(simplifier);
        if !str_eq(self.orig_path.as_str(), self.base.get_manifest_path()) {
            simplifier.simplify(self.orig_path.as_str()).concat(" → ").concat(
                description.as_str(),
            )
        } else {
            description
        }
    }
}

/// The extension that a manifest bears while its layer is switched off.
pub open spec fn disabled_extension() -> Seq<char> {
    "disabled"@
}

/// The extension that a manifest is given when its layer is switched on.
pub open spec fn enabled_extension() -> Seq<char> {
    "json"@
}

/// The path that the manifest at `path` is renamed to to switch its layer:
/// a disabled manifest gets the extension of a manifest, any other the
/// extension of a disabled one. A path without an extension stays.
pub open spec fn toggled_path(path: Seq<char>) -> Seq<char> {
    match extension(path) {
        Some(ext) => if ext == disabled_extension() {
            with_extension(path, enabled_extension())
        } else {
            with_extension(path, disabled_extension())
        },
        None => path,
    }
}

/// What is said where the state of a layer cannot be told.
pub open spec fn undetermined(name: Seq<char>, path: Seq<char>) -> Seq<char> {
    "Api Layer: '"@ + name + "', Path: '"@ + path + "'"@
}

/// Whether the layer whose manifest lies at `path` is active: it is unless
/// the manifest bears the extension of a disabled one. Without an extension
/// this cannot be told.
pub open spec fn layer_state(v: EntityView) -> Result<ActiveState, ErrorView> {
    match extension(v.orig_path) {
        Some(ext) => if ext == disabled_extension() {
            Ok(ActiveState::NotActive)
        } else {
            Ok(ActiveState::ActiveIndependentApiLayer)
        },
        None => Err(
            ErrorView::GetActiveError(undetermined(api_layer_name(v.base), v.orig_path)),
        ),
    }
}

/// An API layer on Linux: its manifest, and the path it was found under.
#[derive(Debug, PartialEq, Eq)]
pub struct LinuxApiLayer {
    base: BaseApiLayer,
    orig_path: String,
}

impl View for LinuxApiLayer {
    type V = EntityView;

    closed spec fn view(&self) -> EntityView {
        EntityView { orig_path: self.orig_path@, base: self.base@ }
    }
}

impl DeepView for LinuxApiLayer {
    type V = EntityView;

    open spec fn deep_view(&self) -> EntityView {
        self@
    }
}

impl LinuxApiLayer {
    /// Loads the layer whose manifest was found under `orig_path` and lies
    /// at `canonical_path`, from what reading it gave.
    pub fn new(orig_path: &str, canonical_path: &str, read: &Result<String, Error>) -> (r: Result<
        Self,
        Error,
    >)
        ensures
            match r {
                Ok(layer) => entity_of_read(
                    ManifestKind::ApiLayer,
                    orig_path@,
                    canonical_path@,
                    read_view(*read),
                ) == Ok::<_, ErrorView>(layer@),
                Err(e) => entity_of_read(
                    ManifestKind::ApiLayer,
                    orig_path@,
                    canonical_path@,
                    read_view(*read),
                ) == Err::<EntityView, _>(e@),
            },
    {
        match BaseApiLayer::new(canonical_path, read) {
            Ok(base) => Ok(LinuxApiLayer { base, orig_path: orig_path.to_owned() }),
            Err(e) => Err(e),
        }
    }

    /// The layer that a discovery pass found.
    pub fn from_found(found: Found) -> (r: Self)
        ensures
            r@ == found@,
    {
        LinuxApiLayer {
            base: BaseApiLayer::from_manifest(found.manifest_path, found.manifest),
            orig_path: found.orig_path,
        }
    }

    /// The path the layer was found under, or was last renamed to.
    pub fn orig_path(&self) -> (r: &str)
        ensures
            r@ == self@.orig_path,
    {
        self.orig_path.as_str()
    }

    /// The manifest of the layer.
    pub fn base(&self) -> (r: &BaseApiLayer)
        ensures
            r@ == self@.base,
    {
        &self.base
    }

    /// The path that the manifest is renamed to to switch the layer.
    pub fn toggle_target(&self) -> (r: String)
        ensures
            r@ == toggled_path(self@.orig_path),
    {
        match get_extension(self.orig_path.as_str()) {
            Some(ext) => if str_eq(ext.as_str(), "disabled") {
                set_extension(self.orig_path.as_str(), "json")
            } else {
                set_extension(self.orig_path.as_str(), "disabled")
            },
            None => self.orig_path.clone(),
        }
    }
}

impl PlatformApiLayer for LinuxApiLayer {
    open spec fn name_of(v: EntityView) -> Seq<char> {
        api_layer_name(v.base)
    }

    open spec fn manifests_of(v: EntityView) -> Seq<Seq<char>> {
        seq![v.base.manifest_path]
    }

    open spec fn libraries_of(v: EntityView, files: Seq<FileProbeView>) -> Seq<Seq<char>> {
        entity_libraries(v, files)
    }

    open spec fn description_of(v: EntityView, roots: Seq<(Seq<char>, Seq<char>)>) -> Seq<char> {
        entity_description(v, roots)
    }

    open spec fn toggle_source_of(v: EntityView) -> Seq<char> {
        v.orig_path
    }

    open spec fn toggle_target_of(v: EntityView) -> Seq<char> {
        toggled_path(v.orig_path)
    }

    open spec fn toggled(v: EntityView) -> EntityView {
        EntityView { orig_path: toggled_path(v.orig_path), ..v }
    }

    open spec fn active_state_of(v: EntityView) -> Result<ActiveState, ErrorView> {
        layer_state(v)
    }

    fn toggle_request(&self) -> (r: (String, String)) {
        (self.orig_path.clone(), self.toggle_target())
    }

    fn toggle_layer(&mut self, renamed: Result<(), Error>) -> (r: Result<(), Error>) {
        match renamed {
            Ok(_) => {
                let target = self.toggle_target();
                self.orig_path = target;
                Ok(())
            },
            Err(e) => Err(e),
        }
    }

    fn get_layer_name(&self) -> (r: String) {
        self.base.get_api_layer_name()
    }

    fn get_manifests(&self) -> (r: Vec<String>) {
        let r = vec![self.base.get_manifest_path().to_owned()];
        assert(r.deep_view() =~= seq![self@.base.manifest_path]);
        r
    }

    fn get_libraries(&self, files: &FsSnapshot) -> (r: Vec<String>) {
        let candidate = self.base.library_candidate();
        let path = self.base.resolve_library_path(files.canonical(candidate.as_str()));
        let r = vec![path];
        assert(r.deep_view() =~= entity_libraries(self@, files@));
        r
    }

    fn describe(&self, simplifier: &PathSimplifier) -> (r: String) {
        let description = self.base.describe_manifest(simplifier);
        if !str_eq(self.orig_path.as_str(), self.base.get_manifest_path()) {
            simplifier.simplify(self.orig_path.as_str()).concat(" → ").concat(
                description.as_str(),
            )
        } else {
            description
        }
    }

    fn is_active(&self) -> (r: Result<ActiveState, Error>) {
        match get_extension(self.orig_path.as_str()) {
            Some(ext) => if str_eq(ext.as_str(), "disabled") {
                Ok(ActiveState::NotActive)
            } else {
                Ok(ActiveState::ActiveIndependentApiLayer)
            },
            None => {
                let text = "Api Layer: '".to_owned().concat(
                    self.base.get_api_layer_name().as_str(),
                ).concat("', Path: '").concat(self.orig_path.as_str()).concat("'");
                Err(Error::GetActiveError(text))
            },
        }
    }
}

/// Of the files that the configuration directories hold, those that may be
/// runtime manifests: all but the marker of the active runtime.
pub open spec fn config_runtime_candidates(listed: Seq<Seq<char>>) -> Seq<Seq<char>> {
    listed.filter(|path: Seq<char>| !names_active_runtime(path))
}

/// Of the entries of the system-wide directory, those that may be runtime
/// manifests: files and links, but for the marker of the active runtime.
pub open spec fn sysconf_runtime_candidates(entries: Seq<(Seq<char>, FileKind)>) -> Seq<
    Seq<char>,
> {
    entries.filter(
        |entry: (Seq<char>, FileKind)| entry.1.is_file_or_link() && !names_active_runtime(entry.0),
    ).map_values(|entry: (Seq<char>, FileKind)| entry.0)
}

/// Of the files that the configuration directories hold, those that may be
/// API layer manifests: all of them.
pub open spec fn config_layer_candidates(listed: Seq<Seq<char>>) -> Seq<Seq<char>> {
    listed
}

/// Of the entries of the system-wide directory, those that may be API layer
/// manifests: the files.
pub open spec fn sysconf_layer_candidates(entries: Seq<(Seq<char>, FileKind)>) -> Seq<Seq<char>> {
    entries.filter(|entry: (Seq<char>, FileKind)| entry.1 == FileKind::File).map_values(
        |entry: (Seq<char>, FileKind)| entry.0,
    )
}

/// What stands where the platform may point at something active, the
/// weightiest first: the places in the user's configuration, which come
/// lightest first, are turned round; the system-wide place follows; what
/// does not lead to a file is left out; and each is resolved.
pub open spec fn active_targets(
    config_found: Seq<Seq<char>>,
    system_wide: Seq<char>,
    files: Seq<FileProbeView>,
) -> Seq<Seq<char>> {
    (config_found.reverse() + seq![system_wide]).filter(
        |path: Seq<char>| leads_to_file(files, path),
    ).filter_map(|path: Seq<char>| canonical_of(files, path))
}

/// The marker of the active runtime in the system-wide directory.
pub open spec fn system_marker() -> Seq<char> {
    sysconfdir(join(path_suffix(), active_runtime_filename()))
}

/// The directory of implicit API layers in the system-wide directory.
pub open spec fn system_layer_dir() -> Seq<char> {
    sysconfdir(api_layer_suffix_implicit(path_suffix()))
}

/// Of the files that the configuration directories hold, those that may be
/// runtime manifests.
pub fn find_potential_runtime_manifests_xdg(listed: &Vec<String>) -> (r: Vec<String>)
    ensures
        r.deep_view() == config_runtime_candidates(listed.deep_view()),
{
    let ghost keep = |path: Seq<char>| !names_active_runtime(path);
    let ghost all = listed.deep_view();
    let mut r: Vec<String> = Vec::new();
    let mut i: usize = 0;
    proof {
        reveal(Seq::filter);
        assert(all.take(0) =~= Seq::<Seq<char>>::empty());
        assert(r.deep_view() =~= all.take(0).filter(keep));
    }
    while i < listed.len()
        invariant
            i <= listed.len(),
            all == listed.deep_view(),
            keep == |path: Seq<char>| !names_active_runtime(path),
            r.deep_view() == all.take(i as int).filter(keep),
        decreases listed.len() - i,
    {
        proof {
            reveal(Seq::filter);
            assert(all.take(i + 1).drop_last() =~= all.take(i as int));
            assert(all.take(i + 1).last() == listed[i as int]@);
        }
        if !is_active_runtime_name(listed[i].as_str()) {
            let ghost before = r.deep_view();
            r.push(listed[i].clone());
            assert(r.deep_view() =~= before.push(listed[i as int]@));
        }
        i = i + 1;
    }
    assert(all.take(listed.len() as int) =~= all);
    r
}

/// Of the entries of the system-wide directory, those that may be runtime
/// manifests.
pub fn find_potential_runtime_manifests_sysconfdir(entries: &Vec<DirEntry>) -> (r: Vec<String>)
    ensures
        r.deep_view() == sysconf_runtime_candidates(entries.deep_view()),
{
    let ghost keep = |entry: (Seq<char>, FileKind)|
        entry.1.is_file_or_link() && !names_active_runtime(entry.0);
    let ghost path_of = |entry: (Seq<char>, FileKind)| entry.0;
    let ghost all = entries.deep_view();
    let mut r: Vec<String> = Vec::new();
    let mut i: usize = 0;
    proof {
        reveal(Seq::filter);
        assert(all.take(0) =~= Seq::<(Seq<char>, FileKind)>::empty());
        assert(r.deep_view() =~= all.take(0).filter(keep).map_values(path_of));
    }
    while i < entries.len()
        invariant
            i <= entries.len(),
            all == entries.deep_view(),
            keep == |entry: (Seq<char>, FileKind)|
                entry.1.is_file_or_link() && !names_active_runtime(entry.0),
            path_of == |entry: (Seq<char>, FileKind)| entry.0,
            r.deep_view() == all.take(i as int).filter(keep).map_values(path_of),
        decreases entries.len() - i,
    {
        proof {
            reveal(Seq::filter);
            assert(all.take(i + 1).drop_last() =~= all.take(i as int));
            assert(all.take(i + 1).last() == entries[i as int]@);
        }
        if entries[i].kind.file_or_link() && !is_active_runtime_name(entries[i].path.as_str()) {
            let ghost before = r.deep_view();
            r.push(entries[i].path.clone());
            assert(r.deep_view() =~= before.push(entries[i as int]@.0));
            assert(all.take(i as int).filter(keep).push(entries[i as int]@).map_values(path_of)
                =~= before.push(entries[i as int]@.0));
        }
        i = i + 1;
    }
    assert(all.take(entries.len() as int) =~= all);
    r
}

/// Of the files that the configuration directories hold, those that may be
/// API layer manifests.
pub fn find_potential_api_layer_manifests_xdg(listed: &Vec<String>) -> (r: Vec<String>)
    ensures
        r.deep_view() == config_layer_candidates(listed.deep_view()),
{
    crate::app_state::clone_paths(listed)
}

/// Of the entries of the system-wide directory, those that may be API layer
/// manifests.
pub fn find_potential_api_layer_manifests_sysconfdir(entries: &Vec<DirEntry>) -> (r: Vec<String>)
    ensures
        r.deep_view() == sysconf_layer_candidates(entries.deep_view()),
{
    let ghost keep = |entry: (Seq<char>, FileKind)| entry.1 == FileKind::File;
    let ghost path_of = |entry: (Seq<char>, FileKind)| entry.0;
    let ghost all = entries.deep_view();
    let mut r: Vec<String> = Vec::new();
    let mut i: usize = 0;
    proof {
        reveal(Seq::filter);
        assert(all.take(0) =~= Seq::<(Seq<char>, FileKind)>::empty());
        assert(r.deep_view() =~= all.take(0).filter(keep).map_values(path_of));
    }
    while i < entries.len()
        invariant
            i <= entries.len(),
            all == entries.deep_view(),
            keep == |entry: (Seq<char>, FileKind)| entry.1 == FileKind::File,
            path_of == |entry: (Seq<char>, FileKind)| entry.0,
            r.deep_view() == all.take(i as int).filter(keep).map_values(path_of),
        decreases entries.len() - i,
    {
        proof {
            reveal(Seq::filter);
            assert(all.take(i + 1).drop_last() =~= all.take(i as int));
            assert(all.take(i + 1).last() == entries[i as int]@);
        }
        let is_file = match entries[i].kind {
            FileKind::File => true,
            _ => false,
        };
        if is_file {
            let ghost before = r.deep_view();
            r.push(entries[i].path.clone());
            assert(r.deep_view() =~= before.push(entries[i as int]@.0));
            assert(all.take(i as int).filter(keep).push(entries[i as int]@).map_values(path_of)
                =~= before.push(entries[i as int]@.0));
        }
        i = i + 1;
    }
    assert(all.take(entries.len() as int) =~= all);
    r
}

/// What stands where the platform may point at something active, the
/// weightiest first. `config_found` are the places in the user's
/// configuration, lightest first; `system_wide` is the system's place.
pub fn possible_active(config_found: &Vec<String>, system_wide: String, files: &FsSnapshot) -> (r:
    Vec<String>)
    ensures
        r.deep_view() == active_targets(config_found.deep_view(), system_wide@, files@),
{
    let ghost found = config_found.deep_view();
    let mut places: Vec<String> = Vec::new();
    let mut i: usize = config_found.len();
    while i > 0
        invariant
            i <= config_found.len(),
            places.len() == config_found.len() - i,
            forall|k: int|
                0 <= k < places.len() ==> places@[k]@ == config_found@[config_found.len() - 1
                    - k]@,
        decreases i,
    {
        i = i - 1;
        places.push(config_found[i].clone());
    }
    places.push(system_wide);
    let ghost all = found.reverse() + seq![system_wide@];
    assert(places.deep_view() =~= all);
    let ghost keep = |path: Seq<char>| leads_to_file(files@, path);
    let ghost resolve = |path: Seq<char>| canonical_of(files@, path);
    let mut r: Vec<String> = Vec::new();
    let mut j: usize = 0;
    proof {
        reveal(Seq::filter);
        assert(all.take(0) =~= Seq::<Seq<char>>::empty());
        assert(r.deep_view() =~= all.take(0).filter(keep).filter_map(resolve));
    }
    while j < places.len()
        invariant
            j <= places.len(),
            all == places.deep_view(),
            keep == |path: Seq<char>| leads_to_file(files@, path),
            resolve == |path: Seq<char>| canonical_of(files@, path),
            r.deep_view() == all.take(j as int).filter(keep).filter_map(resolve),
        decreases places.len() - j,
    {
        proof {
            reveal(Seq::filter);
            assert(all.take(j + 1).drop_last() =~= all.take(j as int));
            assert(all.take(j + 1).last() == places[j as int]@);
        }
        if files.is_file(places[j].as_str()) {
            let ghost kept = all.take(j as int).filter(keep);
            proof {
                assert(kept.push(places[j as int]@).drop_last() =~= kept);
            }
            match files.canonical(places[j].as_str()) {
                Some(target) => {
                    let ghost before = r.deep_view();
                    r.push(target);
                    assert(r.deep_view() =~= before + seq![target@]);
                },
                None => {},
            }
        }
        j = j + 1;
    }
    assert(all.take(places.len() as int) =~= all);
    r
}

/// What was seen of a machine for one pass: the answers to what
/// [`LinuxPlatform::scan_plan`] asks for.
#[derive(Debug, PartialEq, Eq)]
pub struct LinuxObservations {
    /// The files in the runtime directories of the user's configuration.
    pub config_runtime_files: Vec<String>,
    /// The entries of the system-wide runtime directory.
    pub sysconf_runtime_entries: Vec<DirEntry>,
    /// The markers of the active runtime that exist in the user's
    /// configuration, the lightest first.
    pub config_active_markers: Vec<String>,
    /// The files in the layer directories of the user's configuration.
    pub config_layer_files: Vec<String>,
    /// The entries of the system-wide layer directory.
    pub sysconf_layer_entries: Vec<DirEntry>,
    /// The layer directories that exist in the user's configuration, the
    /// lightest first.
    pub config_layer_dirs: Vec<String>,
    /// What was seen at each path above, and at each extra path.
    pub files: FsSnapshot,
}

/// [`LinuxObservations`] over mathematical strings.
pub struct ObservationsView {
    pub config_runtime_files: Seq<Seq<char>>,
    pub sysconf_runtime_entries: Seq<(Seq<char>, FileKind)>,
    pub config_active_markers: Seq<Seq<char>>,
    pub config_layer_files: Seq<Seq<char>>,
    pub sysconf_layer_entries: Seq<(Seq<char>, FileKind)>,
    pub config_layer_dirs: Seq<Seq<char>>,
    pub files: Seq<FileProbeView>,
}

impl View for LinuxObservations {
    type V = ObservationsView;

    open spec fn view(&self) -> ObservationsView {
        ObservationsView {
            config_runtime_files: self.config_runtime_files.deep_view(),
            sysconf_runtime_entries: self.sysconf_runtime_entries.deep_view(),
            config_active_markers: self.config_active_markers.deep_view(),
            config_layer_files: self.config_layer_files.deep_view(),
            sysconf_layer_entries: self.sysconf_layer_entries.deep_view(),
            config_layer_dirs: self.config_layer_dirs.deep_view(),
            files: self.files@,
        }
    }
}

impl ObservationsView {
    /// Nothing seen.
    pub open spec fn empty() -> ObservationsView {
        ObservationsView {
            config_runtime_files: Seq::empty(),
            sysconf_runtime_entries: Seq::empty(),
            config_active_markers: Seq::empty(),
            config_layer_files: Seq::empty(),
            sysconf_layer_entries: Seq::empty(),
            config_layer_dirs: Seq::empty(),
            files: Seq::empty(),
        }
    }

    /// The manifests that the platform points at as active runtimes, the
    /// weightiest first.
    pub open spec fn active_runtimes(self) -> Seq<Seq<char>> {
        active_targets(self.config_active_markers, system_marker(), self.files)
    }

    /// The directories of implicit API layers that are there, the
    /// weightiest first.
    pub open spec fn active_api_layers(self) -> Seq<Seq<char>> {
        active_targets(self.config_layer_dirs, system_layer_dir(), self.files)
    }

    /// The paths at which a pass looks for runtimes, in the order in which
    /// it takes them: the user's configuration, the system's, what is active
    /// already, and last the extra paths.
    pub open spec fn runtime_paths(self, extra_paths: Seq<Seq<char>>) -> Seq<Seq<char>> {
        config_runtime_candidates(self.config_runtime_files) + sysconf_runtime_candidates(
            self.sysconf_runtime_entries,
        ) + self.active_runtimes() + extra_paths
    }

    /// The paths at which a pass looks for API layers, in the order in
    /// which it takes them.
    pub open spec fn api_layer_paths(self, extra_paths: Seq<Seq<char>>) -> Seq<Seq<char>> {
        config_layer_candidates(self.config_layer_files) + sysconf_layer_candidates(
            self.sysconf_layer_entries,
        ) + extra_paths
    }
}

/// The candidate that a path makes: none where the path was not seen to
/// lead anywhere; else the path, where it leads, and what loading gave.
pub open spec fn resolve(kind: ManifestKind, files: Seq<FileProbeView>, path: Seq<char>) -> Option<
    CandidateView,
> {
    match probe_of(files, path) {
        Some(probe) => match probe.canonical {
            Some(canonical_path) => Some(
                CandidateView {
                    orig_path: path,
                    canonical_path,
                    loaded: manifest_of_read(kind, probe.contents),
                },
            ),
            None => None,
        },
        None => None,
    }
}

/// The candidates that `paths` make, in their order.
pub open spec fn resolved(kind: ManifestKind, files: Seq<FileProbeView>, paths: Seq<Seq<char>>) -> Seq<
    CandidateView,
> {
    paths.filter_map(|path: Seq<char>| resolve(kind, files, path))
}

/// The candidates that `paths` make, in their order. A path that leads
/// nowhere makes none, and is no failure: search paths go stale.
pub fn resolve_candidates(kind: ManifestKind, files: &FsSnapshot, paths: &Vec<String>) -> (r: Vec<
    Candidate,
>)
    ensures
        r.deep_view() == resolved(kind, files@, paths.deep_view()),
{
    let ghost all = paths.deep_view();
    let ghost make = |path: Seq<char>| resolve(kind, files@, path);
    let mut r: Vec<Candidate> = Vec::new();
    let mut i: usize = 0;
    proof {
        assert(all.take(0) =~= Seq::<Seq<char>>::empty());
        assert(r.deep_view() =~= all.take(0).filter_map(make));
    }
    while i < paths.len()
        invariant
            i <= paths.len(),
            all == paths.deep_view(),
            make == |path: Seq<char>| resolve(kind, files@, path),
            r.deep_view() == all.take(i as int).filter_map(make),
        decreases paths.len() - i,
    {
        proof {
            assert(all.take(i + 1).drop_last() =~= all.take(i as int));
            assert(all.take(i + 1).last() == paths[i as int]@);
        }
        match files.find(paths[i].as_str()) {
            Some(probe) => match &probe.canonical {
                Some(target) => {
                    let ghost before = r.deep_view();
                    let candidate = Candidate {
                        orig_path: paths[i].clone(),
                        canonical_path: target.clone(),
                        loaded: Manifest::load(kind, &probe.contents),
                    };
                    r.push(candidate);
                    assert(r.deep_view() =~= before + seq![candidate@]);
                },
                None => {},
            },
            None => {},
        }
        i = i + 1;
    }
    assert(all.take(paths.len() as int) =~= all);
    r
}

/// What the platform holds active: the manifest that the weightiest marker
/// leads to, if any marker leads anywhere.
#[derive(Debug, PartialEq, Eq)]
pub struct LinuxActiveRuntimeData(Option<String>);

impl View for LinuxActiveRuntimeData {
    type V = Option<Seq<char>>;

    closed spec fn view(&self) -> Option<Seq<char>> {
        self.0.deep_view()
    }
}

impl DeepView for LinuxActiveRuntimeData {
    type V = Option<Seq<char>>;

    open spec fn deep_view(&self) -> Option<Seq<char>> {
        self@
    }
}

/// The first of `targets`, if there is one.
pub open spec fn first_of(targets: Seq<Seq<char>>) -> Option<Seq<char>> {
    if targets.len() > 0 {
        Some(targets[0])
    } else {
        None
    }
}

/// How a runtime stands towards what is held active: it is the active one
/// where the marker leads to its manifest.
pub open spec fn runtime_state(runtime: EntityView, active: Option<Seq<char>>) -> ActiveState {
    if active == Some(runtime.base.manifest_path) {
        ActiveState::ActiveIndependentRuntime
    } else {
        ActiveState::NotActive
    }
}

impl LinuxActiveRuntimeData {
    /// What is held active, given what stands at the markers, the
    /// weightiest first.
    pub fn new(targets: &Vec<String>) -> (r: Self)
        ensures
            r@ == first_of(targets.deep_view()),
    {
        if targets.len() > 0 {
            LinuxActiveRuntimeData(Some(targets[0].clone()))
        } else {
            LinuxActiveRuntimeData(None)
        }
    }

    /// The manifest that is held active.
    pub fn active_manifest(&self) -> (r: Option<&str>)
        ensures
            r.deep_view() == self@,
    {
        match &self.0 {
            Some(path) => Some(path.as_str()),
            None => None,
        }
    }

    /// How `runtime` stands towards what is held active.
    pub fn check_runtime(&self, runtime: &LinuxRuntime) -> (r: ActiveState)
        ensures
            r == runtime_state(runtime@, self@),
    {
        if let Some(active_path) = &self.0 {
            if str_eq(active_path.as_str(), runtime.base.get_manifest_path()) {
                return ActiveState::ActiveIndependentRuntime;
            }
        }
        ActiveState::NotActive
    }
}

/// Where to look on a machine, so that a pass can be run on what is seen.
#[derive(Debug, PartialEq, Eq)]
pub struct ScanPlan {
    /// List the files under this path in each configuration directory.
    pub config_runtime_dir: String,
    /// List the entries of this directory.
    pub sysconf_runtime_dir: String,
    /// Find this path in each configuration directory.
    pub config_active_marker: String,
    /// Look at this path.
    pub sysconf_active_marker: String,
    /// List the files under this path in each configuration directory, and
    /// find the path itself in each.
    pub config_layer_dir: String,
    /// List the entries of this directory, and look at it.
    pub sysconf_layer_dir: String,
}

/// The platform on Linux: where manifests lie, and what was seen there.
#[derive(Debug, PartialEq, Eq)]
pub struct LinuxPlatform {
    path_suffix: String,
    implicit_layer_suffix: String,
    explicit_layer_suffix: String,
    observed: LinuxObservations,
}

impl View for LinuxPlatform {
    type V = ObservationsView;

    closed spec fn view(&self) -> ObservationsView {
        self.observed@
    }
}

impl LinuxPlatform {
    /// The platform looks where Linux has its manifests.
    #[verifier::type_invariant]
    spec fn wf(&self) -> bool {
        &&& self.path_suffix@ == path_suffix()
        &&& self.implicit_layer_suffix@ == api_layer_suffix_implicit(path_suffix())
        &&& self.explicit_layer_suffix@ == api_layer_suffix_explicit(path_suffix())
    }

    /// The platform, with nothing seen yet.
    pub fn new() -> (r: Self)
        ensures
            r@ == ObservationsView::empty(),
    {
        let path_suffix = make_path_suffix();
        let implicit_layer_suffix = make_api_layer_suffix_implicit(path_suffix.as_str());
        let explicit_layer_suffix = make_api_layer_suffix_explicit(path_suffix.as_str());
        let observed = LinuxObservations {
            config_runtime_files: Vec::new(),
            sysconf_runtime_entries: Vec::new(),
            config_active_markers: Vec::new(),
            config_layer_files: Vec::new(),
            sysconf_layer_entries: Vec::new(),
            config_layer_dirs: Vec::new(),
            files: FsSnapshot::new(),
        };
        proof {
            assert(observed.config_runtime_files.deep_view() =~= Seq::empty());
            assert(observed.sysconf_runtime_entries.deep_view() =~= Seq::empty());
            assert(observed.config_active_markers.deep_view() =~= Seq::empty());
            assert(observed.config_layer_files.deep_view() =~= Seq::empty());
            assert(observed.sysconf_layer_entries.deep_view() =~= Seq::empty());
            assert(observed.config_layer_dirs.deep_view() =~= Seq::empty());
        }
        LinuxPlatform { path_suffix, implicit_layer_suffix, explicit_layer_suffix, observed }
    }

    /// Where the manifests of explicit API layers lie. No pass looks there.
    pub fn explicit_layer_suffix(&self) -> (r: &str)
        ensures
            r@ == api_layer_suffix_explicit(path_suffix()),
    {
        proof {
            use_type_invariant(self);
        }
        self.explicit_layer_suffix.as_str()
    }

    /// Where to look, so that `observe` can be told what is there.
    pub fn scan_plan(&self) -> (r: ScanPlan)
        ensures
            r.config_runtime_dir@ == path_suffix(),
            r.sysconf_runtime_dir@ == sysconfdir(path_suffix()),
            r.config_active_marker@ == join(path_suffix(), active_runtime_filename()),
            r.sysconf_active_marker@ == system_marker(),
            r.config_layer_dir@ == api_layer_suffix_implicit(path_suffix()),
            r.sysconf_layer_dir@ == system_layer_dir(),
    {
        proof {
            use_type_invariant(self);
        }
        let marker = join_paths(self.path_suffix.as_str(), "active_runtime.json");
        ScanPlan {
            config_runtime_dir: self.path_suffix.clone(),
            sysconf_runtime_dir: make_sysconfdir(self.path_suffix.as_str()),
            sysconf_active_marker: make_sysconfdir(marker.as_str()),
            config_active_marker: marker,
            config_layer_dir: self.implicit_layer_suffix.clone(),
            sysconf_layer_dir: make_sysconfdir(self.implicit_layer_suffix.as_str()),
        }
    }

    /// Takes in what was seen of the machine. Every pass from now on runs
    /// on this.
    pub fn observe(&mut self, observed: LinuxObservations)
        ensures
            final(self)@ == observed@,
    {
        proof {
            use_type_invariant(&*self);
        }
        self.observed = observed;
    }

    /// What was seen of the machine.
    pub fn observed(&self) -> (r: &LinuxObservations)
        ensures
            r@ == self@,
    {
        &self.observed
    }
}

/// The manifests that the platform points at as active runtimes, the
/// weightiest first.
pub fn possible_active_runtimes(observed: &LinuxObservations) -> (r: Vec<String>)
    ensures
        r.deep_view() == observed@.active_runtimes(),
{
    let marker = join_paths(make_path_suffix().as_str(), "active_runtime.json");
    possible_active(
        &observed.config_active_markers,
        make_sysconfdir(marker.as_str()),
        &observed.files,
    )
}

/// The directories of implicit API layers that are there, the weightiest
/// first.
pub fn possible_active_api_layers(observed: &LinuxObservations) -> (r: Vec<String>)
    ensures
        r.deep_view() == observed@.active_api_layers(),
{
    let suffix = make_api_layer_suffix_implicit(make_path_suffix().as_str());
    possible_active(&observed.config_layer_dirs, make_sysconfdir(suffix.as_str()), &observed.files)
}

/// Whether what stands at `path` counts as an active API layer: it bears an
/// extension, and not that of a disabled manifest.
pub open spec fn counts_as_active_layer(path: Seq<char>) -> bool {
    match extension(path) {
        Some(ext) => ext != disabled_extension(),
        None => false,
    }
}

/// The runtimes that a discovery pass found.
fn runtimes_of(found: Vec<Found>) -> (r: Vec<LinuxRuntime>)
    ensures
        r.deep_view() == found.deep_view(),
{
    let ghost all = found.deep_view();
    let mut r: Vec<LinuxRuntime> = Vec::new();
    for entity in it: found.into_iter()
        invariant
            all == it.seq().map_values(|f: Found| f@),
            r.len() == it.index(),
            forall|k: int| 0 <= k < r.len() ==> r@[k]@ == all[k],
    {
        r.push(LinuxRuntime::from_found(entity));
    }
    assert(r.deep_view() =~= all);
    r
}

/// The API layers that a discovery pass found.
fn api_layers_of(found: Vec<Found>) -> (r: Vec<LinuxApiLayer>)
    ensures
        r.deep_view() == found.deep_view(),
{
    let ghost all = found.deep_view();
    let mut r: Vec<LinuxApiLayer> = Vec::new();
    for entity in it: found.into_iter()
        invariant
            all == it.seq().map_values(|f: Found| f@),
            r.len() == it.index(),
            forall|k: int| 0 <= k < r.len() ==> r@[k]@ == all[k],
    {
        r.push(LinuxApiLayer::from_found(entity));
    }
    assert(r.deep_view() =~= all);
    r
}

impl Platform for LinuxPlatform {
    type PlatformRuntimeType = LinuxRuntime;

    type PlatformActiveRuntimeData = LinuxActiveRuntimeData;

    type PlatformApiLayerType = LinuxApiLayer;

    open spec fn available_runtimes(&self, extra_paths: Seq<Seq<char>>) -> Result<
        (Seq<EntityView>, Seq<(Seq<char>, ErrorView)>),
        ErrorView,
    > {
        Ok(
            discover(
                resolved(ManifestKind::Runtime, self@.files, self@.runtime_paths(extra_paths)),
            ),
        )
    }

    open spec fn available_api_layers(&self, extra_paths: Seq<Seq<char>>) -> Result<
        (Seq<EntityView>, Seq<(Seq<char>, ErrorView)>),
        ErrorView,
    > {
        Ok(
            discover(
                resolved(ManifestKind::ApiLayer, self@.files, self@.api_layer_paths(extra_paths)),
            ),
        )
    }

    open spec fn active_runtime_manifests(&self) -> Seq<Seq<char>> {
        match first_of(self@.active_runtimes()) {
            Some(path) => seq![path],
            None => Seq::empty(),
        }
    }

    open spec fn active_api_layer_manifests(&self) -> Seq<Seq<char>> {
        self@.active_api_layers().filter(|path: Seq<char>| counts_as_active_layer(path))
    }

    open spec fn active_runtime_data(&self) -> Option<Seq<char>> {
        first_of(self@.active_runtimes())
    }

    open spec fn runtime_active_state(runtime: EntityView, active_data: Option<Seq<char>>) -> ActiveState {
        runtime_state(runtime, active_data)
    }

    open spec fn api_layer_active_state(layer: EntityView) -> ActiveState {
        match layer_state(layer) {
            Ok(state) => state,
            Err(_) => ActiveState::NotActive,
        }
    }

    fn find_available_runtimes(&self, extra_paths: &Vec<String>) -> (r: Result<
        (Vec<LinuxRuntime>, Vec<ManifestError>),
        Error,
    >) {
        let observed = &self.observed;
        let mut paths = find_potential_runtime_manifests_xdg(&observed.config_runtime_files);
        let mut system = find_potential_runtime_manifests_sysconfdir(
            &observed.sysconf_runtime_entries,
        );
        // what is active comes nearly last: it counts only where it names a
        // runtime that was not found before
        let mut active = possible_active_runtimes(observed);
        let mut extra = crate::app_state::clone_paths(extra_paths);
        let ghost expected = self@.runtime_paths(extra_paths.deep_view());
        let ghost a = paths.deep_view();
        let ghost b = system.deep_view();
        let ghost c = active.deep_view();
        let ghost d = extra.deep_view();
        paths.append(&mut system);
        paths.append(&mut active);
        paths.append(&mut extra);
        assert(paths.deep_view() =~= a + b + c + d);
        let candidates = resolve_candidates(ManifestKind::Runtime, &observed.files, &paths);
        let (found, nonfatal_errors) = accept_candidates(candidates);
        Ok((runtimes_of(found), nonfatal_errors))
    }

    fn find_available_api_layers(&self, extra_paths: &Vec<String>) -> (r: Result<
        (Vec<LinuxApiLayer>, Vec<ManifestError>),
        Error,
    >) {
        let observed = &self.observed;
        let mut paths = find_potential_api_layer_manifests_xdg(&observed.config_layer_files);
        let mut system = find_potential_api_layer_manifests_sysconfdir(
            &observed.sysconf_layer_entries,
        );
        let mut extra = crate::app_state::clone_paths(extra_paths);
        let ghost a = paths.deep_view();
        let ghost b = system.deep_view();
        let ghost d = extra.deep_view();
        paths.append(&mut system);
        paths.append(&mut extra);
        assert(paths.deep_view() =~= a + b + d);
        let candidates = resolve_candidates(ManifestKind::ApiLayer, &observed.files, &paths);
        let (found, nonfatal_errors) = accept_candidates(candidates);
        Ok((api_layers_of(found), nonfatal_errors))
    }

    fn get_active_runtime_manifests(&self) -> (r: Vec<String>) {
        let targets = possible_active_runtimes(&self.observed);
        let mut r: Vec<String> = Vec::new();
        if targets.len() > 0 {
            r.push(targets[0].clone());
            assert(r.deep_view() =~= seq![targets.deep_view()[0]]);
        } else {
            assert(r.deep_view() =~= Seq::<Seq<char>>::empty());
        }
        r
    }

    fn get_active_api_layer_manifests(&self) -> (r: Vec<String>) {
        let targets = possible_active_api_layers(&self.observed);
        let ghost keep = |path: Seq<char>| counts_as_active_layer(path);
        let ghost all = targets.deep_view();
        let mut r: Vec<String> = Vec::new();
        let mut i: usize = 0;
        proof {
            reveal(Seq::filter);
            assert(all.take(0) =~= Seq::<Seq<char>>::empty());
            assert(r.deep_view() =~= all.take(0).filter(keep));
        }
        while i < targets.len()
            invariant
                i <= targets.len(),
                all == targets.deep_view(),
                keep == |path: Seq<char>| counts_as_active_layer(path),
                r.deep_view() == all.take(i as int).filter(keep),
            decreases targets.len() - i,
        {
            proof {
                reveal(Seq::filter);
                assert(all.take(i + 1).drop_last() =~= all.take(i as int));
                assert(all.take(i + 1).last() == targets[i as int]@);
            }
            let active = match get_extension(targets[i].as_str()) {
                Some(ext) => !str_eq(ext.as_str(), "disabled"),
                None => false,
            };
            if active {
                let ghost before = r.deep_view();
                r.push(targets[i].clone());
                assert(r.deep_view() =~= before.push(targets[i as int]@));
            }
            i = i + 1;
        }
        assert(all.take(targets.len() as int) =~= all);
        r
    }

    fn get_active_runtime_data(&self) -> (r: LinuxActiveRuntimeData) {
        LinuxActiveRuntimeData::new(&possible_active_runtimes(&self.observed))
    }

    fn get_runtime_active_state(
        &self,
        runtime: &LinuxRuntime,
        active_data: &LinuxActiveRuntimeData,
    ) -> (r: ActiveState) {
        active_data.check_runtime(runtime)
    }

    fn get_api_layer_active_state(&self, layer: &LinuxApiLayer) -> (r: ActiveState) {
        match layer.is_active() {
            Ok(state) => state,
            Err(_) => ActiveState::NotActive,
        }
    }
}

/// The platform of this build, with nothing seen yet.
pub fn make_platform() -> (r: LinuxPlatform)
    ensures
        r@ == ObservationsView::empty(),
{
    LinuxPlatform::new()
}

/// The two extensions between which a manifest is renamed can stand as
/// extensions, and differ.
pub proof fn lemma_toggle_extensions()
    ensures
        valid_extension(enabled_extension()),
        valid_extension(disabled_extension()),
        enabled_extension() != disabled_extension(),
{
    reveal_strlit("json");
    reveal_strlit("disabled");
    assert(enabled_extension().len() == 4);
    assert(disabled_extension().len() == 8);
}

/// Switching a layer twice gives back the path it had, where that path bears
/// one of the two extensions between which manifests are renamed, or none.
pub proof fn lemma_toggle_twice_restores_path(path: Seq<char>)
    requires
        extension(path) is None || extension(path) == Some(enabled_extension()) || extension(path)
            == Some(disabled_extension()),
    ensures
        toggled_path(toggled_path(path)) == path,
{
    lemma_toggle_extensions();
    if extension(path) is Some {
        let ext = extension(path).unwrap();
        let other = if ext == disabled_extension() {
            enabled_extension()
        } else {
            disabled_extension()
        };
        assert(has_file_name(path));
        lemma_with_extension(path, other);
        let there = with_extension(path, other);
        assert(toggled_path(path) == there);
        assert(extension(there) == Some(other));
        assert(toggled_path(there) == with_extension(there, ext));
        lemma_with_extension(there, ext);
        lemma_with_extension(path, ext);
        lemma_with_own_extension(path);
        assert(with_extension(there, ext) == crate::paths::stem(there) + seq!['.'] + ext);
        assert(with_extension(path, ext) == crate::paths::stem(path) + seq!['.'] + ext);
    }
}

/// Switching a layer twice gives back the state it had, whatever its path.
pub proof fn lemma_toggle_twice_restores_state(v: EntityView)
    ensures
        layer_state(LinuxApiLayer::toggled(LinuxApiLayer::toggled(v))) == layer_state(v),
        LinuxApiLayer::toggled(LinuxApiLayer::toggled(v)).base == v.base,
{
    lemma_toggle_extensions();
    let path = v.orig_path;
    if extension(path) is Some {
        let ext = extension(path).unwrap();
        let other = if ext == disabled_extension() {
            enabled_extension()
        } else {
            disabled_extension()
        };
        lemma_with_extension(path, other);
        let there = with_extension(path, other);
        let back = if other == disabled_extension() {
            enabled_extension()
        } else {
            disabled_extension()
        };
        lemma_with_extension(there, back);
    }
}

/// Switching a layer once changes its state, where the state can be told.
pub proof fn lemma_toggle_switches(v: EntityView)
    requires
        layer_state(v) is Ok,
    ensures
        layer_state(LinuxApiLayer::toggled(v)) is Ok,
        layer_state(LinuxApiLayer::toggled(v)) != layer_state(v),
{
    lemma_toggle_extensions();
    let path = v.orig_path;
    let ext = extension(path).unwrap();
    let other = if ext == disabled_extension() {
        enabled_extension()
    } else {
        disabled_extension()
    };
    lemma_with_extension(path, other);
}

/// No two runtimes of a pass have the same manifests.
pub proof fn lemma_found_runtimes_distinct(platform: &LinuxPlatform, extra_paths: Seq<Seq<char>>)
    ensures
        distinct_keys(
            platform.available_runtimes(extra_paths)->Ok_0.0,
            view_manifests_key::<LinuxRuntime>(),
        ),
{
    let candidates = resolved(
        ManifestKind::Runtime,
        platform@.files,
        platform@.runtime_paths(extra_paths),
    );
    lemma_one_entity_per_target(candidates);
    let found = discover(candidates).0;
    let key = view_manifests_key::<LinuxRuntime>();
    assert forall|i: int, j: int|
        #![trigger found[i], found[j]]
        0 <= i < j < found.len() implies key(found[i]) != key(found[j]) by {
        assert(found[i].base.manifest_path != found[j].base.manifest_path);
        assert(key(found[i])[0] == found[i].base.manifest_path);
        assert(key(found[j])[0] == found[j].base.manifest_path);
    }
}

/// A candidate is made of its path alone: two candidates that were found
/// under one path are the same.
pub proof fn lemma_resolved_single_valued(
    kind: ManifestKind,
    files: Seq<FileProbeView>,
    paths: Seq<Seq<char>>,
)
    ensures
        single_valued(resolved(kind, files, paths)),
        forall|i: int|
            0 <= i < resolved(kind, files, paths).len() ==> resolve(
                kind,
                files,
                (#[trigger] resolved(kind, files, paths)[i]).orig_path,
            ) == Some(resolved(kind, files, paths)[i]),
{
    let make = |path: Seq<char>| resolve(kind, files, path);
    let candidates = resolved(kind, files, paths);
    assert forall|i: int| 0 <= i < candidates.len() implies resolve(
        kind,
        files,
        (#[trigger] candidates[i]).orig_path,
    ) == Some(candidates[i]) by {
        assert(candidates.contains(candidates[i]));
        paths.lemma_filter_map_contains(make, candidates[i]);
        let path = choose|path: Seq<char>| #[trigger]
            paths.contains(path) && make(path) == Some(candidates[i]);
        assert(candidates[i].orig_path == path);
    }
}

/// Of the paths that lead to one manifest, the first that a pass takes is
/// the one under which the runtime is found: where the file system was at
/// rest while it was looked at, every runtime of a pass was found under a
/// path before which the pass took no path to the same manifest.
pub proof fn lemma_first_path_wins(platform: &LinuxPlatform, extra_paths: Seq<Seq<char>>)
    requires
        coherent(
            resolved(ManifestKind::Runtime, platform@.files, platform@.runtime_paths(extra_paths)),
        ),
    ensures
        forall|k: int|
            0 <= k < platform.available_runtimes(extra_paths)->Ok_0.0.len() ==> has_first_source(
                resolved(
                    ManifestKind::Runtime,
                    platform@.files,
                    platform@.runtime_paths(extra_paths),
                ),
                #[trigger] platform.available_runtimes(extra_paths)->Ok_0.0[k],
            ),
{
    let paths = platform@.runtime_paths(extra_paths);
    lemma_resolved_single_valued(ManifestKind::Runtime, platform@.files, paths);
    lemma_first_source_wins(resolved(ManifestKind::Runtime, platform@.files, paths));
}

/// A manifest that cannot be loaded is reported, and the pass goes on: where
/// the file system was at rest while it was looked at, every path of a pass
/// that leads to a manifest that fails to load is reported with the failure.
pub proof fn lemma_failures_are_reported(
    kind: ManifestKind,
    files: Seq<FileProbeView>,
    paths: Seq<Seq<char>>,
    j: int,
)
    requires
        coherent(resolved(kind, files, paths)),
        0 <= j < resolved(kind, files, paths).len(),
        resolved(kind, files, paths)[j].loaded is Err,
    ensures
        discover(resolved(kind, files, paths)).1.contains(
            (
                resolved(kind, files, paths)[j].orig_path,
                resolved(kind, files, paths)[j].loaded->Err_0,
            ),
        ),
{
    lemma_resolved_single_valued(kind, files, paths);
    lemma_every_failure_reported(resolved(kind, files, paths), j);
}

} // verus!
