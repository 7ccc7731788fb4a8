//! Manifests: the JSON files that describe a runtime or an API layer.

use crate::error::{Error, ErrorView};
use crate::json::{json_string_at, json_strings, json_text_strings, parse_json};
use crate::path_simplifier::{simplified, PathSimplifier};
use crate::text::{append, find_first, first_index_of, lemma_first_index_of, str_eq};
use vstd::prelude::*;

verus! {

/// What stands between a manifest and the library it names, when shown.
pub open spec fn indirection_arrow() -> Seq<char> {
    " → "@
}

/// What is said of a library that the dynamic linker has to find.
pub open spec fn search_path_note() -> Seq<char> {
    " in the dynamic library search path"@
}

/// The major version of the manifest format that this engine reads.
pub open spec fn supported_major() -> Seq<char> {
    "1"@
}

/// What a manifest describes.
#[derive(Debug, Clone, Copy, PartialEq, Eq, Structural)]
pub enum ManifestKind {
    Runtime,
    ApiLayer,
}

impl ManifestKind {
    /// The member of the document that holds the description.
    pub open spec fn section(self) -> Seq<char> {
        match self {
            ManifestKind::Runtime => "runtime"@,
            ManifestKind::ApiLayer => "api_layer"@,
        }
    }

    /// JSON Pointer to the library path.
    pub open spec fn library_path_pointer(self) -> Seq<char> {
        match self {
            ManifestKind::Runtime => "/runtime/library_path"@,
            ManifestKind::ApiLayer => "/api_layer/library_path"@,
        }
    }

    /// JSON Pointer to the declared name.
    pub open spec fn name_pointer(self) -> Seq<char> {
        match self {
            ManifestKind::Runtime => "/runtime/name"@,
            ManifestKind::ApiLayer => "/api_layer/name"@,
        }
    }

    /// Whether a manifest of this kind must declare a name.
    pub open spec fn name_required(self) -> bool {
        self == ManifestKind::ApiLayer
    }
}

/// JSON Pointer to the format version.
pub open spec fn version_pointer() -> Seq<char> {
    "/file_format_version"@
}

/// The part of a dotted version before its first dot.
pub open spec fn major_component(version: Seq<char>) -> Seq<char> {
    version.take(first_index_of(version, '.'))
}

/// Whether a manifest with this format version can be read.
pub open spec fn version_supported(version: Seq<char>) -> bool {
    major_component(version) == supported_major()
}

/// Whether a manifest with this format version can be read.
pub fn is_version_supported(version: &str) -> (r: bool)
    ensures
        r == version_supported(version@),
{
    proof {
        lemma_first_index_of(version@, '.');
    }
    let dot: usize = find_first(version, '.');
    assert(version@.take(dot as int) =~= version@.subrange(0, dot as int));
    str_eq(version.substring_char(0, dot), "1")
}

/// A parsed manifest.
#[derive(Debug, PartialEq, Eq)]
pub struct Manifest {
    kind: ManifestKind,
    file_format_version: String,
    library_path: String,
    name: Option<String>,
}

/// A [`Manifest`] over mathematical strings.
pub struct ManifestView {
    pub kind: ManifestKind,
    pub file_format_version: Seq<char>,
    pub library_path: Seq<char>,
    pub name: Option<Seq<char>>,
}

impl ManifestView {
    /// What every loaded manifest satisfies.
    pub open spec fn wf(self) -> bool {
        &&& version_supported(self.file_format_version)
        &&& self.kind.name_required() ==> self.name is Some
    }

    /// Whether the library is named without a directory, to be found by
    /// the dynamic linker.
    pub open spec fn uses_search_path(self) -> bool {
        forall|i: int|
            0 <= i < self.library_path.len() ==> self.library_path[i] != '/'
                && self.library_path[i] != '\\'
    }

    /// The manifest and its library in one line.
    pub open spec fn description(
        self,
        manifest_path: Seq<char>,
        roots: Seq<(Seq<char>, Seq<char>)>,
    ) -> Seq<char> {
        let head = simplified(roots, manifest_path) + indirection_arrow() + self.library_path;
        if self.uses_search_path() {
            head + search_path_note()
        } else {
            head
        }
    }
}

impl View for Manifest {
    type V = ManifestView;

    closed spec fn view(&self) -> ManifestView {
        ManifestView {
            kind: self.kind,
            file_format_version: self.file_format_version@,
            library_path: self.library_path@,
            name: self.name.deep_view(),
        }
    }
}

impl DeepView for Manifest {
    type V = ManifestView;

    open spec fn deep_view(&self) -> ManifestView {
        self@
    }
}

/// What a missing member is reported as.
pub open spec fn missing_field(field: Seq<char>) -> Seq<char> {
    "missing field "@ + field
}

/// The manifest that the given members make, or why they make none: every
/// required member must be there, and the version must be one that is read.
pub open spec fn checked_fields(
    kind: ManifestKind,
    file_format_version: Option<Seq<char>>,
    library_path: Option<Seq<char>>,
    name: Option<Seq<char>>,
) -> Result<ManifestView, ErrorView> {
    if file_format_version is None {
        Err(ErrorView::JsonParseError(missing_field("file_format_version"@)))
    } else if library_path is None {
        Err(ErrorView::JsonParseError(missing_field("library_path"@)))
    } else if kind.name_required() && name is None {
        Err(ErrorView::JsonParseError(missing_field("name"@)))
    } else if !version_supported(file_format_version.unwrap()) {
        Err(ErrorView::ManifestVersionMismatch)
    } else {
        Ok(
            ManifestView {
                kind,
                file_format_version: file_format_version.unwrap(),
                library_path: library_path.unwrap(),
                name,
            },
        )
    }
}

/// The string that a document holds under a pointer, if any.
pub open spec fn string_at(strings: Map<Seq<char>, Seq<char>>, pointer: Seq<char>) -> Option<
    Seq<char>,
> {
    if strings.contains_key(pointer) {
        Some(strings[pointer])
    } else {
        None
    }
}

/// The manifest that a document with the given strings makes.
pub open spec fn manifest_of_strings(
    kind: ManifestKind,
    strings: Map<Seq<char>, Seq<char>>,
) -> Result<ManifestView, ErrorView> {
    checked_fields(
        kind,
        string_at(strings, version_pointer()),
        string_at(strings, kind.library_path_pointer()),
        string_at(strings, kind.name_pointer()),
    )
}

/// The manifest that a text makes: what its members make where it is a JSON
/// document, else a parse error with the parser's complaint.
pub open spec fn manifest_of_text(kind: ManifestKind, text: Seq<char>) -> Result<
    ManifestView,
    ErrorView,
> {
    match json_text_strings(text) {
        Ok(strings) => manifest_of_strings(kind, strings),
        Err(complaint) => Err(ErrorView::JsonParseError(complaint)),
    }
}

/// What reading a file gave, over mathematical strings.
pub open spec fn read_view(read: Result<String, Error>) -> Result<Seq<char>, ErrorView> {
    match read {
        Ok(text) => Ok(text@),
        Err(e) => Err(e@),
    }
}

/// The manifest that a file makes, given what reading it gave: a file that
/// could not be read fails with the reason it was not.
pub open spec fn manifest_of_read(kind: ManifestKind, read: Result<Seq<char>, ErrorView>) -> Result<
    ManifestView,
    ErrorView,
> {
    match read {
        Ok(text) => manifest_of_text(kind, text),
        Err(e) => Err(e),
    }
}

/// A manifest together with the path of its file.
pub struct BaseView {
    pub manifest_path: Seq<char>,
    pub manifest: ManifestView,
}

/// The manifest file at `manifest_path`, given what reading it gave.
pub open spec fn base_of_read(
    kind: ManifestKind,
    manifest_path: Seq<char>,
    read: Result<Seq<char>, ErrorView>,
) -> Result<BaseView, ErrorView> {
    match manifest_of_read(kind, read) {
        Ok(manifest) => Ok(BaseView { manifest_path, manifest }),
        Err(e) => Err(e),
    }
}

impl BaseView {
    /// The library of the manifest, taken from the directory of the manifest.
    pub open spec fn library_candidate(self) -> Seq<char> {
        crate::paths::join(crate::paths::parent(self.manifest_path), self.manifest.library_path)
    }

    /// The library of the manifest: where `library_candidate` resolves, or
    /// the candidate itself where it does not resolve.
    pub open spec fn library(self, resolved: Option<Seq<char>>) -> Seq<char> {
        match resolved {
            Some(path) => path,
            None => self.library_candidate(),
        }
    }
}

/// A result of loading, over mathematical strings.
pub open spec fn loaded_view(r: Result<Manifest, Error>) -> Result<ManifestView, ErrorView> {
    match r {
        Ok(m) => Ok(m@),
        Err(e) => Err(e@),
    }
}

impl Manifest {
    /// Makes a manifest of the members read from a document.
    pub fn from_fields(
        kind: ManifestKind,
        file_format_version: Option<String>,
        library_path: Option<String>,
        name: Option<String>,
    ) -> (r: Result<Manifest, Error>)
        ensures
            loaded_view(r) == checked_fields(
                kind,
                file_format_version.deep_view(),
                library_path.deep_view(),
                name.deep_view(),
            ),
            r matches Ok(m) ==> m@.wf(),
    {
        let file_format_version = match file_format_version {
            Some(v) => v,
            None => {
                return Err(
                    Error::JsonParseError(append("missing field ", "file_format_version")),
                );
            },
        };
        let library_path = match library_path {
            Some(p) => p,
            None => {
                return Err(Error::JsonParseError(append("missing field ", "library_path")));
            },
        };
        let name_required = match kind {
            ManifestKind::Runtime => false,
            ManifestKind::ApiLayer => true,
        };
        if name_required && name.is_none() {
            return Err(Error::JsonParseError(append("missing field ", "name")));
        }
        if !is_version_supported(file_format_version.as_str()) {
            return Err(Error::ManifestVersionMismatch);
        }
        Ok(Manifest { kind, file_format_version, library_path, name })
    }

    /// Reads a manifest out of a parsed document.
    pub fn from_document(kind: ManifestKind, doc: &serde_json::Value) -> (r: Result<
        Manifest,
        Error,
    >)
        ensures
            loaded_view(r) == manifest_of_strings(kind, json_strings(*doc)),
            r matches Ok(m) ==> m@.wf(),
    {
        let file_format_version = json_string_at(doc, "/file_format_version");
        let (library_path, name) = match kind {
            ManifestKind::Runtime => (
                json_string_at(doc, "/runtime/library_path"),
                json_string_at(doc, "/runtime/name"),
            ),
            ManifestKind::ApiLayer => (
                json_string_at(doc, "/api_layer/library_path"),
                json_string_at(doc, "/api_layer/name"),
            ),
        };
        Manifest::from_fields(kind, file_format_version, library_path, name)
    }

    /// Reads a manifest from what reading its file gave.
    pub fn load(kind: ManifestKind, read: &Result<String, Error>) -> (r: Result<Manifest, Error>)
        ensures
            loaded_view(r) == manifest_of_read(kind, read_view(*read)),
            r matches Ok(m) ==> m@.wf(),
    {
        match read {
            Ok(text) => Manifest::parse(kind, text.as_str()),
            Err(e) => Err(e.clone()),
        }
    }

    /// Reads a manifest from the text of its file.
    pub fn parse(kind: ManifestKind, contents: &str) -> (r: Result<Manifest, Error>)
        ensures
            loaded_view(r) == manifest_of_text(kind, contents@),
            r matches Ok(m) ==> m@.wf(),
    {
        match parse_json(contents) {
            Ok(doc) => Manifest::from_document(kind, &doc),
            Err(text) => Err(Error::JsonParseError(text)),
        }
    }

    /// What the manifest describes.
    pub fn kind(&self) -> (r: ManifestKind)
        ensures
            r == self@.kind,
    {
        self.kind
    }

    /// The format version that the manifest declares.
    pub fn file_format_version(&self) -> (r: &str)
        ensures
            r@ == self@.file_format_version,
    {
        self.file_format_version.as_str()
    }

    /// The library path as the manifest gives it.
    pub fn library_path(&self) -> (r: &str)
        ensures
            r@ == self@.library_path,
    {
        self.library_path.as_str()
    }

    /// The name that the manifest declares, if it declares one.
    pub fn name(&self) -> (r: Option<&str>)
        ensures
            r.deep_view() == self@.name,
    {
        match &self.name {
            Some(n) => Some(n.as_str()),
            None => None,
        }
    }

    /// Whether the manifest's format version is one that is read.
    pub fn is_file_format_version_ok(&self) -> (r: bool)
        ensures
            r == version_supported(self@.file_format_version),
    {
        is_version_supported(self.file_format_version.as_str())
    }

    /// Whether the library is left to the dynamic linker to find.
    pub fn uses_search_path(&self) -> (r: bool)
        ensures
            r == self@.uses_search_path(),
    {
        let path = self.library_path.as_str();
        let n: usize = path.unicode_len();
        let mut i: usize = 0;
        while i < n
            invariant
                i <= n,
                n == path@.len(),
                path@ == self@.library_path,
                forall|j: int| 0 <= j < i ==> path@[j] != '/' && path@[j] != '\\',
            decreases n - i,
        {
            let c = path.get_char(i);
            if c == '/' || c == '\\' {
                return false;
            }
            i = i + 1;
        }
        true
    }

    /// The manifest at `manifest_path` and its library in one line.
    pub fn describe_manifest(&self, manifest_path: &str, simplifier: &PathSimplifier) -> (r:
        String)
        ensures
            r@ == self@.description(manifest_path@, simplifier@),
    {
        let head = simplifier.simplify(manifest_path).concat(" → ").concat(
            self.library_path.as_str(),
        );
        if self.uses_search_path() {
            head.concat(" in the dynamic library search path")
        } else {
            head
        }
    }
}

/// A manifest of another major version is not loaded: where every member
/// that a manifest must hold is there, and the version is not one that is
/// read, the members make a version mismatch and no manifest.
pub proof fn lemma_version_mismatch(
    kind: ManifestKind,
    file_format_version: Seq<char>,
    library_path: Seq<char>,
    name: Option<Seq<char>>,
)
    requires
        !version_supported(file_format_version),
        kind.name_required() ==> name is Some,
    ensures
        checked_fields(kind, Some(file_format_version), Some(library_path), name) == Err::<
            ManifestView,
            _,
        >(ErrorView::ManifestVersionMismatch),
{
}

/// A version is read where the part before its first dot is the supported
/// major version, whatever follows the dot.
pub proof fn lemma_version_by_major(minor: Seq<char>)
    ensures
        version_supported(supported_major() + seq!['.'] + minor),
        version_supported(supported_major()),
{
    reveal_strlit("1");
    let major = supported_major();
    let version = major + seq!['.'] + minor;
    assert(major.len() == 1 && major[0] == '1');
    lemma_first_index_of(version, '.');
    lemma_first_index_of(major, '.');
    assert(version[0] == '1' && version[1] == '.');
    assert(first_index_of(version, '.') == 1) by {
        if first_index_of(version, '.') > 1 {
            assert(version[1] != '.');
        }
    }
    assert(version.take(1) =~= major);
    assert(first_index_of(major, '.') == 1) by {
        if first_index_of(major, '.') < 1 {
            assert(major[0] == '.');
        }
    }
    assert(major.take(1) =~= major);
}

} // verus!
