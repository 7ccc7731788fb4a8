//! What was seen of the file system, as plain values.
//!
//! The engine never looks at a disk. Whoever drives it looks, writes down
//! what was there, and hands the record over; one record serves a whole pass,
//! so that every decision of the pass rests on the same state.

use crate::error::{Error, ErrorView};
use crate::manifest::read_view;
use crate::text::str_eq;
use vstd::prelude::*;

verus! {

/// What stands at a path.
#[derive(Debug, Clone, Copy, PartialEq, Eq, Structural)]
pub enum FileKind {
    File,
    Symlink,
    Directory,
    Other,
}

impl FileKind {
    /// Whether this is a file or a link.
    pub open spec fn is_file_or_link(self) -> bool {
        self == FileKind::File || self == FileKind::Symlink
    }

    /// Whether this is a file or a link.
    pub fn file_or_link(self) -> (r: bool)
        ensures
            r == self.is_file_or_link(),
    {
        match self {
            FileKind::File => true,
            FileKind::Symlink => true,
            _ => false,
        }
    }
}

/// An entry of a directory that was listed: its path, and what the entry
/// itself is, links not followed.
#[derive(Debug, PartialEq, Eq)]
pub struct DirEntry {
    pub path: String,
    pub kind: FileKind,
}

impl View for DirEntry {
    type V = (Seq<char>, FileKind);

    open spec fn view(&self) -> (Seq<char>, FileKind) {
        (self.path@, self.kind)
    }
}

impl DeepView for DirEntry {
    type V = (Seq<char>, FileKind);

    open spec fn deep_view(&self) -> (Seq<char>, FileKind) {
        self@
    }
}

/// What was seen at one path.
#[derive(Debug, PartialEq, Eq)]
pub struct FileProbe {
    /// The path that was looked at.
    pub path: String,
    /// Where the path leads once every link is followed; `None` where it
    /// leads nowhere.
    pub canonical: Option<String>,
    /// What the path leads to, links followed; `None` where that could not
    /// be told.
    pub kind: Option<FileKind>,
    /// The text of the file that the path leads to, or why it was not read.
    pub contents: Result<String, Error>,
}

/// A [`FileProbe`] over mathematical strings.
pub struct FileProbeView {
    pub path: Seq<char>,
    pub canonical: Option<Seq<char>>,
    pub kind: Option<FileKind>,
    pub contents: Result<Seq<char>, ErrorView>,
}

impl View for FileProbe {
    type V = FileProbeView;

    open spec fn view(&self) -> FileProbeView {
        FileProbeView {
            path: self.path@,
            canonical: self.canonical.deep_view(),
            kind: self.kind,
            contents: read_view(self.contents),
        }
    }
}

impl DeepView for FileProbe {
    type V = FileProbeView;

    open spec fn deep_view(&self) -> FileProbeView {
        self@
    }
}

/// The first of `probes` that looked at `path`.
pub open spec fn probe_of(probes: Seq<FileProbeView>, path: Seq<char>) -> Option<FileProbeView>
    decreases probes.len(),
{
    if probes.len() == 0 {
        None
    } else if probes[0].path == path {
        Some(probes[0])
    } else {
        probe_of(probes.drop_first(), path)
    }
}

/// Where `path` leads; `None` where it leads nowhere or was not looked at.
pub open spec fn canonical_of(probes: Seq<FileProbeView>, path: Seq<char>) -> Option<Seq<char>> {
    match probe_of(probes, path) {
        Some(probe) => probe.canonical,
        None => None,
    }
}

/// Whether `path` was seen to lead to a file.
pub open spec fn leads_to_file(probes: Seq<FileProbeView>, path: Seq<char>) -> bool {
    match probe_of(probes, path) {
        Some(probe) => probe.kind matches Some(kind) && kind.is_file_or_link(),
        None => false,
    }
}

/// What was seen of the file system: one probe for each path looked at.
/// Where a path was looked at twice, the first probe counts.
#[derive(Debug, PartialEq, Eq)]
pub struct FsSnapshot {
    pub probes: Vec<FileProbe>,
}

impl View for FsSnapshot {
    type V = Seq<FileProbeView>;

    open spec fn view(&self) -> Seq<FileProbeView> {
        self.probes.deep_view()
    }
}

impl FsSnapshot {
    /// A record of nothing.
    pub fn new() -> (r: Self)
        ensures
            r@ == Seq::<FileProbeView>::empty(),
    {
        let r = FsSnapshot { probes: Vec::new() };
        assert(r@ =~= Seq::<FileProbeView>::empty());
        r
    }

    /// Adds what was seen at one more path.
    pub fn record(&mut self, probe: FileProbe)
        ensures
            final(self)@ == old(self)@.push(probe@),
    {
        self.probes.push(probe);
        assert(self@ =~= old(self)@.push(probe@));
    }

    /// What was seen at `path`.
    pub fn find(&self, path: &str) -> (r: Option<&FileProbe>)
        ensures
            r.deep_view() == probe_of(self@, path@),
    {
        let mut i: usize = 0;
        assert(self@.skip(0) =~= self@);
        while i < self.probes.len()
            invariant
                i <= self.probes.len(),
                probe_of(self@, path@) == probe_of(self@.skip(i as int), path@),
            decreases self.probes.len() - i,
        {
            proof {
                let rest = self@.skip(i as int);
                assert(rest[0] == self.probes[i as int]@);
                assert(rest.drop_first() =~= self@.skip(i + 1));
            }
            if str_eq(self.probes[i].path.as_str(), path) {
                return Some(&self.probes[i]);
            }
            i = i + 1;
        }
        None
    }

    /// Where `path` leads.
    pub fn canonical(&self, path: &str) -> (r: Option<String>)
        ensures
            r.deep_view() == canonical_of(self@, path@),
    {
        match self.find(path) {
            Some(probe) => match &probe.canonical {
                Some(target) => Some(target.clone()),
                None => None,
            },
            None => None,
        }
    }

    /// Whether `path` was seen to lead to a file.
    pub fn is_file(&self, path: &str) -> (r: bool)
        ensures
            r == leads_to_file(self@, path@),
    {
        match self.find(path) {
            Some(probe) => match probe.kind {
                Some(kind) => kind.file_or_link(),
                None => false,
            },
            None => false,
        }
    }
}

} // verus!
