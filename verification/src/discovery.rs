//! The engine of a discovery pass: which of the candidate manifests become
//! entities, and which are reported as failures.

use crate::error::{Error, ErrorView, ManifestError};
use crate::manifest::{BaseView, Manifest, ManifestView};
use crate::text::str_eq;
use vstd::prelude::*;

verus! {

/// A manifest that a search found: the path it was found under, the path
/// that this resolves to, and what loading the file there gave.
#[derive(Debug, PartialEq, Eq)]
pub struct Candidate {
    pub orig_path: String,
    pub canonical_path: String,
    pub loaded: Result<Manifest, Error>,
}

/// A [`Candidate`] over mathematical strings.
pub struct CandidateView {
    pub orig_path: Seq<char>,
    pub canonical_path: Seq<char>,
    pub loaded: Result<ManifestView, ErrorView>,
}

impl View for Candidate {
    type V = CandidateView;

    open spec fn view(&self) -> CandidateView {
        CandidateView {
            orig_path: self.orig_path@,
            canonical_path: self.canonical_path@,
            loaded: match self.loaded {
                Ok(m) => Ok(m@),
                Err(e) => Err(e@),
            },
        }
    }
}

impl DeepView for Candidate {
    type V = CandidateView;

    open spec fn deep_view(&self) -> CandidateView {
        self@
    }
}

/// A discovered runtime or API layer: its manifest, under the path it was
/// first found under.
pub struct EntityView {
    pub orig_path: Seq<char>,
    pub base: BaseView,
}

impl EntityView {
    /// Whether the entity was found under `path` or resolves to it.
    pub open spec fn goes_by(self, path: Seq<char>) -> bool {
        self.orig_path == path || self.base.manifest_path == path
    }
}

/// A candidate that was accepted.
#[derive(Debug, PartialEq, Eq)]
pub struct Found {
    pub orig_path: String,
    pub manifest_path: String,
    pub manifest: Manifest,
}

impl View for Found {
    type V = EntityView;

    open spec fn view(&self) -> EntityView {
        EntityView {
            orig_path: self.orig_path@,
            base: BaseView { manifest_path: self.manifest_path@, manifest: self.manifest@ },
        }
    }
}

impl DeepView for Found {
    type V = EntityView;

    open spec fn deep_view(&self) -> EntityView {
        self@
    }
}

/// Whether one of `found` goes by `path`.
pub open spec fn known(found: Seq<EntityView>, path: Seq<char>) -> bool {
    exists|i: int| 0 <= i < found.len() && (#[trigger] found[i]).goes_by(path)
}

/// What a pass over `candidates` gives: the entities, in the order they were
/// found, and the manifests that failed to load, each under its original path.
///
/// A candidate is passed over where an entity found before it goes by its
/// original or its canonical path. Of the others, one that loaded becomes an
/// entity, one that did not is reported.
pub open spec fn discover(candidates: Seq<CandidateView>) -> (
    Seq<EntityView>,
    Seq<(Seq<char>, ErrorView)>,
)
    decreases candidates.len(),
{
    if candidates.len() == 0 {
        (Seq::empty(), Seq::empty())
    } else {
        let (found, errors) = discover(candidates.drop_last());
        let c = candidates.last();
        if known(found, c.orig_path) || known(found, c.canonical_path) {
            (found, errors)
        } else {
            match c.loaded {
                Ok(manifest) => (
                    found.push(
                        EntityView {
                            orig_path: c.orig_path,
                            base: BaseView { manifest_path: c.canonical_path, manifest },
                        },
                    ),
                    errors,
                ),
                Err(e) => (found, errors.push((c.orig_path, e))),
            }
        }
    }
}

/// Whether one of `found` goes by `path`.
pub fn is_known(found: &Vec<Found>, path: &str) -> (r: bool)
    ensures
        r == known(found.deep_view(), path@),
{
    let mut i: usize = 0;
    while i < found.len()
        invariant
            i <= found.len(),
            forall|k: int| 0 <= k < i ==> !(#[trigger] found.deep_view()[k]).goes_by(path@),
        decreases found.len() - i,
    {
        if str_eq(found[i].orig_path.as_str(), path) || str_eq(
            found[i].manifest_path.as_str(),
            path,
        ) {
            assert(found.deep_view()[i as int].goes_by(path@));
            return true;
        }
        i = i + 1;
    }
    false
}

/// Runs a discovery pass over candidates that are resolved and loaded.
pub fn accept_candidates(candidates: Vec<Candidate>) -> (r: (Vec<Found>, Vec<ManifestError>))
    ensures
        (r.0.deep_view(), r.1.deep_view()) == discover(candidates.deep_view()),
{
    let mut found: Vec<Found> = Vec::new();
    let mut errors: Vec<ManifestError> = Vec::new();
    let ghost all = candidates.deep_view();
    assert(all.take(0) =~= Seq::empty());
    for c in it: candidates.into_iter()
        invariant
            all == it.seq().map_values(|c: Candidate| c@),
            (found.deep_view(), errors.deep_view()) == discover(all.take(it.index() as int)),
    {
        proof {
            let i = it.index() as int;
            assert(all.take(i + 1).drop_last() =~= all.take(i));
            assert(all.take(i + 1).last() == c@);
        }
        if is_known(&found, c.orig_path.as_str()) || is_known(&found, c.canonical_path.as_str()) {
        } else {
            match c.loaded {
                Ok(manifest) => {
                    let ghost before = found.deep_view();
                    let entity = Found {
                        orig_path: c.orig_path,
                        manifest_path: c.canonical_path,
                        manifest,
                    };
                    found.push(entity);
                    assert(found.deep_view() =~= before.push(entity@));
                },
                Err(e) => {
                    let ghost before = errors.deep_view();
                    let report = ManifestError(c.orig_path, e);
                    errors.push(report);
                    assert(errors.deep_view() =~= before.push(report@));
                },
            }
        }
    }
    assert(all.take(all.len() as int) =~= all);
    (found, errors)
}

/// The entity that a candidate becomes where it is accepted.
pub open spec fn entity_of(c: CandidateView) -> EntityView
    recommends
        c.loaded is Ok,
{
    EntityView {
        orig_path: c.orig_path,
        base: BaseView { manifest_path: c.canonical_path, manifest: c.loaded->Ok_0 },
    }
}

/// Whether candidate `k` is the source of the entity `e`: it was found under
/// the entity's original path, resolves to its manifest, loaded to what the
/// entity holds, and no candidate before it resolves to the same manifest.
pub open spec fn is_first_source(candidates: Seq<CandidateView>, e: EntityView, k: int) -> bool {
    &&& 0 <= k < candidates.len()
    &&& candidates[k].loaded is Ok
    &&& e == entity_of(candidates[k])
    &&& forall|j: int| 0 <= j < k ==> (#[trigger] candidates[j]).canonical_path != e.base.manifest_path
}

/// Whether candidate `k` is a source of the entity `e`.
pub open spec fn is_source(candidates: Seq<CandidateView>, e: EntityView, k: int) -> bool {
    &&& 0 <= k < candidates.len()
    &&& candidates[k].loaded is Ok
    &&& e == entity_of(candidates[k])
}

/// Whether some candidate is a source of the entity `e`.
pub open spec fn has_source(candidates: Seq<CandidateView>, e: EntityView) -> bool {
    exists|i: int| is_source(candidates, e, i)
}

/// Whether some candidate is the first source of the entity `e`.
pub open spec fn has_first_source(candidates: Seq<CandidateView>, e: EntityView) -> bool {
    exists|i: int| is_first_source(candidates, e, i)
}

/// Whether `report` names a candidate that failed to load, and why it failed.
pub open spec fn reports_failure(
    candidates: Seq<CandidateView>,
    report: (Seq<char>, ErrorView),
) -> bool {
    exists|i: int|
        0 <= i < candidates.len() && (#[trigger] candidates[i]).loaded is Err && report == (
            candidates[i].orig_path,
            candidates[i].loaded->Err_0,
        )
}

/// Whether a path resolves to one target, wherever among the candidates it
/// stands.
pub open spec fn single_valued(candidates: Seq<CandidateView>) -> bool {
    forall|i: int, j: int|
        0 <= i < candidates.len() && 0 <= j < candidates.len() && (#[trigger] candidates[i]).orig_path
            == (#[trigger] candidates[j]).orig_path ==> candidates[i].canonical_path
            == candidates[j].canonical_path
}

/// Whether the candidates were seen on a file system at rest: a path that
/// is a target resolves to itself, and what loading gives depends on the
/// target alone.
pub open spec fn coherent(candidates: Seq<CandidateView>) -> bool {
    &&& forall|i: int, j: int|
        0 <= i < candidates.len() && 0 <= j < candidates.len() && (#[trigger] candidates[i]).orig_path
            == (#[trigger] candidates[j]).canonical_path ==> candidates[i].canonical_path
            == candidates[i].orig_path
    &&& forall|i: int, j: int|
        0 <= i < candidates.len() && 0 <= j < candidates.len()
            && (#[trigger] candidates[i]).canonical_path == (#[trigger] candidates[j]).canonical_path
            ==> (candidates[i].loaded is Ok <==> candidates[j].loaded is Ok)
}

/// Whether the candidates describe one state of one file system.
pub open spec fn consistent(candidates: Seq<CandidateView>) -> bool {
    single_valued(candidates) && coherent(candidates)
}

/// Every entity of a pass has a candidate as its source, and every report a
/// candidate that failed to load.
pub proof fn lemma_found_have_sources(candidates: Seq<CandidateView>)
    ensures
        forall|k: int|
            0 <= k < discover(candidates).0.len() ==> has_source(
                candidates,
                #[trigger] discover(candidates).0[k],
            ),
        forall|k: int|
            0 <= k < discover(candidates).1.len() ==> reports_failure(
                candidates,
                #[trigger] discover(candidates).1[k],
            ),
    decreases candidates.len(),
{
    if candidates.len() > 0 {
        let shorter = candidates.drop_last();
        lemma_found_have_sources(shorter);
        let before = discover(shorter);
        let after = discover(candidates);
        let last = candidates.len() - 1;
        assert forall|k: int| 0 <= k < after.0.len() implies has_source(
            candidates,
            #[trigger] after.0[k],
        ) by {
            if k < before.0.len() {
                assert(has_source(shorter, before.0[k]));
                let i = choose|i: int| is_source(shorter, before.0[k], i);
                assert(shorter[i] == candidates[i]);
                assert(is_source(candidates, after.0[k], i));
            } else {
                assert(is_source(candidates, after.0[k], last));
            }
        }
        assert forall|k: int| 0 <= k < after.1.len() implies reports_failure(
            candidates,
            #[trigger] after.1[k],
        ) by {
            if k < before.1.len() {
                assert(reports_failure(shorter, before.1[k]));
                let i = choose|i: int|
                    0 <= i < shorter.len() && (#[trigger] shorter[i]).loaded is Err && before.1[k]
                        == (shorter[i].orig_path, shorter[i].loaded->Err_0);
                assert(shorter[i] == candidates[i]);
            } else {
                assert(candidates[last].loaded is Err);
            }
        }
    }
}

/// No two entities of a pass share a path: neither the manifest they
/// resolve to, nor the path they were found under, nor one the other's.
pub proof fn lemma_one_entity_per_target(candidates: Seq<CandidateView>)
    ensures
        forall|a: int, b: int|
            #![trigger discover(candidates).0[a], discover(candidates).0[b]]
            0 <= a < b < discover(candidates).0.len() ==> {
                let first = discover(candidates).0[a];
                let second = discover(candidates).0[b];
                &&& first.base.manifest_path != second.base.manifest_path
                &&& first.orig_path != second.orig_path
                &&& first.base.manifest_path != second.orig_path
                &&& first.orig_path != second.base.manifest_path
            },
    decreases candidates.len(),
{
    if candidates.len() > 0 {
        let shorter = candidates.drop_last();
        lemma_one_entity_per_target(shorter);
        let before = discover(shorter).0;
        let after = discover(candidates).0;
        let c = candidates.last();
        assert forall|a: int, b: int|
            #![trigger after[a], after[b]]
            0 <= a < b < after.len() implies {
            let first = after[a];
            let second = after[b];
            &&& first.base.manifest_path != second.base.manifest_path
            &&& first.orig_path != second.orig_path
            &&& first.base.manifest_path != second.orig_path
            &&& first.orig_path != second.base.manifest_path
        } by {
            if b < before.len() {
                assert(after[a] == before[a] && after[b] == before[b]);
            } else {
                assert(after[a] == before[a]);
                assert(!before[a].goes_by(c.orig_path));
                assert(!before[a].goes_by(c.canonical_path));
            }
        }
    }
}

/// What became of a candidate: it failed to load, or an entity of the pass
/// goes by one of its paths.
pub proof fn lemma_candidate_fate(candidates: Seq<CandidateView>, j: int)
    requires
        0 <= j < candidates.len(),
    ensures
        candidates[j].loaded is Err || known(discover(candidates).0, candidates[j].orig_path)
            || known(discover(candidates).0, candidates[j].canonical_path),
    decreases candidates.len(),
{
    let shorter = candidates.drop_last();
    let before = discover(shorter).0;
    let after = discover(candidates).0;
    if j < candidates.len() - 1 {
        lemma_candidate_fate(shorter, j);
        assert(shorter[j] == candidates[j]);
        if known(before, candidates[j].orig_path) {
            let i = choose|i: int|
                0 <= i < before.len() && (#[trigger] before[i]).goes_by(candidates[j].orig_path);
            assert(after[i] == before[i]);
        }
        if known(before, candidates[j].canonical_path) {
            let i = choose|i: int|
                0 <= i < before.len() && (#[trigger] before[i]).goes_by(
                    candidates[j].canonical_path,
                );
            assert(after[i] == before[i]);
        }
    } else {
        let c = candidates.last();
        if known(before, c.orig_path) {
        } else if known(before, c.canonical_path) {
        } else if c.loaded is Ok {
            assert(after[before.len() as int].goes_by(c.orig_path));
        }
    }
}

/// Of the candidates that resolve to one manifest, the first is the one that
/// becomes the entity: every entity of a pass over consistent candidates has
/// a source with no candidate before it that resolves to the same manifest.
pub proof fn lemma_first_source_wins(candidates: Seq<CandidateView>)
    requires
        consistent(candidates),
    ensures
        forall|k: int|
            0 <= k < discover(candidates).0.len() ==> has_first_source(
                candidates,
                #[trigger] discover(candidates).0[k],
            ),
    decreases candidates.len(),
{
    if candidates.len() > 0 {
        let shorter = candidates.drop_last();
        assert(consistent(shorter)) by {
            assert forall|i: int| 0 <= i < shorter.len() implies shorter[i] == candidates[i] by {}
        }
        lemma_first_source_wins(shorter);
        lemma_found_have_sources(shorter);
        let before = discover(shorter).0;
        let after = discover(candidates).0;
        let last = candidates.len() - 1;
        let c = candidates[last];
        assert forall|k: int| 0 <= k < after.len() implies has_first_source(
            candidates,
            #[trigger] after[k],
        ) by {
            if k < before.len() {
                assert(has_first_source(shorter, before[k]));
                let i = choose|i: int| is_first_source(shorter, before[k], i);
                assert(shorter[i] == candidates[i]);
                assert forall|j: int| 0 <= j < i implies (#[trigger] candidates[j]).canonical_path
                    != after[k].base.manifest_path by {
                    assert(shorter[j] == candidates[j]);
                }
                assert(is_first_source(candidates, after[k], i));
            } else {
                assert(after[k] == entity_of(c));
                assert forall|j: int| 0 <= j < last implies (#[trigger] candidates[j]).canonical_path
                    != c.canonical_path by {
                    if candidates[j].canonical_path == c.canonical_path {
                        assert(shorter[j] == candidates[j]);
                        lemma_candidate_fate(shorter, j);
                        assert(candidates[j].loaded is Ok);
                        assert(!known(before, c.canonical_path));
                        assert(known(before, candidates[j].orig_path));
                        let f = choose|f: int|
                            0 <= f < before.len() && (#[trigger] before[f]).goes_by(
                                candidates[j].orig_path,
                            );
                        assert(has_source(shorter, before[f]));
                        let i = choose|i: int| is_source(shorter, before[f], i);
                        assert(shorter[i] == candidates[i]);
                        assert(before[f].goes_by(c.canonical_path));
                    }
                }
                assert(is_first_source(candidates, after[k], last));
            }
        }
    }
}

/// Whether a candidate loaded.
pub open spec fn loads(c: CandidateView) -> bool {
    c.loaded is Ok
}

/// A manifest that fails to load hides nothing: the entities of a pass are
/// those of a pass over the candidates that load.
pub proof fn lemma_failures_hide_nothing(candidates: Seq<CandidateView>)
    ensures
        discover(candidates).0 == discover(candidates.filter(|c: CandidateView| loads(c))).0,
    decreases candidates.len(),
{
    reveal(Seq::filter);
    let pred = |c: CandidateView| loads(c);
    if candidates.len() > 0 {
        let shorter = candidates.drop_last();
        lemma_failures_hide_nothing(shorter);
        let c = candidates.last();
        if loads(c) {
            assert(candidates.filter(pred) == shorter.filter(pred).push(c));
            assert(candidates.filter(pred).drop_last() =~= shorter.filter(pred));
        } else {
            assert(candidates.filter(pred) == shorter.filter(pred));
        }
    }
}

/// A manifest that fails to load is reported under its original path,
/// unless an entity of the pass goes by one of its paths.
pub proof fn lemma_failure_reported(candidates: Seq<CandidateView>, j: int)
    requires
        0 <= j < candidates.len(),
        candidates[j].loaded is Err,
        !known(discover(candidates).0, candidates[j].orig_path),
        !known(discover(candidates).0, candidates[j].canonical_path),
    ensures
        discover(candidates).1.contains((candidates[j].orig_path, candidates[j].loaded->Err_0)),
    decreases candidates.len(),
{
    let shorter = candidates.drop_last();
    let before = discover(shorter);
    let after = discover(candidates);
    let report = (candidates[j].orig_path, candidates[j].loaded->Err_0);
    if j < candidates.len() - 1 {
        assert(shorter[j] == candidates[j]);
        assert(!known(before.0, candidates[j].orig_path)) by {
            if known(before.0, candidates[j].orig_path) {
                let i = choose|i: int|
                    0 <= i < before.0.len() && (#[trigger] before.0[i]).goes_by(
                        candidates[j].orig_path,
                    );
                assert(after.0[i] == before.0[i]);
            }
        }
        assert(!known(before.0, candidates[j].canonical_path)) by {
            if known(before.0, candidates[j].canonical_path) {
                let i = choose|i: int|
                    0 <= i < before.0.len() && (#[trigger] before.0[i]).goes_by(
                        candidates[j].canonical_path,
                    );
                assert(after.0[i] == before.0[i]);
            }
        }
        lemma_failure_reported(shorter, j);
        let at = choose|at: int| 0 <= at < before.1.len() && before.1[at] == report;
        assert(after.1[at] == report);
    } else {
        assert(!known(before.0, candidates[j].orig_path)) by {
            if known(before.0, candidates[j].orig_path) {
                let i = choose|i: int|
                    0 <= i < before.0.len() && (#[trigger] before.0[i]).goes_by(
                        candidates[j].orig_path,
                    );
                assert(after.0[i] == before.0[i]);
            }
        }
        assert(!known(before.0, candidates[j].canonical_path)) by {
            if known(before.0, candidates[j].canonical_path) {
                let i = choose|i: int|
                    0 <= i < before.0.len() && (#[trigger] before.0[i]).goes_by(
                        candidates[j].canonical_path,
                    );
                assert(after.0[i] == before.0[i]);
            }
        }
        assert(after.1[before.1.len() as int] == report);
    }
}

/// On a file system at rest no failure goes unreported: every candidate of a
/// consistent pass that fails to load is reported under its original path.
pub proof fn lemma_every_failure_reported(candidates: Seq<CandidateView>, j: int)
    requires
        consistent(candidates),
        0 <= j < candidates.len(),
        candidates[j].loaded is Err,
    ensures
        discover(candidates).1.contains((candidates[j].orig_path, candidates[j].loaded->Err_0)),
{
    let found = discover(candidates).0;
    lemma_found_have_sources(candidates);
    if known(found, candidates[j].orig_path) {
        let f = choose|f: int|
            0 <= f < found.len() && (#[trigger] found[f]).goes_by(candidates[j].orig_path);
        assert(has_source(candidates, found[f]));
        let i = choose|i: int| is_source(candidates, found[f], i);
        assert(candidates[i].canonical_path == candidates[j].canonical_path);
        assert(false);
    }
    if known(found, candidates[j].canonical_path) {
        let f = choose|f: int|
            0 <= f < found.len() && (#[trigger] found[f]).goes_by(candidates[j].canonical_path);
        assert(has_source(candidates, found[f]));
        let i = choose|i: int| is_source(candidates, found[f], i);
        assert(candidates[i].canonical_path == candidates[j].canonical_path);
        assert(false);
    }
    lemma_failure_reported(candidates, j);
}

} // verus!
