//! Keeping the first of each kind, in order.
//!
//! The executable functions of this file hand the work to `itertools`; their
//! contracts state what the library expects of it, and are not proved. The
//! laws below them are proved of `first_by_key`.

use crate::platform::PlatformRuntime;
use itertools::Itertools;
use vstd::prelude::*;

verus! {

/// Whether an item of `s` has the key `k`.
pub open spec fn has_key<T, K>(s: Seq<T>, key: spec_fn(T) -> K, k: K) -> bool {
    exists|i: int| 0 <= i < s.len() && key(#[trigger] s[i]) == k
}

/// Whether no two items of `s` have the same key.
pub open spec fn distinct_keys<T, K>(s: Seq<T>, key: spec_fn(T) -> K) -> bool {
    forall|i: int, j: int|
        #![trigger s[i], s[j]]
        0 <= i < j < s.len() ==> key(s[i]) != key(s[j])
}

/// The items of `s` whose key no earlier item has, in their order.
pub open spec fn first_by_key<T, K>(s: Seq<T>, key: spec_fn(T) -> K) -> Seq<T>
    decreases s.len(),
{
    if s.len() == 0 {
        Seq::empty()
    } else {
        let head = first_by_key(s.drop_last(), key);
        if has_key(s.drop_last(), key, key(s.last())) {
            head
        } else {
            head.push(s.last())
        }
    }
}

/// The strings of `s` that no earlier string of `s` equals, in their order.
pub open spec fn first_occurrences(s: Seq<Seq<char>>) -> Seq<Seq<char>> {
    first_by_key(s, |x: Seq<char>| x)
}

/// `Itertools::unique` over the strings of a vector: of equal strings the
/// first stays, and what stays keeps its order.
#[verifier::external_body]
pub(crate) fn unique_strings(items: Vec<String>) -> (r: Vec<String>)
    ensures
        r.deep_view() == first_occurrences(items.deep_view()),
{
    items.into_iter().unique().collect()
}

/// `Itertools::unique_by` over runtimes, keyed by their manifests: of the
/// runtimes with the same manifests the first stays, and what stays keeps its
/// order.
#[verifier::external_body]
pub(crate) fn unique_by_manifests<R: PlatformRuntime>(items: Vec<R>) -> (r: Vec<R>)
    ensures
        r@ == first_by_key(items@, manifests_key::<R>()),
{
    items.into_iter().unique_by(|x| x.get_manifests()).collect()
}

/// The key under which runtimes count as the same: their manifests.
pub open spec fn manifests_key<R: PlatformRuntime>() -> spec_fn(R) -> Seq<Seq<char>> {
    |x: R| R::manifests_of(x.deep_view())
}

/// The key of a runtime's view: its manifests.
pub open spec fn view_manifests_key<R: PlatformRuntime>() -> spec_fn(R::V) -> Seq<Seq<char>> {
    |v: R::V| R::manifests_of(v)
}

/// What stays has the keys of what was there.
pub proof fn lemma_first_by_key_has_key<T, K>(s: Seq<T>, key: spec_fn(T) -> K, k: K)
    ensures
        has_key(first_by_key(s, key), key, k) <==> has_key(s, key, k),
    decreases s.len(),
{
    if s.len() > 0 {
        let rest = s.drop_last();
        let x = s.last();
        lemma_first_by_key_has_key(rest, key, k);
        let head = first_by_key(rest, key);
        let all = first_by_key(s, key);
        if has_key(all, key, k) {
            let i = choose|i: int| 0 <= i < all.len() && key(#[trigger] all[i]) == k;
            if i < head.len() {
                assert(all[i] == head[i]);
                assert(has_key(head, key, k));
                let j = choose|j: int| 0 <= j < rest.len() && key(#[trigger] rest[j]) == k;
                assert(s[j] == rest[j]);
            } else {
                assert(key(s[s.len() - 1]) == k);
            }
        }
        if has_key(s, key, k) {
            let j = choose|j: int| 0 <= j < s.len() && key(#[trigger] s[j]) == k;
            if j < rest.len() {
                assert(rest[j] == s[j]);
                assert(has_key(rest, key, k));
            }
            if has_key(rest, key, k) {
                assert(has_key(head, key, k));
                let i = choose|i: int| 0 <= i < head.len() && key(#[trigger] head[i]) == k;
                assert(all[i] == head[i]);
            } else {
                assert(key(all[all.len() - 1]) == k);
            }
        }
    }
}

/// Of what stays, no two items have the same key.
pub proof fn lemma_first_by_key_distinct<T, K>(s: Seq<T>, key: spec_fn(T) -> K)
    ensures
        distinct_keys(first_by_key(s, key), key),
    decreases s.len(),
{
    if s.len() > 0 {
        let rest = s.drop_last();
        let x = s.last();
        lemma_first_by_key_distinct(rest, key);
        let head = first_by_key(rest, key);
        let all = first_by_key(s, key);
        assert forall|i: int, j: int|
            #![trigger all[i], all[j]]
            0 <= i < j < all.len() implies key(all[i]) != key(all[j]) by {
            if j < head.len() {
                assert(all[i] == head[i] && all[j] == head[j]);
            } else {
                assert(all[i] == head[i]);
                assert(!has_key(rest, key, key(x)));
                lemma_first_by_key_has_key(rest, key, key(x));
                if key(head[i]) == key(x) {
                    assert(has_key(head, key, key(x)));
                }
            }
        }
    }
}

/// Where no two items have the same key, all stay.
pub proof fn lemma_first_by_key_of_distinct<T, K>(s: Seq<T>, key: spec_fn(T) -> K)
    requires
        distinct_keys(s, key),
    ensures
        first_by_key(s, key) == s,
    decreases s.len(),
{
    if s.len() > 0 {
        let rest = s.drop_last();
        assert(distinct_keys(rest, key)) by {
            assert forall|i: int, j: int|
                #![trigger rest[i], rest[j]]
                0 <= i < j < rest.len() implies key(rest[i]) != key(rest[j]) by {
                assert(rest[i] == s[i] && rest[j] == s[j]);
            }
        }
        lemma_first_by_key_of_distinct(rest, key);
        if has_key(rest, key, key(s.last())) {
            let i = choose|i: int| 0 <= i < rest.len() && key(#[trigger] rest[i]) == key(s.last());
            assert(rest[i] == s[i]);
            assert(s.last() == s[s.len() - 1]);
        }
        assert(rest.push(s.last()) =~= s);
    } else {
        assert(s =~= Seq::empty());
    }
}

/// Keeping the first of each kind is stable under what comes later: where
/// no two items of `old` have the same key, the first of each kind of `old`
/// followed by `new` are the items of `old`, as they stand, followed by the
/// first of each kind among the items of `new` whose key `old` does not have.
pub proof fn lemma_first_by_key_keeps_prefix<T, K>(old: Seq<T>, new: Seq<T>, key: spec_fn(T) -> K)
    requires
        distinct_keys(old, key),
    ensures
        first_by_key(old + new, key) == old + first_by_key(
            new.filter(|x: T| !has_key(old, key, key(x))),
            key,
        ),
    decreases new.len(),
{
    reveal(Seq::filter);
    let fresh = |x: T| !has_key(old, key, key(x));
    if new.len() == 0 {
        assert(old + new =~= old);
        lemma_first_by_key_of_distinct(old, key);
        assert(old + Seq::<T>::empty() =~= old);
    } else {
        let rest = new.drop_last();
        let x = new.last();
        lemma_first_by_key_keeps_prefix(old, rest, key);
        assert((old + new).drop_last() =~= old + rest);
        assert((old + new).last() == x);
        let kept = rest.filter(fresh);
        broadcast use vstd::seq_lib::group_filter_ensures;
        assert(has_key(old + rest, key, key(x)) <==> has_key(old, key, key(x)) || has_key(
            rest,
            key,
            key(x),
        )) by {
            if has_key(old + rest, key, key(x)) {
                let i = choose|i: int|
                    0 <= i < (old + rest).len() && key(#[trigger] (old + rest)[i]) == key(x);
                if i < old.len() {
                    assert(old[i] == (old + rest)[i]);
                } else {
                    assert(rest[i - old.len()] == (old + rest)[i]);
                }
            }
            if has_key(old, key, key(x)) {
                let i = choose|i: int| 0 <= i < old.len() && key(#[trigger] old[i]) == key(x);
                assert((old + rest)[i] == old[i]);
            }
            if has_key(rest, key, key(x)) {
                let i = choose|i: int| 0 <= i < rest.len() && key(#[trigger] rest[i]) == key(x);
                assert((old + rest)[i + old.len()] == rest[i]);
            }
        }
        if fresh(x) {
            assert(new.filter(fresh) == kept.push(x));
            assert(kept.push(x).drop_last() =~= kept);
            assert(has_key(kept, key, key(x)) <==> has_key(rest, key, key(x))) by {
                if has_key(kept, key, key(x)) {
                    let i = choose|i: int| 0 <= i < kept.len() && key(#[trigger] kept[i]) == key(x);
                    assert(kept.contains(kept[i]));
                    rest.lemma_filter_contains_rev(fresh, kept[i]);
                    let j = choose|j: int| 0 <= j < rest.len() && rest[j] == kept[i];
                    assert(key(rest[j]) == key(x));
                }
                if has_key(rest, key, key(x)) {
                    let j = choose|j: int| 0 <= j < rest.len() && key(#[trigger] rest[j]) == key(x);
                    assert(fresh(rest[j]));
                    assert(kept.contains(rest[j]));
                    let i = choose|i: int| 0 <= i < kept.len() && kept[i] == rest[j];
                    assert(key(kept[i]) == key(x));
                }
            }
            let tail = first_by_key(kept, key);
            assert((old + tail).push(x) =~= old + tail.push(x));
        } else {
            assert(new.filter(fresh) == kept);
        }
    }
}

/// Keeping the first of each kind goes through a change of representation:
/// what stays of the images is the images of what stays.
pub proof fn lemma_first_by_key_of_images<T, U, K>(
    s: Seq<T>,
    image: spec_fn(T) -> U,
    key: spec_fn(U) -> K,
    image_key: spec_fn(T) -> K,
)
    requires
        forall|x: T| #[trigger] image_key(x) == key(image(x)),
    ensures
        first_by_key(s, image_key).map_values(image) == first_by_key(s.map_values(image), key),
    decreases s.len(),
{
    if s.len() == 0 {
        assert(first_by_key(s, image_key).map_values(image) =~= Seq::<U>::empty());
    } else {
        let rest = s.drop_last();
        let x = s.last();
        lemma_first_by_key_of_images(rest, image, key, image_key);
        let images = s.map_values(image);
        assert(images.drop_last() =~= rest.map_values(image));
        assert(images.last() == image(x));
        assert(has_key(rest, image_key, image_key(x)) <==> has_key(
            rest.map_values(image),
            key,
            key(image(x)),
        )) by {
            if has_key(rest, image_key, image_key(x)) {
                let i = choose|i: int|
                    0 <= i < rest.len() && image_key(#[trigger] rest[i]) == image_key(x);
                assert(key(rest.map_values(image)[i]) == key(image(x)));
            }
            if has_key(rest.map_values(image), key, key(image(x))) {
                let i = choose|i: int|
                    0 <= i < rest.len() && key(#[trigger] rest.map_values(image)[i]) == key(
                        image(x),
                    );
                assert(image_key(rest[i]) == image_key(x));
            }
        }
        let head = first_by_key(rest, image_key);
        assert(head.push(x).map_values(image) =~= head.map_values(image).push(image(x)));
    }
}

} // verus!
