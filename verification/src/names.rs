//! Reasoning about ordered lists of names.
//!
//! Lessons and units are identified by name, and every lookup in the catalog
//! is a search through an ordered list of names. The predicates here say what
//! such a search finds; the lemmas connect them to the absence of duplicates.

use vstd::prelude::*;

verus! {

/// A name as the contracts see it: the characters of the string.
pub type Name = Seq<char>;

/// `i` is the position of the first occurrence of `wanted` in `names`.
pub open spec fn is_first_index(names: Seq<Name>, wanted: Name, i: int) -> bool {
    &&& 0 <= i < names.len()
    &&& names[i] == wanted
    &&& forall|k: int| 0 <= k < i ==> names[k] != wanted
}

/// The position of the first occurrence of `wanted` in `names`, if it occurs.
pub open spec fn position(names: Seq<Name>, wanted: Name) -> Option<int> {
    if names.contains(wanted) {
        Some(choose|i: int| is_first_index(names, wanted, i))
    } else {
        None
    }
}

/// A first occurrence is the only first occurrence, so it is what `position`
/// reports.
pub proof fn lemma_position_is_first(names: Seq<Name>, wanted: Name, i: int)
    requires
        is_first_index(names, wanted, i),
    ensures
        position(names, wanted) == Some(i),
{
    assert(names.contains(wanted));
    let c = choose|c: int| is_first_index(names, wanted, c);
    assert(is_first_index(names, wanted, c));
    if c < i {
        assert(names[c] != wanted);
    } else if i < c {
        assert(names[i] != wanted);
    }
}

/// What `position` reports really is a first occurrence.
pub proof fn lemma_position_found(names: Seq<Name>, wanted: Name)
    requires
        names.contains(wanted),
    ensures
        position(names, wanted) matches Some(i) && is_first_index(names, wanted, i),
{
    let some = choose|k: int| 0 <= k < names.len() && names[k] == wanted;
    lemma_has_first_index(names, wanted, some);
}

/// If `wanted` occurs at `k`, it has a first occurrence at or before `k`.
pub proof fn lemma_has_first_index(names: Seq<Name>, wanted: Name, k: int)
    requires
        0 <= k < names.len(),
        names[k] == wanted,
    ensures
        exists|i: int| 0 <= i <= k && is_first_index(names, wanted, i),
    decreases k,
{
    if exists|e: int| 0 <= e < k && names[e] == wanted {
        let e = choose|e: int| 0 <= e < k && names[e] == wanted;
        lemma_has_first_index(names, wanted, e);
        let i = choose|i: int| 0 <= i <= e && is_first_index(names, wanted, i);
        assert(0 <= i <= k && is_first_index(names, wanted, i));
    } else {
        assert(is_first_index(names, wanted, k));
    }
}

/// The name at position `j` also occurs at an earlier position.
pub open spec fn repeats_earlier(names: Seq<Name>, j: int) -> bool {
    exists|i: int| 0 <= i < j && names[i] == names[j]
}

/// `j` is the first position whose name already occurred before it.
pub open spec fn is_first_repeat(names: Seq<Name>, j: int) -> bool {
    &&& 0 <= j < names.len()
    &&& repeats_earlier(names, j)
    &&& forall|k: int| 0 <= k < j ==> !repeats_earlier(names, k)
}

/// The first position whose name already occurred before it, if there is one.
pub open spec fn first_repeat(names: Seq<Name>) -> Option<int> {
    if exists|j: int| is_first_repeat(names, j) {
        Some(choose|j: int| is_first_repeat(names, j))
    } else {
        None
    }
}

/// A first repeat is the only first repeat, so it is what `first_repeat`
/// reports.
pub proof fn lemma_first_repeat_is(names: Seq<Name>, j: int)
    requires
        is_first_repeat(names, j),
    ensures
        first_repeat(names) == Some(j),
{
    let c = choose|c: int| is_first_repeat(names, c);
    assert(is_first_repeat(names, c));
    if c < j {
        assert(!repeats_earlier(names, c));
    } else if j < c {
        assert(!repeats_earlier(names, j));
    }
}

/// Without a repeating position there is no first repeat, and the list has
/// no duplicates; with a first repeat it has one.
pub proof fn lemma_first_repeat_none(names: Seq<Name>)
    ensures
        first_repeat(names) is None <==> names.no_duplicates(),
{
    lemma_duplicates_iff_repeat(names);
    if names.no_duplicates() {
        assert forall|j: int| !is_first_repeat(names, j) by {}
    } else {
        let r = choose|r: int| 0 <= r < names.len() && repeats_earlier(names, r);
        lemma_has_first_repeat(names, r);
    }
}

/// If some position up to `r` repeats an earlier name, there is a first one.
pub proof fn lemma_has_first_repeat(names: Seq<Name>, r: int)
    requires
        0 <= r < names.len(),
        repeats_earlier(names, r),
    ensures
        exists|j: int| 0 <= j <= r && is_first_repeat(names, j),
    decreases r,
{
    if exists|e: int| 0 <= e < r && repeats_earlier(names, e) {
        let e = choose|e: int| 0 <= e < r && repeats_earlier(names, e);
        lemma_has_first_repeat(names, e);
        let j = choose|j: int| 0 <= j <= e && is_first_repeat(names, j);
        assert(0 <= j <= r && is_first_repeat(names, j));
    } else {
        assert(is_first_repeat(names, r));
    }
}

/// A list of names has a duplicate exactly when some position repeats an
/// earlier one.
pub proof fn lemma_duplicates_iff_repeat(names: Seq<Name>)
    ensures
        names.no_duplicates() <==> forall|j: int| 0 <= j < names.len() ==> !repeats_earlier(names, j),
{
    if names.no_duplicates() {
        assert forall|j: int| 0 <= j < names.len() implies !repeats_earlier(names, j) by {
            if repeats_earlier(names, j) {
                let i = choose|i: int| 0 <= i < j && names[i] == names[j];
                assert(names[i] != names[j]);
            }
        }
    }
    if forall|j: int| 0 <= j < names.len() ==> !repeats_earlier(names, j) {
        assert forall|i: int, j: int|
            0 <= i < names.len() && 0 <= j < names.len() && i != j implies names[i] != names[j] by {
            if names[i] == names[j] {
                if i < j {
                    assert(repeats_earlier(names, j));
                } else {
                    assert(repeats_earlier(names, i));
                }
            }
        }
    }
}

/// Appending a name that does not occur yet keeps a list free of duplicates.
pub proof fn lemma_push_fresh(names: Seq<Name>, fresh: Name)
    requires
        names.no_duplicates(),
        !names.contains(fresh),
    ensures
        names.push(fresh).no_duplicates(),
{
    let longer = names.push(fresh);
    assert forall|i: int, j: int|
        0 <= i < longer.len() && 0 <= j < longer.len() && i != j implies longer[i] != longer[j] by {
        if i < names.len() && j < names.len() {
            assert(names[i] != names[j]);
        } else if i < names.len() {
            assert(names.contains(names[i]));
        } else {
            assert(names.contains(names[j]));
        }
    }
}

} // verus!
