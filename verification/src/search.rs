//! Finding the first element of a sequence that has a property.

use vstd::prelude::*;

verus! {

/// The least position at or after `from` whose element has the property `wanted`.
pub open spec fn first_index_from<T>(list: Seq<T>, wanted: spec_fn(T) -> bool, from: int) -> Option<int>
    decreases list.len() - from,
{
    if from < 0 || from >= list.len() {
        None
    } else if wanted(list[from]) {
        Some(from)
    } else {
        first_index_from(list, wanted, from + 1)
    }
}

/// The least position whose element has the property `wanted`.
pub open spec fn first_index<T>(list: Seq<T>, wanted: spec_fn(T) -> bool) -> Option<int> {
    first_index_from(list, wanted, 0)
}

/// The first element that has the property `wanted`.
pub open spec fn first_match<T>(list: Seq<T>, wanted: spec_fn(T) -> bool) -> Option<T> {
    match first_index(list, wanted) {
        Some(i) => Some(list[i]),
        None => None,
    }
}

/// If no element before `at` has the property, and the one at `at` has it
/// (or `at` is the end), then `at` is what `first_index` gives (or `None`).
pub proof fn lemma_first_index_is<T>(list: Seq<T>, wanted: spec_fn(T) -> bool, at: int)
    requires
        0 <= at <= list.len(),
        forall|j: int| 0 <= j < at ==> !wanted(#[trigger] list[j]),
        at < list.len() ==> wanted(list[at]),
    ensures
        first_index(list, wanted) == (if at < list.len() {
            Some(at)
        } else {
            None
        }),
{
    lemma_first_index_from_is(list, wanted, at, 0);
}

proof fn lemma_first_index_from_is<T>(list: Seq<T>, wanted: spec_fn(T) -> bool, at: int, from: int)
    requires
        0 <= from <= at <= list.len(),
        forall|j: int| 0 <= j < at ==> !wanted(#[trigger] list[j]),
        at < list.len() ==> wanted(list[at]),
    ensures
        first_index_from(list, wanted, from) == (if at < list.len() {
            Some(at)
        } else {
            None
        }),
    decreases at - from,
{
    if from < at {
        lemma_first_index_from_is(list, wanted, at, from + 1);
    }
}

/// What `first_index` gives lies in the list and has the property, nothing
/// before it has; and where it gives nothing, no element has the property.
pub proof fn lemma_first_index_least<T>(list: Seq<T>, wanted: spec_fn(T) -> bool)
    ensures
        match first_index(list, wanted) {
            Some(i) => 0 <= i < list.len() && wanted(list[i]) && forall|j: int|
                0 <= j < i ==> !wanted(#[trigger] list[j]),
            None => forall|j: int| 0 <= j < list.len() ==> !wanted(#[trigger] list[j]),
        },
{
    lemma_first_index_from_least(list, wanted, 0);
}

proof fn lemma_first_index_from_least<T>(list: Seq<T>, wanted: spec_fn(T) -> bool, from: int)
    requires
        0 <= from,
    ensures
        match first_index_from(list, wanted, from) {
            Some(i) => from <= i < list.len() && wanted(list[i]) && forall|j: int|
                from <= j < i ==> !wanted(#[trigger] list[j]),
            None => forall|j: int| from <= j < list.len() ==> !wanted(#[trigger] list[j]),
        },
    decreases list.len() - from,
{
    if from < list.len() && !wanted(list[from]) {
        lemma_first_index_from_least(list, wanted, from + 1);
    }
}

/// Changing the elements of a list in a way that keeps the property of each
/// does not change where the first element with the property stands.
pub proof fn lemma_first_index_map<T>(list: Seq<T>, change: spec_fn(T) -> T, wanted: spec_fn(T) -> bool)
    requires
        forall|j: int| 0 <= j < list.len() ==> wanted(change(#[trigger] list[j])) == wanted(list[j]),
    ensures
        first_index(list.map_values(change), wanted) == first_index(list, wanted),
{
    let changed = list.map_values(change);
    lemma_first_index_least(list, wanted);
    match first_index(list, wanted) {
        Some(i) => {
            assert forall|j: int| 0 <= j < i implies !wanted(#[trigger] changed[j]) by {
                assert(changed[j] == change(list[j]));
            }
            assert(changed[i] == change(list[i]));
            lemma_first_index_is(changed, wanted, i);
        },
        None => {
            assert forall|j: int| 0 <= j < changed.len() implies !wanted(#[trigger] changed[j]) by {
                assert(changed[j] == change(list[j]));
            }
            lemma_first_index_is(changed, wanted, changed.len() as int);
        },
    }
}

} // verus!
