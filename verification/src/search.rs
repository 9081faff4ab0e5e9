//! The first place in a list at which something holds.

use vstd::prelude::*;

verus! {

/// Whether `i` is the first position at which `marks` is true.
pub open spec fn is_first_true(marks: Seq<bool>, i: int) -> bool {
    &&& 0 <= i < marks.len()
    &&& marks[i]
    &&& forall|j: int| 0 <= j < i ==> !#[trigger] marks[j]
}

/// The first position at which `marks` is true, if there is one.
pub open spec fn first_true(marks: Seq<bool>) -> Option<int> {
    if exists|i: int| is_first_true(marks, i) {
        Some(choose|i: int| is_first_true(marks, i))
    } else {
        None
    }
}

/// A position that is the first true one is the one that `first_true` names.
pub proof fn lemma_first_true_is(marks: Seq<bool>, i: int)
    requires
        is_first_true(marks, i),
    ensures
        first_true(marks) == Some(i),
{
    let k = choose|k: int| is_first_true(marks, k);
    assert(is_first_true(marks, k));
    if k < i {
        assert(!marks[k]);
    }
    if i < k {
        assert(!marks[i]);
    }
}

/// Where nothing is true, `first_true` names no position.
pub proof fn lemma_first_true_none(marks: Seq<bool>)
    requires
        forall|j: int| 0 <= j < marks.len() ==> !#[trigger] marks[j],
    ensures
        first_true(marks) is None,
{
}

/// What `first_true` says: the position it names is the first true one, and
/// where it names none, nothing is true.
pub proof fn lemma_first_true(marks: Seq<bool>)
    ensures
        first_true(marks) matches Some(i) ==> is_first_true(marks, i),
        first_true(marks) is None ==> forall|j: int|
            0 <= j < marks.len() ==> !#[trigger] marks[j],
{
    if first_true(marks) is None {
        assert forall|j: int| 0 <= j < marks.len() implies !#[trigger] marks[j] by {
            if marks[j] {
                lemma_some_true_has_first(marks, j);
            }
        }
    }
}

/// Where something is true, some position is the first true one.
pub proof fn lemma_some_true_has_first(marks: Seq<bool>, j: int)
    requires
        0 <= j < marks.len(),
        marks[j],
    ensures
        exists|i: int| is_first_true(marks, i),
    decreases j,
{
    if exists|k: int| 0 <= k < j && marks[k] {
        let k = choose|k: int| 0 <= k < j && marks[k];
        lemma_some_true_has_first(marks, k);
    } else {
        assert(is_first_true(marks, j));
    }
}

} // verus!
