//! Finding the first item of a sequence that is wanted.

use vstd::prelude::*;

verus! {

/// The index of the first item of `s` that is wanted, if there is one.
pub open spec fn first_index<T>(s: Seq<T>, wanted: spec_fn(T) -> bool) -> Option<int>
    decreases s.len(),
{
    if s.len() == 0 {
        None
    } else if wanted(s[0]) {
        Some(0)
    } else {
        match first_index(s.drop_first(), wanted) {
            Some(i) => Some(i + 1),
            None => None,
        }
    }
}

/// The index that `first_index` gives is that of a wanted item before
/// which none is wanted, and it gives none where no item is wanted.
pub proof fn lemma_first_index<T>(s: Seq<T>, wanted: spec_fn(T) -> bool)
    ensures
        match first_index(s, wanted) {
            Some(i) => 0 <= i < s.len() && wanted(s[i]) && forall|j: int|
                0 <= j < i ==> !wanted(#[trigger] s[j]),
            None => forall|j: int| 0 <= j < s.len() ==> !wanted(#[trigger] s[j]),
        },
    decreases s.len(),
{
    if s.len() > 0 && !wanted(s[0]) {
        let rest = s.drop_first();
        lemma_first_index(rest, wanted);
        match first_index(rest, wanted) {
            Some(i) => {
                assert(rest[i] == s[i + 1]);
                assert forall|j: int| 0 <= j < i + 1 implies !wanted(#[trigger] s[j]) by {
                    if j > 0 {
                        assert(rest[j - 1] == s[j]);
                    }
                }
            },
            None => {
                assert forall|j: int| 0 <= j < s.len() implies !wanted(#[trigger] s[j]) by {
                    if j > 0 {
                        assert(rest[j - 1] == s[j]);
                    }
                }
            },
        }
    }
}

/// An index is the first index of a wanted item if the item there is
/// wanted and none before it is.
pub proof fn lemma_first_index_is<T>(s: Seq<T>, wanted: spec_fn(T) -> bool, i: int)
    requires
        0 <= i < s.len(),
        wanted(s[i]),
        forall|j: int| 0 <= j < i ==> !wanted(#[trigger] s[j]),
    ensures
        first_index(s, wanted) == Some(i),
{
    lemma_first_index(s, wanted);
}

/// No index is the first index of a wanted item where no item is wanted.
pub proof fn lemma_first_index_is_none<T>(s: Seq<T>, wanted: spec_fn(T) -> bool)
    requires
        forall|j: int| 0 <= j < s.len() ==> !wanted(#[trigger] s[j]),
    ensures
        first_index(s, wanted) is None,
{
    lemma_first_index(s, wanted);
}

} // verus!
