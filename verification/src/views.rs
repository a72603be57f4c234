//! Views of the standard shapes that carry the crate's values.

use vstd::prelude::*;

verus! {

/// The view of a result: that of the value or that of the error.
pub open spec fn result_view<T: DeepView, E: DeepView>(r: Result<T, E>) -> Result<T::V, E::V> {
    match r {
        Ok(value) => Ok(value.deep_view()),
        Err(error) => Err(error.deep_view()),
    }
}

/// The view of a list of pairs of strings after one more is pushed: the
/// view before, with the views of the two strings pushed.
pub(crate) proof fn lemma_pushed_pair(
    before: Seq<(String, String)>,
    after: Seq<(String, String)>,
    name: String,
    value: String,
)
    requires
        after == before.push((name, value)),
    ensures
        Seq::new(after.len(), |i: int| after[i].deep_view()) == Seq::new(
            before.len(),
            |i: int| before[i].deep_view(),
        ).push((name@, value@)),
{
    assert(Seq::new(after.len(), |i: int| after[i].deep_view()) =~= Seq::new(
        before.len(),
        |i: int| before[i].deep_view(),
    ).push((name@, value@)));
}

} // verus!
