use vstd::prelude::*;

use crate::store::{appended, appended_all};
use crate::task::{projected, Task};
use crate::text::blank;

verus! {

/// Removing the task at `p` shortens the projection by one, keeps every view
/// before `p`, and gives every task that stood after `p` an `id` one less,
/// with its description and state unchanged.
pub proof fn lemma_remove_shifts_ids(s: Seq<Task>, p: int)
    requires
        0 <= p < s.len(),
        s.len() <= usize::MAX,
    ensures
        projected(s.remove(p)).len() == projected(s).len() - 1,
        forall|i: int| 0 <= i < p ==> #[trigger] projected(s.remove(p))[i] == projected(s)[i],
        forall|i: int|
            p < i < s.len() ==> {
                &&& (#[trigger] projected(s)[i]).id == i
                &&& projected(s.remove(p))[i - 1].id == i - 1
                &&& projected(s.remove(p))[i - 1].description == projected(s)[i].description
                &&& projected(s.remove(p))[i - 1].done == projected(s)[i].done
            },
{
}

/// Appending descriptions one after another, none of them blank, adds one
/// task per description, in order and not done, and loses none of them.
pub proof fn lemma_appends_count(s: Seq<Task>, ds: Seq<String>)
    requires
        forall|k: int| 0 <= k < ds.len() ==> !blank(#[trigger] ds[k]@),
    ensures
        appended_all(s, ds).len() == s.len() + ds.len(),
        appended_all(s, ds) == s + ds.map_values(|d: String| Task { description: d, done: false }),
    decreases ds.len(),
{
    let f = |d: String| Task { description: d, done: false };
    if ds.len() == 0 {
        assert(s + ds.map_values(f) =~= s);
    } else {
        let front = ds.drop_last();
        assert forall|k: int| 0 <= k < front.len() implies !blank(#[trigger] front[k]@) by {
            assert(front[k] == ds[k]);
        }
        lemma_appends_count(s, front);
        assert(!blank(ds[ds.len() - 1]@));
        assert(appended(s + front.map_values(f), ds.last()) == (s + front.map_values(f)).push(
            f(ds.last()),
        ));
        assert((s + front.map_values(f)).push(f(ds.last())) =~= s + ds.map_values(f));
    }
}

} // verus!
