//! Ids in ascending order: the order in which a store lists its persons.

use vstd::prelude::*;

verus! {

/// Each id is smaller than every id behind it.
pub open spec fn ascending(ids: Seq<i32>) -> bool {
    forall|i: int, j: int| 0 <= i < j < ids.len() ==> ids[i] < ids[j]
}

/// An ascending sequence is fixed by the ids that occur in it.
pub proof fn lemma_ascending_unique(a: Seq<i32>, b: Seq<i32>)
    requires
        ascending(a),
        ascending(b),
        forall|x: i32| a.contains(x) <==> b.contains(x),
    ensures
        a == b,
    decreases a.len(),
{
    if a.len() == 0 {
        if b.len() > 0 {
            assert(b.contains(b[0]));
        }
    } else if b.len() == 0 {
        assert(a.contains(a[0]));
    } else {
        let last_a = a.last();
        let last_b = b.last();
        assert(b.contains(last_a));
        assert(a.contains(last_b));
        let front_a = a.drop_last();
        let front_b = b.drop_last();
        assert forall|x: i32| front_a.contains(x) <==> front_b.contains(x) by {
            if front_a.contains(x) {
                let i = choose|i: int| 0 <= i < front_a.len() && front_a[i] == x;
                assert(a.contains(x));
                let j = choose|j: int| 0 <= j < b.len() && b[j] == x;
                assert(front_b[j] == x);
            }
            if front_b.contains(x) {
                let j = choose|j: int| 0 <= j < front_b.len() && front_b[j] == x;
                assert(b.contains(x));
                let i = choose|i: int| 0 <= i < a.len() && a[i] == x;
                assert(front_a[i] == x);
            }
        }
        lemma_ascending_unique(front_a, front_b);
        assert(b =~= front_b.push(last_b));
    }
}

/// Puts `id` at its place in an ascending vector, unless it is there already.
pub(crate) fn insert_ascending(ids: &mut Vec<i32>, id: i32)
    requires
        ascending(old(ids)@),
    ensures
        ascending(final(ids)@),
        forall|x: i32| final(ids)@.contains(x) <==> old(ids)@.contains(x) || x == id,
{
    let mut at: usize = 0;
    while at < ids.len() && ids[at] < id
        invariant
            ids@ == old(ids)@,
            at <= ids@.len(),
            forall|i: int| 0 <= i < at ==> ids@[i] < id,
        decreases ids@.len() - at,
    {
        at = at + 1;
    }
    if at < ids.len() && ids[at] == id {
        return ;
    }
    ids.insert(at, id);
    proof {
        let before = old(ids)@;
        let after = ids@;
        assert(after[at as int] == id);
        assert forall|i: int| 0 <= i < at implies after[i] == before[i] by {}
        assert forall|i: int| at < i < after.len() implies after[i] == before[i - 1] by {}
        assert forall|x: i32| after.contains(x) <==> before.contains(x) || x == id by {
            if before.contains(x) {
                let i = choose|i: int| 0 <= i < before.len() && before[i] == x;
                if i >= at {
                    assert(after[i + 1] == x);
                }
            }
        }
    }
}

} // verus!
