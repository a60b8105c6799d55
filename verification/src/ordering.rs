//! Ordering records by their time stamp, newest first, with records of the
//! same time kept in the order they came in.
use vstd::prelude::*;

verus! {

/// A record that carries a time stamp.
pub trait Dated {
    /// The time stamp of the record.
    spec fn stamp(&self) -> u64;

    /// The time stamp of the record.
    fn time_stamp(&self) -> (t: u64)
        ensures
            t == self.stamp(),
    ;
}

/// The position at which a record of the time `stamp` goes into `sorted`:
/// behind every record that is as new or newer.
pub open spec fn slot<T: Dated>(sorted: Seq<T>, stamp: u64) -> int
    decreases sorted.len(),
{
    if sorted.len() == 0 {
        0
    } else if sorted.last().stamp() >= stamp {
        sorted.len() as int
    } else {
        slot(sorted.drop_last(), stamp)
    }
}

/// The records newest first; those of the same time keep their order.
pub open spec fn newest_first<T: Dated>(records: Seq<T>) -> Seq<T>
    decreases records.len(),
{
    if records.len() == 0 {
        records
    } else {
        let sorted = newest_first(records.drop_last());
        sorted.insert(slot(sorted, records.last().stamp()), records.last())
    }
}

/// No record stands before a newer one.
pub open spec fn descending<T: Dated>(records: Seq<T>) -> bool {
    forall|i: int, j: int|
        0 <= i < j < records.len() ==> (#[trigger] records[i]).stamp() >= (
        #[trigger] records[j]).stamp()
}

/// The slot lies within the sequence; with the sequence descending, all
/// records before it are as new or newer, all from it on are older.
pub proof fn lemma_slot<T: Dated>(sorted: Seq<T>, stamp: u64)
    requires
        descending(sorted),
    ensures
        0 <= slot(sorted, stamp) <= sorted.len(),
        forall|i: int| 0 <= i < slot(sorted, stamp) ==> (#[trigger] sorted[i]).stamp() >= stamp,
        forall|i: int|
            slot(sorted, stamp) <= i < sorted.len() ==> (#[trigger] sorted[i]).stamp() < stamp,
    decreases sorted.len(),
{
    if sorted.len() > 0 && sorted.last().stamp() < stamp {
        let front = sorted.drop_last();
        assert forall|i: int, j: int| 0 <= i < j < front.len() implies (#[trigger] front[i]).stamp()
            >= (#[trigger] front[j]).stamp() by {
            assert(front[i] == sorted[i] && front[j] == sorted[j]);
        }
        lemma_slot(front, stamp);
        assert forall|i: int| 0 <= i < slot(sorted, stamp) implies (#[trigger] sorted[i]).stamp()
            >= stamp by {
            assert(front[i] == sorted[i]);
        }
        assert forall|i: int| slot(sorted, stamp) <= i < sorted.len() implies (
        #[trigger] sorted[i]).stamp() < stamp by {
            if i < front.len() {
                assert(front[i] == sorted[i]);
            }
        }
    } else if sorted.len() > 0 {
        assert forall|i: int| 0 <= i < sorted.len() implies (#[trigger] sorted[i]).stamp()
            >= stamp by {
            if i < sorted.len() - 1 {
                assert(sorted[i].stamp() >= sorted[sorted.len() - 1].stamp());
            }
        }
    }
}

/// The records newest first are the same records, each as often as before,
/// and none of them stands before a newer one.
pub proof fn lemma_newest_first<T: Dated>(records: Seq<T>)
    ensures
        newest_first(records).len() == records.len(),
        newest_first(records).to_multiset() == records.to_multiset(),
        descending(newest_first(records)),
    decreases records.len(),
{
    broadcast use vstd::seq_lib::group_to_multiset_ensures;

    if records.len() > 0 {
        let front = records.drop_last();
        let last = records.last();
        lemma_newest_first(front);
        let sorted = newest_first(front);
        lemma_slot(sorted, last.stamp());
        let at = slot(sorted, last.stamp());
        let result = sorted.insert(at, last);
        assert(records =~= front.push(last));
        assert(result.to_multiset() =~= sorted.to_multiset().insert(last)) by {
            vstd::seq_lib::to_multiset_remove(result, at);
            assert(result.remove(at) =~= sorted);
            assert(result[at] == last);
            assert(result.contains(last));
            result.to_multiset_ensures();
        }
        assert forall|i: int, j: int| 0 <= i < j < result.len() implies (
        #[trigger] result[i]).stamp() >= (#[trigger] result[j]).stamp() by {
            let a = if i < at {
                sorted[i]
            } else if i == at {
                last
            } else {
                sorted[i - 1]
            };
            let b = if j < at {
                sorted[j]
            } else if j == at {
                last
            } else {
                sorted[j - 1]
            };
            assert(result[i] == a && result[j] == b);
        }
    }
}

/// The records at the positions `order`, in that order.
pub open spec fn picked<T>(records: Seq<T>, order: Seq<usize>) -> Seq<T> {
    Seq::new(order.len(), |i: int| records[order[i] as int])
}

/// The positions of the records, ordered so that the records come newest
/// first.
pub fn newest_first_order<T: Dated>(records: &Vec<T>) -> (order: Vec<usize>)
    ensures
        order@.len() == records@.len(),
        forall|i: int| 0 <= i < order@.len() ==> #[trigger] order@[i] < records@.len(),
        picked(records@, order@) == newest_first(records@),
{
    let mut order: Vec<usize> = Vec::new();
    let mut k: usize = 0;
    proof {
        assert(records@.take(0) =~= Seq::<T>::empty());
        assert(picked(records@, order@) =~= newest_first(records@.take(0)));
    }
    while k < records.len()
        invariant
            k <= records.len(),
            order@.len() == k,
            forall|i: int| 0 <= i < order@.len() ==> #[trigger] order@[i] < k,
            picked(records@, order@) == newest_first(records@.take(k as int)),
        decreases records.len() - k,
    {
        let stamp = records[k].time_stamp();
        let ghost sorted = picked(records@, order@);
        // Walk back from the end over the records that are older.
        let mut at: usize = order.len();
        assert(sorted.take(at as int) =~= sorted);
        while at > 0 && records[order[at - 1]].time_stamp() < stamp
            invariant
                at <= order@.len(),
                order@.len() == k,
                k < records.len(),
                sorted == picked(records@, order@),
                forall|i: int| 0 <= i < order@.len() ==> #[trigger] order@[i] < k,
                slot(sorted, stamp) == slot(sorted.take(at as int), stamp),
            decreases at,
        {
            assert(sorted.take(at as int).last() == sorted[at - 1]);
            assert(sorted.take(at as int).drop_last() =~= sorted.take(at - 1));
            at -= 1;
        }
        proof {
            if at > 0 {
                assert(sorted.take(at as int).last() == sorted[at - 1]);
            }
            assert(slot(sorted, stamp) == at);
            assert(sorted.take(order@.len() as int) =~= sorted);
            assert(records@.take(k + 1).drop_last() =~= records@.take(k as int));
            assert(records@.take(k + 1).last() == records@[k as int]);
        }
        order.insert(at, k);
        proof {
            assert(picked(records@, order@) =~= sorted.insert(at as int, records@[k as int]));
        }
        k += 1;
    }
    assert(records@.take(records@.len() as int) =~= records@);
    order
}

} // verus!
