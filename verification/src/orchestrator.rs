//! Startup decisions: partitioning the synchronized tag list into
//! contiguous near-equal slices, one per producer, and the metrics
//! arithmetic of the ten-second reporting window.

use vstd::prelude::*;
use vstd::arithmetic::div_mod::{lemma_div_is_ordered, lemma_div_by_self};
use crate::text::clone_bytes;

verus! {

/// Length of the metrics reporting window, in seconds.
pub const METRICS_PERIOD_SECS: u64 = 10;

/// Deep view of a list of byte records.
pub open spec fn records_view(v: Seq<Vec<u8>>) -> Seq<Seq<u8>> {
    v.map_values(|r: Vec<u8>| r@)
}

/// Deep view of a list of chunks of byte records.
pub open spec fn chunks_view(v: Seq<Vec<Vec<u8>>>) -> Seq<Seq<Seq<u8>>> {
    v.map_values(|c: Vec<Vec<u8>>| records_view(c@))
}

/// Splits `items` into contiguous chunks of `size` records; a final
/// chunk smaller than `size` takes whatever remains.
pub fn chunks_of(items: &Vec<Vec<u8>>, size: usize) -> (r: Vec<Vec<Vec<u8>>>)
    requires
        1 <= size,
    ensures
        chunks_view(r@).flatten() == records_view(items@),
        forall|i: int|
            0 <= i < r@.len() - 1 ==> #[trigger] chunks_view(r@)[i].len() == size,
        r@.len() > 0 ==> 1 <= chunks_view(r@).last().len() <= size,
        items@.len() == 0 ==> r@.len() == 0,
        r@.len() == 0 ==> items@.len() == 0,
{
    broadcast use vstd::seq_lib::group_seq_properties;

    let ghost all = records_view(items@);
    let total = items.len();
    let mut r: Vec<Vec<Vec<u8>>> = Vec::new();
    let mut start: usize = 0;
    while start < total
        invariant
            1 <= size,
            total == items.len(),
            all == records_view(items@),
            start <= total,
            start == total || r@.len() == 0 || chunks_view(r@).last().len() == size,
            chunks_view(r@).flatten() =~= all.take(start as int),
            forall|i: int|
                0 <= i < r@.len() ==> (#[trigger] chunks_view(r@)[i].len() == size
                    || (i == r@.len() - 1 && start == total
                        && 1 <= chunks_view(r@)[i].len() <= size)),
            r@.len() == 0 ==> start == 0,
            total == 0 ==> r@.len() == 0,
        decreases total - start,
    {
        let remaining = total - start;
        let len = if remaining < size {
            remaining
        } else {
            size
        };
        let end = start + len;
        let mut chunk: Vec<Vec<u8>> = Vec::new();
        let mut j: usize = start;
        while j < end
            invariant
                start <= j <= end <= total,
                total == items.len(),
                all == records_view(items@),
                records_view(chunk@) =~= all.subrange(start as int, j as int),
            decreases end - j,
        {
            let rec = clone_bytes(&items[j]);
            chunk.push(rec);
            proof {
                assert(records_view(chunk@)
                    =~= all.subrange(start as int, j as int).push(all[j as int]));
                assert(records_view(chunk@) =~= all.subrange(start as int, j + 1));
            }
            j = j + 1;
        }
        proof {
            assert(chunks_view(r@.push(chunk))
                =~= chunks_view(r@).push(records_view(chunk@)));
            chunks_view(r@).lemma_flatten_push(records_view(chunk@));
            assert(all.take(start as int) + all.subrange(start as int, end as int)
                =~= all.take(end as int));
        }
        r.push(chunk);
        start = end;
    }
    proof {
        assert(all.take(total as int) =~= all);
    }
    r
}

/// Partitions the tag list into one contiguous slice per producer of
/// `len / num_producers` tags each; when the division is not exact, a
/// trailing chunk takes the remainder.
pub fn partition_for_producers(tags: &Vec<Vec<u8>>, num_producers: usize) -> (r: Vec<Vec<Vec<u8>>>)
    requires
        1 <= num_producers <= tags@.len(),
    ensures
        ({
            let size = tags@.len() as int / num_producers as int;
            &&& chunks_view(r@).flatten() == records_view(tags@)
            &&& forall|i: int|
                0 <= i < r@.len() - 1 ==> #[trigger] chunks_view(r@)[i].len() == size
            &&& r@.len() > 0 ==> 1 <= chunks_view(r@).last().len() <= size
            &&& r@.len() > 0
        }),
{
    let size = tags.len() / num_producers;
    proof {
        lemma_div_is_ordered(num_producers as int, tags@.len() as int, num_producers as int);
        lemma_div_by_self(num_producers as int);
    }
    let r = chunks_of(tags, size);
    proof {
        assert(records_view(tags@).len() > 0);
    }
    r
}

/// Startup state: the synchronized tag list and the worker counts.
pub struct SystemInitializer {
    pub tags_vec: Vec<Vec<u8>>,
    pub num_producers: usize,
    pub num_consumers: usize,
}

impl SystemInitializer {
    pub fn new(tags_vec: Vec<Vec<u8>>, num_producers: usize, num_consumers: usize) -> (s: Self)
        ensures
            s.tags_vec == tags_vec,
            s.num_producers == num_producers,
            s.num_consumers == num_consumers,
    {
        SystemInitializer { tags_vec, num_producers, num_consumers }
    }

    /// The slice of tags each producer is given at startup.
    pub fn partition_tags(&self) -> (r: Vec<Vec<Vec<u8>>>)
        requires
            1 <= self.num_producers <= self.tags_vec@.len(),
        ensures
            ({
                let size = self.tags_vec@.len() as int / self.num_producers as int;
                &&& chunks_view(r@).flatten() == records_view(self.tags_vec@)
                &&& forall|i: int|
                    0 <= i < r@.len() - 1 ==> #[trigger] chunks_view(r@)[i].len() == size
                &&& r@.len() > 0 ==> 1 <= chunks_view(r@).last().len() <= size
                &&& r@.len() > 0
            }),
    {
        partition_for_producers(&self.tags_vec, self.num_producers)
    }
}

/// Per-second average reported for a ten-second metrics window.
pub fn average_per_second(consumed_in_window: usize) -> (r: usize)
    ensures
        r == consumed_in_window / 10,
{
    consumed_in_window / 10
}

} // verus!
