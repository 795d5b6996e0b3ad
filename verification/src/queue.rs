//! Bounded FIFO of encoded records shared between producers and
//! consumers, with observability counters.
//!
//! The queue is the only shared mutable state of the bridge.  Callers
//! that need blocking behaviour wrap a `Queue` in a lock: an enqueue on
//! a full queue and a dequeue on an empty queue must wait until the
//! guarding condition holds, which is exactly what `enqueue` and
//! `dequeue` require.

use vstd::prelude::*;
use std::collections::VecDeque;

verus! {

/// Default capacity of the process-wide record queue.
pub const DEFAULT_QUEUE_CAPACITY: usize = 500000;

/// Bounded FIFO of opaque byte-records with cumulative counters and a
/// resettable metrics window.
pub struct Queue {
    buffer: VecDeque<Vec<u8>>,
    max_size: usize,
    produced: usize,
    consumed: usize,
    produced_at_reset: usize,
    consumed_at_reset: usize,
    history: Ghost<Seq<Seq<u8>>>,
}

impl Queue {
    /// Capacity the queue was created with.
    pub closed spec fn capacity(self) -> int {
        self.max_size as int
    }

    /// Number of records currently buffered.
    pub closed spec fn size(self) -> int {
        self.buffer@.len() as int
    }

    /// Every record ever enqueued, oldest first.
    pub closed spec fn enqueued(self) -> Seq<Seq<u8>> {
        self.history@
    }

    /// Every record ever dequeued, in dequeue order.
    pub closed spec fn dequeued(self) -> Seq<Seq<u8>> {
        self.history@.take(self.consumed as int)
    }

    /// Total number of records enqueued since creation.
    pub closed spec fn produced_total(self) -> int {
        self.produced as int
    }

    /// Total number of records dequeued since creation.
    pub closed spec fn consumed_total(self) -> int {
        self.consumed as int
    }

    /// Records enqueued since the counters were last reset.
    pub closed spec fn produced_window(self) -> int {
        self.produced - self.produced_at_reset
    }

    /// Records dequeued since the counters were last reset.
    pub closed spec fn consumed_window(self) -> int {
        self.consumed - self.consumed_at_reset
    }

    /// Well-formedness: the buffer holds exactly the enqueued records
    /// that were not yet dequeued, in enqueue order, and never more
    /// than the capacity.
    pub closed spec fn wf(self) -> bool {
        &&& self.consumed <= self.produced
        &&& self.produced - self.consumed == self.buffer@.len()
        &&& self.buffer@.len() <= self.max_size
        &&& self.history@.len() == self.produced
        &&& self.buffer@.map_values(|r: Vec<u8>| r@)
            == self.history@.subrange(self.consumed as int, self.produced as int)
        &&& self.produced_at_reset <= self.produced
        &&& self.consumed_at_reset <= self.consumed
    }

    pub fn new(data_queue_size: usize) -> (q: Queue)
        ensures
            q.wf(),
            q.capacity() == data_queue_size,
            q.size() == 0,
            q.enqueued() =~= Seq::<Seq<u8>>::empty(),
            q.produced_total() == 0,
            q.consumed_total() == 0,
            q.produced_window() == 0,
            q.consumed_window() == 0,
    {
        let q = Queue {
            buffer: VecDeque::with_capacity(data_queue_size),
            max_size: data_queue_size,
            produced: 0,
            consumed: 0,
            produced_at_reset: 0,
            consumed_at_reset: 0,
            history: Ghost(Seq::empty()),
        };
        proof {
            assert(q.buffer@.map_values(|r: Vec<u8>| r@) =~= q.history@.subrange(0, 0));
        }
        q
    }

    /// True when a producer would have to wait before enqueueing.
    pub fn is_full(&self) -> (r: bool)
        ensures
            r == (self.size() == self.capacity()),
    {
        self.buffer.len() == self.max_size
    }

    /// True when a consumer would have to wait before dequeueing.
    pub fn is_empty(&self) -> (r: bool)
        ensures
            r == (self.size() == 0),
    {
        self.buffer.len() == 0
    }

    /// Number of records currently buffered.
    pub fn len(&self) -> (r: usize)
        ensures
            r == self.size(),
    {
        self.buffer.len()
    }

    /// Appends a record at the tail.  The caller must have waited for a
    /// free slot: the queue never grows past its capacity.
    pub fn enqueue(&mut self, item: Vec<u8>)
        requires
            old(self).wf(),
            old(self).size() < old(self).capacity(),
            old(self).produced_total() < usize::MAX,
        ensures
            final(self).wf(),
            final(self).capacity() == old(self).capacity(),
            final(self).size() == old(self).size() + 1,
            final(self).enqueued() =~= old(self).enqueued().push(item@),
            final(self).dequeued() =~= old(self).dequeued(),
            final(self).produced_total() == old(self).produced_total() + 1,
            final(self).consumed_total() == old(self).consumed_total(),
            final(self).produced_window() == old(self).produced_window() + 1,
            final(self).consumed_window() == old(self).consumed_window(),
    {
        self.buffer.push_back(item);
        self.produced = self.produced + 1;
        proof {
            self.history@ = self.history@.push(item@);
            assert(self.buffer@.map_values(|r: Vec<u8>| r@)
                =~= old(self).buffer@.map_values(|r: Vec<u8>| r@).push(item@));
            assert(self.history@.subrange(self.consumed as int, self.produced as int)
                =~= old(self).history@.subrange(
                    old(self).consumed as int, old(self).produced as int).push(item@));
            assert(self.dequeued() =~= old(self).dequeued());
        }
    }

    /// Removes and returns the oldest record.  The caller must have
    /// waited for the queue to be non-empty.
    pub fn dequeue(&mut self) -> (item: Vec<u8>)
        requires
            old(self).wf(),
            old(self).size() > 0,
        ensures
            final(self).wf(),
            final(self).capacity() == old(self).capacity(),
            final(self).size() == old(self).size() - 1,
            item@ == old(self).enqueued()[old(self).consumed_total()],
            final(self).enqueued() =~= old(self).enqueued(),
            final(self).dequeued() =~= old(self).dequeued().push(item@),
            final(self).produced_total() == old(self).produced_total(),
            final(self).consumed_total() == old(self).consumed_total() + 1,
            final(self).produced_window() == old(self).produced_window(),
            final(self).consumed_window() == old(self).consumed_window() + 1,
    {
        proof {
            assert(old(self).buffer@.map_values(|r: Vec<u8>| r@)[0]
                == old(self).history@.subrange(
                    old(self).consumed as int, old(self).produced as int)[0]);
        }
        let item = self.buffer.pop_front().unwrap();
        self.consumed = self.consumed + 1;
        proof {
            assert(self.buffer@.map_values(|r: Vec<u8>| r@)
                =~= old(self).buffer@.map_values(|r: Vec<u8>| r@).skip(1));
            assert(self.buffer@.map_values(|r: Vec<u8>| r@)
                =~= self.history@.subrange(self.consumed as int, self.produced as int));
            assert(self.dequeued() =~= old(self).dequeued().push(item@));
        }
        item
    }

    /// Total number of records enqueued since creation.
    pub fn total_produced(&self) -> (r: usize)
        ensures
            r == self.produced_total(),
    {
        self.produced
    }

    /// Records enqueued since the metrics window was last reset.
    pub fn get_produced_count(&self) -> (r: usize)
        requires
            self.wf(),
        ensures
            r == self.produced_window(),
    {
        self.produced - self.produced_at_reset
    }

    /// Records dequeued since the metrics window was last reset.
    pub fn get_consumed_count(&self) -> (r: usize)
        requires
            self.wf(),
        ensures
            r == self.consumed_window(),
    {
        self.consumed - self.consumed_at_reset
    }

    /// Reads both window counters and starts a fresh window, leaving
    /// the buffered records untouched.
    pub fn snapshot_and_reset_counters(&mut self) -> (r: (usize, usize))
        requires
            old(self).wf(),
        ensures
            final(self).wf(),
            r.0 == old(self).produced_window(),
            r.1 == old(self).consumed_window(),
            final(self).produced_window() == 0,
            final(self).consumed_window() == 0,
            final(self).capacity() == old(self).capacity(),
            final(self).size() == old(self).size(),
            final(self).enqueued() =~= old(self).enqueued(),
            final(self).dequeued() =~= old(self).dequeued(),
            final(self).produced_total() == old(self).produced_total(),
            final(self).consumed_total() == old(self).consumed_total(),
    {
        let p = self.produced - self.produced_at_reset;
        let c = self.consumed - self.consumed_at_reset;
        self.produced_at_reset = self.produced;
        self.consumed_at_reset = self.consumed;
        (p, c)
    }
}

/// Queue bound law: however enqueues and dequeues are interleaved, a
/// well-formed queue holds between zero and `capacity` records.
pub proof fn lemma_queue_bound(q: Queue)
    requires
        q.wf(),
    ensures
        0 <= q.size() <= q.capacity(),
{
}

/// Conservation law: at every quiescent point the number of records
/// ever produced equals the number consumed plus the number still
/// buffered.
pub proof fn lemma_conservation(q: Queue)
    requires
        q.wf(),
    ensures
        q.produced_total() == q.consumed_total() + q.size(),
{
}

/// Global FIFO law: the records dequeued so far are exactly the oldest
/// enqueued records, in enqueue order.
pub proof fn lemma_fifo(q: Queue)
    requires
        q.wf(),
    ensures
        q.dequeued() =~= q.enqueued().take(q.consumed_total()),
{
}

/// True when `a` can be read off `b` by dropping elements of `b`
/// without reordering what is kept.
pub open spec fn is_subsequence_of(a: Seq<Seq<u8>>, b: Seq<Seq<u8>>) -> bool
    decreases b.len(),
{
    if a.len() == 0 {
        true
    } else if b.len() == 0 {
        false
    } else if a.last() == b.last() {
        is_subsequence_of(a.drop_last(), b.drop_last())
    } else {
        is_subsequence_of(a, b.drop_last())
    }
}

/// A subsequence stays one after its own last element is dropped.
proof fn lemma_subsequence_drop_last(a: Seq<Seq<u8>>, b: Seq<Seq<u8>>)
    requires
        a.len() > 0,
        is_subsequence_of(a, b),
    ensures
        is_subsequence_of(a.drop_last(), b),
    decreases b.len(),
{
    if a.last() == b.last() {
        if a.drop_last().len() > 0 {
            if a.drop_last().last() == b.last() {
                lemma_subsequence_drop_last(a.drop_last(), b.drop_last());
            }
        }
    } else {
        lemma_subsequence_drop_last(a, b.drop_last());
        if a.drop_last().len() > 0 && a.drop_last().last() == b.last() {
            lemma_subsequence_drop_last(a.drop_last(), b.drop_last());
        }
    }
}

/// What a filter keeps is a subsequence of what it was given.
pub proof fn lemma_filter_is_subsequence(s: Seq<Seq<u8>>, pred: spec_fn(Seq<u8>) -> bool)
    ensures
        is_subsequence_of(s.filter(pred), s),
    decreases s.len(),
{
    reveal(Seq::filter);
    if s.len() > 0 {
        lemma_filter_is_subsequence(s.drop_last(), pred);
        if pred(s.last()) {
            assert(s.filter(pred) == s.drop_last().filter(pred).push(s.last()));
            assert(s.filter(pred).drop_last() =~= s.drop_last().filter(pred));
        } else {
            let kept = s.drop_last().filter(pred);
            if kept.len() > 0 {
                if kept.last() == s.last() {
                    lemma_subsequence_drop_last(kept, s.drop_last());
                }
            }
        }
    }
}

/// Single-producer FIFO law: for any way `mine` of telling one
/// producer's records apart, the dequeued records of that producer, in
/// global dequeue order, form a prefix of the records that producer
/// enqueued, in enqueue order, and a subsequence of the global dequeue
/// order.
pub proof fn lemma_single_producer_fifo(q: Queue, mine: spec_fn(Seq<u8>) -> bool)
    requires
        q.wf(),
    ensures
        q.dequeued().filter(mine).is_prefix_of(q.enqueued().filter(mine)),
        is_subsequence_of(q.dequeued().filter(mine), q.dequeued()),
{
    assert(q.dequeued().is_prefix_of(q.enqueued()));
    lemma_filter_of_prefix(q.dequeued(), q.enqueued(), mine);
    lemma_filter_is_subsequence(q.dequeued(), mine);
}

/// Filtering two sequences, one a prefix of the other, keeps the
/// prefix relation.
pub proof fn lemma_filter_of_prefix(a: Seq<Seq<u8>>, b: Seq<Seq<u8>>, pred: spec_fn(Seq<u8>) -> bool)
    requires
        a.is_prefix_of(b),
    ensures
        a.filter(pred).is_prefix_of(b.filter(pred)),
{
    let rest = b.skip(a.len() as int);
    assert(b =~= a + rest);
    Seq::<Seq<u8>>::filter_distributes_over_add(a, rest, pred);
}

} // verus!
