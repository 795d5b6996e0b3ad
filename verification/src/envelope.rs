//! Batching of dequeued records into envelopes.  An envelope pairs
//! every record with the fixed record-type constant and is sent as one
//! binary frame.

use vstd::prelude::*;
use crate::RECORD_TYPE;

verus! {

/// Number of records a consumer batches into one envelope.
pub const CONSUMER_BATCH_SIZE: usize = 200;

/// A batch of records paired one-to-one with their type tags.
pub struct Envelope {
    pub types: Vec<i32>,
    pub messages: Vec<Vec<u8>>,
}

impl Envelope {
    /// Envelope well-formedness: one type tag per record, every tag
    /// the fixed record-type constant.
    pub open spec fn well_formed(self) -> bool {
        &&& self.types@.len() == self.messages@.len()
        &&& forall|i: int| 0 <= i < self.types@.len() ==> self.types@[i] == RECORD_TYPE
    }

    /// The records carried, in order.
    pub open spec fn records(self) -> Seq<Seq<u8>> {
        self.messages@.map_values(|m: Vec<u8>| m@)
    }
}

/// Wraps a batch of records in a well-formed envelope, keeping their
/// order.
pub fn build_envelope(messages: Vec<Vec<u8>>) -> (e: Envelope)
    ensures
        e.well_formed(),
        e.messages == messages,
{
    let n = messages.len();
    let mut types: Vec<i32> = Vec::new();
    let mut i: usize = 0;
    while i < n
        invariant
            i <= n,
            types@.len() == i,
            forall|j: int| 0 <= j < i ==> types@[j] == RECORD_TYPE,
        decreases n - i,
    {
        types.push(RECORD_TYPE);
        i = i + 1;
    }
    Envelope { types, messages }
}

/// A consumer's local batch: records dequeued so far and the size at
/// which they are wrapped and sent.
pub struct Consumer {
    batch_size: usize,
    historical_batch: Vec<Vec<u8>>,
}

impl Consumer {
    /// Number of records per envelope.
    pub closed spec fn batch_size(self) -> int {
        self.batch_size as int
    }

    /// Records buffered since the last envelope, in dequeue order.
    pub closed spec fn buffered(self) -> Seq<Seq<u8>> {
        self.historical_batch@.map_values(|m: Vec<u8>| m@)
    }

    pub fn new(batch_size: usize) -> (c: Consumer)
        ensures
            c.batch_size() == batch_size,
            c.buffered() =~= Seq::<Seq<u8>>::empty(),
    {
        Consumer { batch_size, historical_batch: Vec::new() }
    }

    /// Takes one dequeued record.  When the batch is full, returns the
    /// envelope wrapping the whole batch, in dequeue order, and starts
    /// an empty batch; otherwise keeps buffering.
    pub fn push_record(&mut self, record: Vec<u8>) -> (r: Option<Envelope>)
        ensures
            final(self).batch_size() == old(self).batch_size(),
            old(self).buffered().len() + 1 >= old(self).batch_size() ==> {
                &&& r is Some
                &&& r.unwrap().well_formed()
                &&& r.unwrap().records() =~= old(self).buffered().push(record@)
                &&& final(self).buffered() =~= Seq::<Seq<u8>>::empty()
            },
            old(self).buffered().len() + 1 < old(self).batch_size() ==> {
                &&& r is None
                &&& final(self).buffered() =~= old(self).buffered().push(record@)
            },
    {
        self.historical_batch.push(record);
        proof {
            assert(self.historical_batch@.map_values(|m: Vec<u8>| m@)
                =~= old(self).buffered().push(record@));
        }
        if self.historical_batch.len() >= self.batch_size {
            let mut batch: Vec<Vec<u8>> = Vec::new();
            std::mem::swap(&mut batch, &mut self.historical_batch);
            let envelope = build_envelope(batch);
            proof {
                assert(self.historical_batch@.map_values(|m: Vec<u8>| m@)
                    =~= Seq::<Seq<u8>>::empty());
            }
            Some(envelope)
        } else {
            None
        }
    }
}

} // verus!
