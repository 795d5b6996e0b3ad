//! The fixed shape of the publishing subscription and of the
//! monitored items registered against it: the parameter set, the
//! namespace of every monitored node, and the chunking of matched
//! identifiers into server calls.

use vstd::prelude::*;
use crate::browse::TAG_NAMESPACE;
use crate::orchestrator::{chunks_of, chunks_view, records_view};
use crate::text::clone_bytes;

verus! {

/// Monitored items are registered in server calls of at most this
/// many items.
pub const MONITORED_ITEM_CHUNK: usize = 809;

/// A producer subscribes its matched identifiers in batches of at
/// most this many tags.
pub const SUBSCRIBE_BATCH: usize = 1000;

/// Parameters of the one publishing subscription each producer
/// creates.  The publishing interval is held in milliseconds.
pub struct SubscriptionParams {
    pub publishing_interval_ms: u64,
    pub lifetime_count: u32,
    pub max_keep_alive_count: u32,
    pub max_notifications_per_publish: u32,
    pub priority: u8,
    pub publishing_enabled: bool,
}

/// The fixed parameter set: 1000 ms publishing interval, lifetime
/// count 90, max keep-alive count 30, server-default notifications
/// per publish, priority 0, publishing enabled.
pub fn subscription_params() -> (p: SubscriptionParams)
    ensures
        p.publishing_interval_ms == 1000,
        p.lifetime_count == 90,
        p.max_keep_alive_count == 30,
        p.max_notifications_per_publish == 0,
        p.priority == 0,
        p.publishing_enabled,
{
    SubscriptionParams {
        publishing_interval_ms: 1000,
        lifetime_count: 90,
        max_keep_alive_count: 30,
        max_notifications_per_publish: 0,
        priority: 0,
        publishing_enabled: true,
    }
}

/// Server-scoped address of one tag variable.
pub struct NodeAddress {
    pub namespace: u16,
    pub identifier: Vec<u8>,
}

/// Addresses for a chunk of matched identifiers: every monitored tag
/// lives in the single configured namespace.
pub fn tag_node_addresses(identifiers: &Vec<Vec<u8>>) -> (r: Vec<NodeAddress>)
    ensures
        r@.len() == identifiers@.len(),
        forall|i: int| 0 <= i < r@.len() ==> (#[trigger] r@[i]).namespace == TAG_NAMESPACE,
        forall|i: int| 0 <= i < r@.len() ==> (#[trigger] r@[i]).identifier@ == identifiers@[i]@,
{
    let mut r: Vec<NodeAddress> = Vec::new();
    let mut i: usize = 0;
    while i < identifiers.len()
        invariant
            i <= identifiers.len(),
            r@.len() == i,
            forall|j: int| 0 <= j < i ==> (#[trigger] r@[j]).namespace == TAG_NAMESPACE,
            forall|j: int| 0 <= j < i ==> (#[trigger] r@[j]).identifier@ == identifiers@[j]@,
        decreases identifiers.len() - i,
    {
        let identifier = clone_bytes(&identifiers[i]);
        r.push(NodeAddress { namespace: TAG_NAMESPACE, identifier });
        i = i + 1;
    }
    r
}

/// Splits the matched identifiers of one subscribe batch into the
/// chunks registered by single server calls.
pub fn monitored_item_chunks(identifiers: &Vec<Vec<u8>>) -> (r: Vec<Vec<Vec<u8>>>)
    ensures
        chunks_view(r@).flatten() == records_view(identifiers@),
        forall|i: int|
            0 <= i < r@.len() - 1
                ==> #[trigger] chunks_view(r@)[i].len() == MONITORED_ITEM_CHUNK,
        r@.len() > 0 ==> 1 <= chunks_view(r@).last().len() <= MONITORED_ITEM_CHUNK,
        identifiers@.len() == 0 ==> r@.len() == 0,
{
    chunks_of(identifiers, MONITORED_ITEM_CHUNK)
}

/// Splits a producer's matched identifiers into the batches it
/// subscribes one at a time.
pub fn subscribe_batches(identifiers: &Vec<Vec<u8>>) -> (r: Vec<Vec<Vec<u8>>>)
    ensures
        chunks_view(r@).flatten() == records_view(identifiers@),
        forall|i: int|
            0 <= i < r@.len() - 1 ==> #[trigger] chunks_view(r@)[i].len() == SUBSCRIBE_BATCH,
        r@.len() > 0 ==> 1 <= chunks_view(r@).last().len() <= SUBSCRIBE_BATCH,
        identifiers@.len() == 0 ==> r@.len() == 0,
{
    chunks_of(identifiers, SUBSCRIBE_BATCH)
}

} // verus!
