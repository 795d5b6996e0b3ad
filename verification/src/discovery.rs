//! Handling of the tag-discovery response frames: the two legacy
//! bytes excised from every frame before JSON decoding, the tag names
//! collected across frames, the final-batch stop condition, and the
//! sentinel returned when no tag came back.
//!
//! Receiving the frames is the connection owner's business; this
//! module is handed each text frame as bytes.

use vstd::prelude::*;
use crate::orchestrator::records_view;
use crate::text::clone_bytes;

verus! {

/// A discovery frame with its two legacy bytes removed: the byte at
/// index 31 and, of what remains, the second byte from the end.
pub open spec fn strip_discovery_quirk(s: Seq<u8>) -> Seq<u8> {
    let m = s.subrange(0, 31) + s.subrange(32, s.len() as int);
    m.subrange(0, m.len() - 2) + m.subrange(m.len() - 1, m.len() as int)
}

/// Removes the two legacy bytes of a discovery frame.
pub fn strip_frame(frame: &Vec<u8>) -> (r: Vec<u8>)
    requires
        frame@.len() >= 32,
    ensures
        r@ == strip_discovery_quirk(frame@),
{
    let mut m: Vec<u8> = Vec::new();
    let mut i: usize = 0;
    while i < frame.len()
        invariant
            i <= frame@.len(),
            i <= 31 ==> m@ =~= frame@.subrange(0, i as int),
            i > 31 ==> m@ =~= frame@.subrange(0, 31) + frame@.subrange(32, i as int),
        decreases frame@.len() - i,
    {
        if i != 31 {
            m.push(frame[i]);
        }
        i = i + 1;
    }
    let mlen = m.len();
    proof {
        assert(m@ =~= frame@.subrange(0, 31) + frame@.subrange(32, frame@.len() as int));
        assert(mlen >= 31);
    }
    let mut r: Vec<u8> = Vec::new();
    let mut j: usize = 0;
    while j < mlen
        invariant
            mlen == m@.len(),
            mlen >= 31,
            j <= mlen,
            j <= mlen - 2 ==> r@ =~= m@.subrange(0, j as int),
            j > mlen - 2 ==> r@ =~= m@.subrange(0, mlen - 2)
                + m@.subrange(mlen - 1, j as int),
        decreases mlen - j,
    {
        if j != mlen - 2 {
            r.push(m[j]);
        }
        j = j + 1;
    }
    proof {
        assert(r@ =~= strip_discovery_quirk(frame@));
    }
    r
}

/// Whether a stripped discovery payload decodes as JSON.
pub uninterp spec fn discovery_parses(s: Seq<u8>) -> bool;

/// The `msg.data[*].tagName` strings of a stripped discovery payload,
/// in document order.
pub uninterp spec fn discovery_tags_of(s: Seq<u8>) -> Seq<Seq<u8>>;

/// The `msg.finalBatch` flag of a stripped discovery payload; false
/// when the flag is absent or not a boolean.
pub uninterp spec fn discovery_final_of(s: Seq<u8>) -> bool;

/// Relies on serde_json::from_slice and serde_json::Value's `get`,
/// `as_array`, `as_str` and `as_bool`: whether the bytes decode as
/// JSON, which `msg.data[*].tagName` strings the document holds and in
/// what order, and whether `msg.finalBatch` is true all depend on the
/// bytes alone.
#[verifier::external_body]
fn parse_discovery_payload(bytes: &Vec<u8>) -> (r: Option<(Vec<Vec<u8>>, bool)>)
    ensures
        r is Some <==> discovery_parses(bytes@),
        r is Some ==> records_view(r.unwrap().0@) == discovery_tags_of(bytes@),
        r is Some ==> r.unwrap().1 == discovery_final_of(bytes@),
{
    let document: serde_json::Value = serde_json::from_slice(bytes.as_slice()).ok()?;
    let msg = document.get("msg");
    let mut tags: Vec<Vec<u8>> = Vec::new();
    if let Some(items) = msg.and_then(|m| m.get("data")).and_then(|d| d.as_array()) {
        for item in items {
            if let Some(name) = item.get("tagName").and_then(|t| t.as_str()) {
                tags.push(name.as_bytes().to_vec());
            }
        }
    }
    let final_batch =
        msg.and_then(|m| m.get("finalBatch")).and_then(|f| f.as_bool()).unwrap_or(false);
    Some((tags, final_batch))
}

/// A discovery response frame that could not be decoded as JSON after
/// the legacy strip; it aborts the tag synchronization.
#[derive(Debug)]
pub struct FrameParseError;

/// Tag names accumulated over the discovery exchange.
pub struct DiscoveryState {
    tags: Vec<Vec<u8>>,
    done: bool,
}

impl DiscoveryState {
    /// Tag names collected so far, in arrival order.
    pub closed spec fn collected(self) -> Seq<Seq<u8>> {
        records_view(self.tags@)
    }

    /// True once a frame carried a true `finalBatch` flag.
    pub closed spec fn finished(self) -> bool {
        self.done
    }

    pub fn new() -> (s: DiscoveryState)
        ensures
            s.collected() =~= Seq::<Seq<u8>>::empty(),
            !s.finished(),
    {
        DiscoveryState { tags: Vec::new(), done: false }
    }

    pub fn is_finished(&self) -> (r: bool)
        ensures
            r == self.finished(),
    {
        self.done
    }

    /// Takes one response frame: excises the two legacy bytes, decodes
    /// the rest as JSON, appends every `msg.data[*].tagName` string to
    /// the collected names, in order, and records the `msg.finalBatch`
    /// flag.  A frame that does not decode leaves the state unchanged.
    pub fn process_frame(&mut self, frame: &Vec<u8>) -> (r: Result<(), FrameParseError>)
        requires
            frame@.len() >= 32,
            !old(self).finished(),
        ensures
            r is Ok <==> discovery_parses(strip_discovery_quirk(frame@)),
            r is Ok ==> final(self).collected() =~= old(self).collected()
                + discovery_tags_of(strip_discovery_quirk(frame@)),
            r is Ok ==> final(self).finished()
                == discovery_final_of(strip_discovery_quirk(frame@)),
            r is Err ==> *final(self) == *old(self),
    {
        let stripped = strip_frame(frame);
        let (names, final_batch) = match parse_discovery_payload(&stripped) {
            Some(payload) => payload,
            None => {
                return Err(FrameParseError);
            },
        };
        let mut i: usize = 0;
        while i < names.len()
            invariant
                i <= names@.len(),
                self.done == old(self).done,
                self.collected() =~= old(self).collected()
                    + records_view(names@).take(i as int),
            decreases names@.len() - i,
        {
            let name = clone_bytes(&names[i]);
            proof {
                assert(records_view(self.tags@.push(name))
                    =~= self.collected().push(name@));
                assert(records_view(names@).take(i + 1)
                    =~= records_view(names@).take(i as int).push(names@[i as int]@));
            }
            self.tags.push(name);
            i = i + 1;
        }
        proof {
            assert(records_view(names@).take(names@.len() as int) =~= records_view(names@));
        }
        self.done = final_batch;
        Ok(())
    }

    /// The collected tag list, or the sentinel when nothing came back.
    pub fn into_tags(self) -> (r: Vec<Vec<u8>>)
        ensures
            self.collected().len() > 0 ==> records_view(r@) == self.collected(),
            self.collected().len() == 0 ==> records_view(r@) =~= seq![no_response_sentinel()],
    {
        if self.tags.len() > 0 {
            self.tags
        } else {
            let mut sentinel: Vec<u8> = Vec::new();
            sentinel.push(83);
            sentinel.push(101);
            sentinel.push(114);
            sentinel.push(118);
            sentinel.push(101);
            sentinel.push(114);
            sentinel.push(32);
            sentinel.push(100);
            sentinel.push(105);
            sentinel.push(100);
            sentinel.push(110);
            sentinel.push(39);
            sentinel.push(116);
            sentinel.push(32);
            sentinel.push(114);
            sentinel.push(101);
            sentinel.push(115);
            sentinel.push(112);
            sentinel.push(111);
            sentinel.push(110);
            sentinel.push(100);
            proof {
                assert(sentinel@ =~= no_response_sentinel());
            }
            let mut r: Vec<Vec<u8>> = Vec::new();
            r.push(sentinel);
            proof {
                assert(records_view(r@) =~= seq![no_response_sentinel()]);
            }
            r
        }
    }
}

/// The bytes of the sentinel tag name reported when the discovery
/// exchange yields no tag at all.
pub open spec fn no_response_sentinel() -> Seq<u8> {
    seq![
        83u8, 101u8, 114u8, 118u8, 101u8, 114u8, 32u8, 100u8, 105u8, 100u8, 110u8, 39u8,
        116u8, 32u8, 114u8, 101u8, 115u8, 112u8, 111u8, 110u8, 100u8,
    ]
}

} // verus!
