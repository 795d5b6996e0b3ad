//! Translation of a change notification into a record: the drop
//! discipline for non-float values and missing or malformed source
//! timestamps, the sensor name taken from the node identifier, and the
//! fixed batch identifier.
//!
//! The float value itself never enters the rules: it travels as its
//! raw bit pattern and is only turned back into a number when the
//! record is encoded for the wire.

use vstd::prelude::*;
use crate::text::{last_dot_segment, last_segment};
use crate::RECORD_BATCH_ID;

verus! {

/// Epoch milliseconds denoted by an RFC 3339 date-time string, after
/// conversion to UTC; nothing when the string is not a valid RFC 3339
/// date-time.
pub uninterp spec fn rfc3339_epoch_millis(s: Seq<char>) -> Option<i64>;

/// Relies on chrono's `DateTime::parse_from_rfc3339` and
/// `timestamp_millis`: whether the text parses, and the UTC epoch
/// milliseconds of the parsed instant, depend on the characters of the
/// input alone.
#[verifier::external_body]
fn datetime_to_timestamp_millis(datetime_str: &str) -> (r: Option<i64>)
    ensures
        r == rfc3339_epoch_millis(datetime_str@),
{
    match chrono::DateTime::parse_from_rfc3339(datetime_str) {
        Ok(datetime) => Some(datetime.with_timezone(&chrono::Utc).timestamp_millis()),
        Err(_) => None,
    }
}

/// One accepted change notification, ready to be encoded and queued.
pub struct Sample {
    /// Last dot-separated segment of the node identifier's textual form.
    pub sensor: Vec<u8>,
    /// Source timestamp as UTC epoch milliseconds.
    pub timestamp_ms: i64,
    /// Bit pattern of the 64-bit float value.
    pub value_bits: u64,
    /// Fixed batch identifier.
    pub batch_id: i64,
}

/// Whether a change notification is kept: it must carry a float scalar
/// value and a source timestamp that parses as RFC 3339.
pub open spec fn notification_accepted(
    float_value_bits: Option<u64>,
    source_timestamp: Option<Seq<char>>,
) -> bool {
    &&& float_value_bits is Some
    &&& source_timestamp is Some
    &&& rfc3339_epoch_millis(source_timestamp.unwrap()) is Some
}

/// Builds the record for one change notification, or drops it.
///
/// A notification is dropped exactly when its value is not a float
/// scalar (no bit pattern was extracted) or its source timestamp is
/// absent or not parseable as RFC 3339.
pub fn build_sample(
    node_id_text: &Vec<u8>,
    float_value_bits: Option<u64>,
    source_timestamp: Option<&str>,
) -> (r: Option<Sample>)
    ensures
        r is Some <==> notification_accepted(
            float_value_bits,
            match source_timestamp {
                Some(t) => Some(t@),
                None => None,
            },
        ),
        r is Some ==> {
            let s = r.unwrap();
            &&& s.sensor@ == last_dot_segment(node_id_text@)
            &&& Some(s.timestamp_ms) == rfc3339_epoch_millis(source_timestamp.unwrap()@)
            &&& s.value_bits == float_value_bits.unwrap()
            &&& s.batch_id == RECORD_BATCH_ID
        },
{
    let bits = match float_value_bits {
        Some(b) => b,
        None => {
            return None;
        },
    };
    let ts = match source_timestamp {
        Some(t) => t,
        None => {
            return None;
        },
    };
    let millis = match datetime_to_timestamp_millis(ts) {
        Some(m) => m,
        None => {
            return None;
        },
    };
    let sensor = last_segment(node_id_text);
    Some(Sample {
        sensor,
        timestamp_ms: millis,
        value_bits: bits,
        batch_id: RECORD_BATCH_ID,
    })
}

} // verus!
