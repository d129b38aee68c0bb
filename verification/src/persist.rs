//! The small persisted record of lifetime traffic counters.
//!
//! The record is a JSON object with the two counters under `up` and
//! `down`, written with its keys in sorted order. Reading is forgiving:
//! a field that is absent or not an unsigned integer counts as zero, and
//! a file that does not parse yields zero counters.

use crate::json::json_text_accepted;
use crate::json::json_text_u64_field;
use crate::json::read_json_text_u64;
use crate::numfmt::spec_dec;
use crate::numfmt::u64_to_dec;
use vstd::prelude::*;
use vstd::string::StringExecFns;

verus! {

/// The serialized traffic record for the two lifetime counters.
pub open spec fn spec_traffic_record(up: int, down: int) -> Seq<char> {
    "{\"down\":"@ + spec_dec(down) + ",\"up\":"@ + spec_dec(up) + "}"@
}

/// Serialize the two lifetime counters to the persisted record text.
pub fn encode_traffic_record(up: u64, down: u64) -> (s: String)
    ensures
        s@ == spec_traffic_record(up as int, down as int),
{
    let mut s = String::from_str("{\"down\":");
    let down_str = u64_to_dec(down);
    s.append(down_str.as_str());
    s.append(",\"up\":");
    let up_str = u64_to_dec(up);
    s.append(up_str.as_str());
    s.append("}");
    proof {
        assert(s@ =~= spec_traffic_record(up as int, down as int));
    }
    s
}

/// The counters read from an optional pair of decoded fields: a field
/// that was absent or not an unsigned integer falls back to zero.
pub fn counters_from_fields(up: Option<u64>, down: Option<u64>) -> (r: (u64, u64))
    ensures
        up is Some ==> r.0 == up->0,
        up is None ==> r.0 == 0,
        down is Some ==> r.1 == down->0,
        down is None ==> r.1 == 0,
{
    let u = match up {
        Some(v) => v,
        None => 0,
    };
    let d = match down {
        Some(v) => v,
        None => 0,
    };
    (u, d)
}

/// Read the two lifetime counters back from persisted record text: the
/// `up` and `down` fields of the document, zero where one cannot be
/// read.
pub fn decode_traffic_record(content: &str) -> (r: (u64, u64))
    ensures
        r.0 == (match json_text_u64_field(content@, "up"@) {
            Some(u) => u,
            None => 0u64,
        }),
        r.1 == (match json_text_u64_field(content@, "down"@) {
            Some(d) => d,
            None => 0u64,
        }),
        !json_text_accepted(content@) ==> r == (0u64, 0u64),
{
    let up = read_json_text_u64(content, "up");
    let down = read_json_text_u64(content, "down");
    counters_from_fields(up, down)
}

} // verus!
