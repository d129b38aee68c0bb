//! The traffic stream subscriber's view of the world: the shared
//! last-write-wins pair of instantaneous rates, and how one streamed
//! chunk or one stream failure changes it.

use crate::json::json_bytes_accepted;
use crate::json::json_bytes_u64_field;
use crate::json::read_json_bytes_u64;
use vstd::prelude::*;

verus! {

/// How long the subscriber waits before reconnecting after a request
/// failure or the end of a stream, in seconds.
pub const STREAM_BACKOFF_SECS: u64 = 5;

/// The latest instantaneous upload/download rates, in bytes per second.
/// Zero stands for "unknown or stalled" as much as for idle.
pub struct RatePair {
    pub up: u64,
    pub down: u64,
}

impl RatePair {
    /// The pair before any sample has arrived.
    pub fn new() -> (r: RatePair)
        ensures
            r.up == 0,
            r.down == 0,
    {
        RatePair { up: 0, down: 0 }
    }
}

/// A rate sample from an optional pair of decoded fields: a sample exists
/// only when both fields decoded.
pub fn rates_from_fields(up: Option<u64>, down: Option<u64>) -> (r: Option<(u64, u64)>)
    ensures
        up is Some && down is Some ==> r == Some((up->0, down->0)),
        up is None || down is None ==> r is None,
{
    match (up, down) {
        (Some(u), Some(d)) => Some((u, d)),
        _ => None,
    }
}

/// Decode one streamed chunk into a rate sample: the `up` and `down`
/// unsigned integer fields of the chunk's JSON object, or nothing.
pub fn decode_rate_chunk(bytes: &[u8]) -> (r: Option<(u64, u64)>)
    ensures
        r == (match (
            json_bytes_u64_field(bytes@, "up"@),
            json_bytes_u64_field(bytes@, "down"@),
        ) {
            (Some(u), Some(d)) => Some((u, d)),
            _ => None,
        }),
        !json_bytes_accepted(bytes@) ==> r is None,
{
    let up = read_json_bytes_u64(bytes, "up");
    let down = read_json_bytes_u64(bytes, "down");
    rates_from_fields(up, down)
}

/// Store a decoded rate sample into the shared pair; a chunk that did not
/// decode is skipped and the last sample stays visible.
pub fn apply_rate_chunk(rates: &mut RatePair, sample: Option<(u64, u64)>)
    ensures
        sample matches Some(s) ==> final(rates).up == s.0 && final(rates).down == s.1,
        sample is None ==> *final(rates) == *old(rates),
{
    if let Some((u, d)) = sample {
        rates.up = u;
        rates.down = d;
    }
}

/// On a request failure or the end of the stream the shared pair falls
/// back to zero, telling readers the rates are unknown.
pub fn reset_rates(rates: &mut RatePair)
    ensures
        final(rates).up == 0,
        final(rates).down == 0,
{
    rates.up = 0;
    rates.down = 0;
}

} // verus!
