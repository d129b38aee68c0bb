//! Traffic accounting, the persisted record, and stream chunk handling.

use presence_sync::persist::counters_from_fields;
use presence_sync::persist::decode_traffic_record;
use presence_sync::persist::encode_traffic_record;
use presence_sync::stream::apply_rate_chunk;
use presence_sync::stream::decode_rate_chunk;
use presence_sync::stream::rates_from_fields;
use presence_sync::stream::reset_rates;
use presence_sync::stream::RatePair;
use presence_sync::traffic::accumulate_traffic;
use presence_sync::traffic::TrafficState;

#[test]
fn forward_deltas_accumulate() {
    let mut state = TrafficState::load(0, 0, 0);
    accumulate_traffic(&mut state, 10, 100, 0);
    accumulate_traffic(&mut state, 15, 107, 0);
    accumulate_traffic(&mut state, 17, 107, 0);
    assert_eq!(state.total_up, 17);
    assert_eq!(state.total_down, 107);
    assert_eq!(state.last_session_up, 17);
    assert_eq!(state.last_session_down, 107);
}

#[test]
fn reset_contributes_the_full_reading() {
    let mut state = TrafficState::load(0, 0, 0);
    accumulate_traffic(&mut state, 100, 100, 0);
    assert_eq!(state.total_up, 100);
    // The session counter fell from 100 to 60: a reset, worth exactly 60,
    // not -40 and not 0.
    accumulate_traffic(&mut state, 60, 100, 0);
    assert_eq!(state.total_up, 160);
    assert_eq!(state.total_down, 100);
}

#[test]
fn totals_never_decrease() {
    let mut state = TrafficState::load(5, 7, 0);
    let readings = [3u64, 9, 2, 2, 0, 11];
    let mut prev_up = state.total_up;
    for r in readings {
        accumulate_traffic(&mut state, r, r, 0);
        assert!(state.total_up >= prev_up);
        prev_up = state.total_up;
    }
    // 3 + 6 + 2 + 0 + 0 + 11 on top of the loaded 5.
    assert_eq!(state.total_up, 27);
}

#[test]
fn save_is_due_after_ten_seconds_or_a_clock_step_back() {
    let mut state = TrafficState::load(0, 0, 100);
    assert!(!accumulate_traffic(&mut state, 1, 1, 105));
    assert!(!accumulate_traffic(&mut state, 1, 1, 110));
    assert!(accumulate_traffic(&mut state, 1, 1, 111));
    assert_eq!(state.last_save_secs, 111);
    assert!(accumulate_traffic(&mut state, 1, 1, 99));
    assert_eq!(state.last_save_secs, 99);
}

#[test]
fn record_encodes_with_sorted_keys() {
    assert_eq!(encode_traffic_record(3, 4), "{\"down\":4,\"up\":3}");
    assert_eq!(encode_traffic_record(0, 0), "{\"down\":0,\"up\":0}");
}

#[test]
fn record_round_trips() {
    let text = encode_traffic_record(123456789, 987654321);
    assert_eq!(decode_traffic_record(&text), (123456789, 987654321));
}

#[test]
fn record_decoding_is_forgiving() {
    assert_eq!(decode_traffic_record("{\"up\":3,\"down\":4}"), (3, 4));
    assert_eq!(decode_traffic_record("{\"up\":3}"), (3, 0));
    assert_eq!(decode_traffic_record("{\"down\":\"text\"}"), (0, 0));
    assert_eq!(decode_traffic_record("not json at all"), (0, 0));
    assert_eq!(decode_traffic_record("[1,2]"), (0, 0));
}

#[test]
fn missing_fields_fall_back_to_zero() {
    assert_eq!(counters_from_fields(None, None), (0, 0));
    assert_eq!(counters_from_fields(Some(9), None), (9, 0));
    assert_eq!(counters_from_fields(None, Some(2)), (0, 2));
}

#[test]
fn rate_chunk_needs_both_fields() {
    assert_eq!(decode_rate_chunk(b"{\"up\":10,\"down\":20}"), Some((10, 20)));
    assert_eq!(decode_rate_chunk(b"{\"up\":10}"), None);
    assert_eq!(decode_rate_chunk(b"{\"up\":-1,\"down\":20}"), None);
    assert_eq!(decode_rate_chunk(b"garbage"), None);
    assert_eq!(rates_from_fields(Some(1), Some(2)), Some((1, 2)));
    assert_eq!(rates_from_fields(Some(1), None), None);
}

#[test]
fn undecodable_chunks_are_skipped() {
    let mut rates = RatePair::new();
    apply_rate_chunk(&mut rates, Some((7, 9)));
    assert_eq!((rates.up, rates.down), (7, 9));
    apply_rate_chunk(&mut rates, None);
    assert_eq!((rates.up, rates.down), (7, 9));
    reset_rates(&mut rates);
    assert_eq!((rates.up, rates.down), (0, 0));
}
