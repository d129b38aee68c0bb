//! Composition of the displayed activity from the gathered numbers.
//!
//! One periodic refresh turns the instantaneous rates, the lifetime
//! totals, the resolved node and the proxy count into the two status
//! lines and the optional party pair that the presence payload carries.

use crate::numfmt::format_bytes;
use crate::numfmt::format_speed;
use crate::numfmt::spec_format_bytes;
use crate::numfmt::spec_format_speed;
use crate::resolver::opt_label_view;
use crate::resolver::resolve_selected_node;
use crate::resolver::spec_resolve;
use crate::resolver::ProxyGroupSnapshot;
use crate::traffic::accumulate_traffic;
use crate::traffic::spec_delta;
use crate::traffic::spec_should_save;
use crate::traffic::TrafficState;
use vstd::prelude::*;
use vstd::string::StringExecFns;

verus! {

/// The fields of one activity update, ready to submit to the presence
/// worker.
pub struct ActivityUpdate {
    pub details: String,
    pub state: String,
    pub party_size: Option<i32>,
    pub party_max: Option<i32>,
}

/// The details line: the two instantaneous rates.
pub open spec fn spec_details_line(up_rate: int, down_rate: int) -> Seq<char> {
    "↑ "@ + spec_format_speed(up_rate) + " • ↓ "@ + spec_format_speed(down_rate)
}

/// The state line: the two lifetime totals, and the resolved node where
/// one was found.
pub open spec fn spec_state_line(total_up: int, total_down: int, node: Seq<char>) -> Seq<char> {
    if node.len() > 0 {
        "All: ↑ "@ + spec_format_bytes(total_up) + " • ↓ "@ + spec_format_bytes(total_down)
            + " | "@ + node
    } else {
        "All: ↑ "@ + spec_format_bytes(total_up) + " • ↓ "@ + spec_format_bytes(total_down)
    }
}

/// Compose the displayed activity from the gathered numbers and the
/// resolved node name.
pub fn compose_activity(
    up_rate: u64,
    down_rate: u64,
    total_up: u64,
    total_down: u64,
    node: &String,
    total_proxies: usize,
) -> (r: ActivityUpdate)
    ensures
        r.details@ == spec_details_line(up_rate as int, down_rate as int),
        r.state@ == spec_state_line(total_up as int, total_down as int, node@),
        total_proxies == 0 ==> r.party_size is None && r.party_max is None,
        0 < total_proxies <= i32::MAX ==> r.party_size == Some(1i32) && r.party_max == Some(
            total_proxies as i32,
        ),
        total_proxies > i32::MAX ==> r.party_size == Some(1i32) && r.party_max is Some,
{
    let mut details = String::from_str("↑ ");
    let up_speed = format_speed(up_rate);
    details.append(up_speed.as_str());
    details.append(" • ↓ ");
    let down_speed = format_speed(down_rate);
    details.append(down_speed.as_str());

    let mut state = String::from_str("All: ↑ ");
    let up_total = format_bytes(total_up);
    state.append(up_total.as_str());
    state.append(" • ↓ ");
    let down_total = format_bytes(total_down);
    state.append(down_total.as_str());
    if !node.as_str().is_empty() {
        state.append(" | ");
        state.append(node.as_str());
    }

    let (party_size, party_max) = if total_proxies > 0 {
        (Some(1i32), Some(#[verifier::truncate] (total_proxies as i32)))
    } else {
        (None, None)
    };
    proof {
        assert(details@ =~= spec_details_line(up_rate as int, down_rate as int));
        assert(state@ =~= spec_state_line(total_up as int, total_down as int, node@));
    }
    ActivityUpdate { details, state, party_size, party_max }
}

/// Everything one periodic refresh computes between its outside reads:
/// fold the session counters into the lifetime totals where the query
/// succeeded, resolve the selected node where the snapshot arrived, and
/// compose the activity. The boolean says whether the totals are due for
/// persistence now; a failed counter query leaves the totals untouched
/// and asks for no save.
pub fn prepare_refresh(
    traffic: &mut TrafficState,
    session_counters: Option<(u64, u64)>,
    now_secs: u64,
    up_rate: u64,
    down_rate: u64,
    snapshot: Option<&ProxyGroupSnapshot>,
    preferred: Option<&String>,
) -> (r: (ActivityUpdate, bool))
    requires
        old(traffic).total_up + (match session_counters {
            Some(c) => spec_delta(old(traffic).last_session_up as int, c.0 as int),
            None => 0int,
        }) <= u64::MAX,
        old(traffic).total_down + (match session_counters {
            Some(c) => spec_delta(old(traffic).last_session_down as int, c.1 as int),
            None => 0int,
        }) <= u64::MAX,
    ensures
        session_counters is None ==> *final(traffic) == *old(traffic) && !r.1,
        session_counters matches Some(c) ==> {
            &&& final(traffic).total_up == old(traffic).total_up + spec_delta(
                old(traffic).last_session_up as int,
                c.0 as int,
            )
            &&& final(traffic).total_down == old(traffic).total_down + spec_delta(
                old(traffic).last_session_down as int,
                c.1 as int,
            )
            &&& final(traffic).last_session_up == c.0
            &&& final(traffic).last_session_down == c.1
            &&& r.1 == spec_should_save(old(traffic).last_save_secs as int, now_secs as int)
        },
        r.0.details@ == spec_details_line(up_rate as int, down_rate as int),
        r.0.state@ == spec_state_line(
            final(traffic).total_up as int,
            final(traffic).total_down as int,
            match snapshot {
                Some(s) => spec_resolve(s.groups@, opt_label_view(preferred)),
                None => Seq::<char>::empty(),
            },
        ),
        snapshot is None ==> r.0.party_size is None && r.0.party_max is None,
        snapshot matches Some(s) ==> {
            &&& s.groups@.len() == 0 ==> r.0.party_size is None && r.0.party_max is None
            &&& 0 < s.groups@.len() <= i32::MAX ==> r.0.party_size == Some(1i32)
                && r.0.party_max == Some(s.groups@.len() as i32)
            &&& s.groups@.len() > i32::MAX ==> r.0.party_size == Some(1i32)
                && r.0.party_max is Some
        },
{
    let save = match session_counters {
        Some((current_up, current_down)) => {
            accumulate_traffic(traffic, current_up, current_down, now_secs)
        },
        None => false,
    };
    let (node, total_proxies) = match snapshot {
        Some(s) => (resolve_selected_node(s, preferred), s.groups.len()),
        None => (String::new(), 0usize),
    };
    let update = compose_activity(
        up_rate,
        down_rate,
        traffic.total_up,
        traffic.total_down,
        &node,
        total_proxies,
    );
    (update, save)
}

} // verus!
