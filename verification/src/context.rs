//! The presence feature's top-level state and its toggle transitions.
//!
//! One long-lived context owns the manager slot, the loop supervisor, the
//! shared rate pair and the traffic state, in place of ambient globals.
//! Toggling the feature off stops the loop, resets the displayed session
//! rates and shuts the worker down; toggling it on installs a fresh
//! worker with a connect request queued and starts a fresh loop
//! generation. The persisted lifetime totals survive both.

use crate::rpc::connect_discord_rpc;
use crate::rpc::init_discord_rpc;
use crate::rpc::opt_str_view;
use crate::rpc::shutdown_discord_rpc;
use crate::rpc::spec_fresh_worker;
use crate::rpc::spec_resolved_app_id;
use crate::rpc::DiscordRpcManager;
use crate::rpc::RpcCommand;
use crate::stream::RatePair;
use crate::supervisor::spec_start;
use crate::supervisor::UpdateSupervisor;
use crate::traffic::TrafficState;
use vstd::prelude::*;

verus! {

/// The whole feature state, explicitly owned by the application.
pub struct PresenceContext {
    pub manager: Option<DiscordRpcManager>,
    pub supervisor: UpdateSupervisor,
    pub rates: RatePair,
    pub traffic: TrafficState,
}

/// The context after the feature is toggled off, and the loop generation
/// handed back for cancellation: the manager is gone, no loop is active,
/// the displayed session rates are zero, and the traffic state is kept
/// whole.
pub open spec fn spec_toggle_off(ctx: PresenceContext) -> (PresenceContext, Option<u64>) {
    (
        PresenceContext {
            manager: None,
            supervisor: UpdateSupervisor {
                next_generation: ctx.supervisor.next_generation,
                active: None,
            },
            rates: RatePair { up: 0, down: 0 },
            traffic: ctx.traffic,
        },
        ctx.supervisor.active,
    )
}

/// How the context changes when the feature is toggled on: a fresh
/// worker with exactly one connect request queued, a fresh loop
/// generation installed with the superseded one handed back, rates and
/// traffic untouched.
pub open spec fn spec_toggle_on_rel(
    pre: PresenceContext,
    post: PresenceContext,
    cancelled: Option<u64>,
    app_id: Option<Seq<char>>,
) -> bool {
    &&& post.manager matches Some(m) && m.sender && m.app_id@ == spec_resolved_app_id(app_id)
        && m.worker == spec_fresh_worker() && m.pending@ == seq![RpcCommand::Connect]
    &&& post.supervisor == spec_start(pre.supervisor).0
    &&& cancelled == spec_start(pre.supervisor).1
    &&& post.rates == pre.rates
    &&& post.traffic == pre.traffic
}

impl PresenceContext {
    /// The feature state at process start, given the persisted lifetime
    /// totals and the current wall-clock second.
    pub fn new(total_up: u64, total_down: u64, now_secs: u64) -> (ctx: PresenceContext)
        ensures
            ctx.manager is None,
            ctx.supervisor.active is None,
            ctx.rates.up == 0 && ctx.rates.down == 0,
            ctx.traffic.total_up == total_up,
            ctx.traffic.total_down == total_down,
            ctx.traffic.last_session_up == 0 && ctx.traffic.last_session_down == 0,
            ctx.traffic.last_save_secs == now_secs,
    {
        PresenceContext {
            manager: None,
            supervisor: UpdateSupervisor::new(),
            rates: RatePair::new(),
            traffic: TrafficState::load(total_up, total_down, now_secs),
        }
    }
}

/// Toggle the presence feature. On: install a freshly initialized worker
/// with a connect request queued and start a new loop generation. Off:
/// stop the loop, reset the displayed session rates and drop the worker.
/// Returns the loop generation the caller must cancel, if any.
pub fn toggle_discord_rpc(ctx: &mut PresenceContext, enabled: bool, app_id: Option<&str>) -> (cancelled: Option<u64>)
    requires
        enabled ==> old(ctx).supervisor.next_generation < u64::MAX,
    ensures
        enabled ==> spec_toggle_on_rel(*old(ctx), *final(ctx), cancelled, opt_str_view(app_id)),
        !enabled ==> (*final(ctx), cancelled) == spec_toggle_off(*old(ctx)),
{
    if enabled {
        init_discord_rpc(&mut ctx.manager, app_id);
        connect_discord_rpc(&mut ctx.manager);
        ctx.supervisor.start()
    } else {
        let cancelled = ctx.supervisor.stop(&mut ctx.rates);
        shutdown_discord_rpc(&mut ctx.manager);
        cancelled
    }
}

/// Bring the feature up at application startup when it is enabled in the
/// configuration; when it is not, nothing moves.
pub fn init_discord_rpc_on_startup(
    ctx: &mut PresenceContext,
    enabled: bool,
    app_id: Option<&str>,
) -> (cancelled: Option<u64>)
    requires
        enabled ==> old(ctx).supervisor.next_generation < u64::MAX,
    ensures
        enabled ==> spec_toggle_on_rel(*old(ctx), *final(ctx), cancelled, opt_str_view(app_id)),
        !enabled ==> *final(ctx) == *old(ctx) && cancelled is None,
{
    if enabled {
        toggle_discord_rpc(ctx, true, app_id)
    } else {
        None
    }
}

/// Law: toggling off and at once back on leaves exactly one update loop
/// running and nothing from before it: the new start finds no generation
/// to cancel, the displayed session rates start over at zero, and the
/// persisted lifetime totals come through unchanged.
pub proof fn lemma_toggle_off_then_on(
    ctx0: PresenceContext,
    ctx2: PresenceContext,
    cancelled: Option<u64>,
    app_id: Option<Seq<char>>,
)
    requires
        spec_toggle_on_rel(spec_toggle_off(ctx0).0, ctx2, cancelled, app_id),
    ensures
        ctx2.supervisor.active is Some,
        cancelled is None,
        ctx2.rates.up == 0 && ctx2.rates.down == 0,
        ctx2.traffic == ctx0.traffic,
{
}

} // verus!
