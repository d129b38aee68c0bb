//! Node resolution, the command actor, and the loop lifecycle.

use presence_sync::activity::compose_activity;
use presence_sync::activity::prepare_refresh;
use presence_sync::context::init_discord_rpc_on_startup;
use presence_sync::context::toggle_discord_rpc;
use presence_sync::context::PresenceContext;
use presence_sync::resolver::resolve_selected_node;
use presence_sync::resolver::ProxyGroup;
use presence_sync::resolver::ProxyGroupSnapshot;
use presence_sync::rpc::connect_discord_rpc;
use presence_sync::rpc::init_discord_rpc;
use presence_sync::rpc::plan;
use presence_sync::rpc::shutdown_discord_rpc;
use presence_sync::rpc::shutdown_discord_rpc_on_exit;
use presence_sync::rpc::update_discord_activity;
use presence_sync::rpc::DiscordRpcManager;
use presence_sync::rpc::RpcAction;
use presence_sync::rpc::RpcCommand;
use presence_sync::rpc::StepIo;
use presence_sync::supervisor::plan_tick;
use presence_sync::supervisor::TickStep;
use presence_sync::supervisor::UpdateSupervisor;
use presence_sync::traffic::TrafficState;

fn group(name: &str, now: Option<&str>) -> ProxyGroup {
    ProxyGroup { name: name.to_string(), now: now.map(|s| s.to_string()) }
}

fn ok_io() -> StepIo {
    StepIo { connect_ok: true, now_secs: 42, set_ok: true }
}

#[test]
fn chain_resolves_to_the_leaf() {
    let snapshot = ProxyGroupSnapshot {
        groups: vec![
            group("GLOBAL", Some("A")),
            group("A", Some("B")),
            group("B", None),
        ],
    };
    assert_eq!(resolve_selected_node(&snapshot, None), "B");
}

#[test]
fn cycle_terminates_within_the_hop_bound() {
    let snapshot = ProxyGroupSnapshot {
        groups: vec![group("A", Some("B")), group("B", Some("A"))],
    };
    let preferred = "A".to_string();
    let node = resolve_selected_node(&snapshot, Some(&preferred));
    // Anchored at A, the walk starts at B and alternates for ten hops.
    assert_eq!(node, "B");
}

#[test]
fn preferred_label_matches_case_insensitively() {
    let snapshot = ProxyGroupSnapshot {
        groups: vec![
            group("GLOBAL", Some("fallback")),
            group("xppaicyber", Some("HK-01")),
        ],
    };
    let preferred = "CYBER".to_string();
    assert_eq!(resolve_selected_node(&snapshot, Some(&preferred)), "HK-01");
}

#[test]
fn proxy_group_is_the_fallback_anchor() {
    let snapshot = ProxyGroupSnapshot {
        groups: vec![
            group("GLOBAL", Some("x")),
            group("Proxy", Some("JP-02")),
        ],
    };
    assert_eq!(resolve_selected_node(&snapshot, None), "JP-02");
    let snapshot = ProxyGroupSnapshot { groups: vec![group("GLOBAL", None)] };
    assert_eq!(resolve_selected_node(&snapshot, None), "");
}

#[test]
fn missing_anchor_resolves_to_empty() {
    let snapshot = ProxyGroupSnapshot { groups: vec![group("Other", Some("x"))] };
    assert_eq!(resolve_selected_node(&snapshot, None), "");
}

#[test]
fn update_before_connect_is_a_no_op() {
    let mut manager = DiscordRpcManager::new();
    manager.init(None);
    manager.update_activity("d".to_string(), "s".to_string(), None, None);
    let cmd = manager.process_one(ok_io()).expect("one command was queued");
    // The worker never attempted a connection and its session is untouched.
    assert!(matches!(cmd, RpcCommand::UpdateActivity { .. }));
    assert!(!manager.is_connected());
    assert!(!manager.worker.session.has_client);
    assert!(manager.worker.session.start_time.is_none());
    let action = plan(&manager.worker, &cmd);
    assert!(matches!(action, RpcAction::DoNothing));
}

#[test]
fn connect_then_update_builds_the_payload() {
    let mut manager = DiscordRpcManager::new();
    manager.init(Some("app-123"));
    assert_eq!(manager.app_id, "app-123");
    manager.connect();
    manager.update_activity("details".to_string(), "state".to_string(), Some(1), Some(5));
    manager.process_one(ok_io());
    assert!(manager.is_connected());
    assert_eq!(manager.worker.session.start_time, Some(42));
    let cmd = manager.process_one(ok_io()).expect("update was queued");
    match plan(&manager.worker, &cmd) {
        RpcAction::SetActivity(p) => {
            assert_eq!(p.details, "details");
            assert_eq!(p.state, "state");
            assert_eq!(p.large_image, "clash_verge");
            assert_eq!(p.large_text, "Clash Verge Rev");
            assert_eq!(p.start_secs, Some(42));
            assert_eq!(p.party, Some((1, 5)));
        },
        _ => panic!("an update with a live client plans a set-activity"),
    }
}

#[test]
fn failed_set_marks_disconnected_but_keeps_the_client() {
    let mut manager = DiscordRpcManager::new();
    manager.init(None);
    manager.connect();
    manager.process_one(ok_io());
    manager.update_activity("d".to_string(), "s".to_string(), None, None);
    manager.process_one(StepIo { connect_ok: true, now_secs: 50, set_ok: false });
    assert!(!manager.is_connected());
    assert!(manager.worker.session.has_client);
    // A later connect is a no-op while the client object is held.
    manager.connect();
    let cmd = manager.process_one(ok_io()).unwrap();
    assert!(matches!(plan(&manager.worker, &cmd), RpcAction::DoNothing));
}

#[test]
fn shutdown_clears_the_session_for_good() {
    let mut manager = DiscordRpcManager::new();
    manager.init(None);
    manager.connect();
    manager.process_one(ok_io());
    manager.shutdown();
    manager.process_one(ok_io());
    assert!(manager.worker.stopped);
    assert!(!manager.is_connected());
    // Commands after shutdown are ignored by the worker.
    manager.connect();
    manager.process_one(ok_io());
    assert!(!manager.is_connected());
}

#[test]
fn commands_leave_the_queue_in_submission_order() {
    let mut manager = DiscordRpcManager::new();
    manager.init(None);
    manager.connect();
    manager.clear_activity();
    manager.disconnect();
    assert!(matches!(manager.process_one(ok_io()), Some(RpcCommand::Connect)));
    assert!(matches!(manager.process_one(ok_io()), Some(RpcCommand::ClearActivity)));
    assert!(matches!(manager.process_one(ok_io()), Some(RpcCommand::Disconnect)));
    assert!(manager.process_one(ok_io()).is_none());
}

#[test]
fn uninitialized_manager_drops_submissions() {
    let mut manager = DiscordRpcManager::default();
    manager.connect();
    manager.update_activity("d".to_string(), "s".to_string(), None, None);
    assert!(manager.process_one(ok_io()).is_none());
    assert_eq!(manager.pending.len(), 0);
}

#[test]
fn slot_entry_points_forward_to_the_manager() {
    let mut slot: Option<DiscordRpcManager> = None;
    connect_discord_rpc(&mut slot);
    assert!(slot.is_none());
    init_discord_rpc(&mut slot, None);
    assert_eq!(slot.as_ref().unwrap().app_id, "1057691699440259096");
    connect_discord_rpc(&mut slot);
    update_discord_activity(&mut slot, "d", "s", None, Some(3));
    assert_eq!(slot.as_ref().unwrap().pending.len(), 2);
    shutdown_discord_rpc(&mut slot);
    assert!(slot.is_none());
    init_discord_rpc(&mut slot, Some("x"));
    shutdown_discord_rpc_on_exit(&mut slot);
    assert!(slot.is_none());
}

#[test]
fn second_start_supersedes_the_first_generation() {
    let mut sup = UpdateSupervisor::new();
    assert_eq!(sup.start(), None);
    let first = sup.active.expect("a generation is active");
    // The superseded generation is handed back for cancellation before
    // the new one is installed; exactly one stays active.
    let cancelled = sup.start();
    assert_eq!(cancelled, Some(first));
    let second = sup.active.expect("a generation is active");
    assert_ne!(first, second);
}

#[test]
fn ticks_refresh_until_disabled() {
    assert_eq!(plan_tick(true), TickStep::Refresh);
    assert_eq!(plan_tick(false), TickStep::Terminate);
}

#[test]
fn toggle_off_then_on_leaves_one_loop_and_the_totals() {
    let mut ctx = PresenceContext::new(500, 700, 0);
    toggle_discord_rpc(&mut ctx, true, None);
    ctx.rates.up = 11;
    ctx.rates.down = 22;
    let first = ctx.supervisor.active.expect("loop started");
    let cancelled = toggle_discord_rpc(&mut ctx, false, None);
    assert_eq!(cancelled, Some(first));
    assert!(ctx.supervisor.active.is_none());
    assert!(ctx.manager.is_none());
    let cancelled = toggle_discord_rpc(&mut ctx, true, None);
    assert_eq!(cancelled, None);
    assert!(ctx.supervisor.active.is_some());
    assert_eq!((ctx.rates.up, ctx.rates.down), (0, 0));
    assert_eq!((ctx.traffic.total_up, ctx.traffic.total_down), (500, 700));
    let manager = ctx.manager.as_ref().expect("worker installed");
    assert_eq!(manager.pending.len(), 1);
    assert!(matches!(manager.pending[0], RpcCommand::Connect));
}

#[test]
fn startup_only_moves_when_enabled() {
    let mut ctx = PresenceContext::new(0, 0, 0);
    init_discord_rpc_on_startup(&mut ctx, false, None);
    assert!(ctx.manager.is_none());
    assert!(ctx.supervisor.active.is_none());
    init_discord_rpc_on_startup(&mut ctx, true, Some("custom"));
    assert_eq!(ctx.manager.as_ref().unwrap().app_id, "custom");
    assert!(ctx.supervisor.active.is_some());
}

#[test]
fn composed_activity_lines() {
    let node = "HK-01".to_string();
    let update = compose_activity(2048, 512, 1073741824, 1048576, &node, 24);
    assert_eq!(update.details, "↑ 2.0 KB/s • ↓ 512 B/s");
    assert_eq!(update.state, "All: ↑ 1.0 GB • ↓ 1.0 MB | HK-01");
    assert_eq!(update.party_size, Some(1));
    assert_eq!(update.party_max, Some(24));
    let empty = String::new();
    let update = compose_activity(0, 0, 0, 0, &empty, 0);
    assert_eq!(update.details, "↑ 0 B/s • ↓ 0 B/s");
    assert_eq!(update.state, "All: ↑ 0 B • ↓ 0 B");
    assert_eq!(update.party_size, None);
    assert_eq!(update.party_max, None);
}

#[test]
fn refresh_absorbs_failed_reads() {
    let mut traffic = TrafficState::load(100, 200, 0);
    let (update, save) = prepare_refresh(&mut traffic, None, 50, 0, 0, None, None);
    assert!(!save);
    assert_eq!(traffic.total_up, 100);
    assert_eq!(update.state, "All: ↑ 100 B • ↓ 200 B");
    assert_eq!(update.party_max, None);
}

#[test]
fn refresh_accumulates_and_resolves() {
    let mut traffic = TrafficState::load(0, 0, 0);
    let snapshot = ProxyGroupSnapshot {
        groups: vec![group("GLOBAL", Some("A")), group("A", None)],
    };
    let (update, save) = prepare_refresh(
        &mut traffic,
        Some((2048, 1024)),
        100,
        10,
        20,
        Some(&snapshot),
        None,
    );
    assert!(save);
    assert_eq!(traffic.total_up, 2048);
    assert_eq!(update.details, "↑ 10 B/s • ↓ 20 B/s");
    assert_eq!(update.state, "All: ↑ 2.0 KB • ↓ 1.0 KB | A");
    assert_eq!(update.party_size, Some(1));
    assert_eq!(update.party_max, Some(2));
}
