//! The presence command actor: a single worker owns the one connection to
//! the external presence service and applies commands to it strictly in
//! submission order.
//!
//! The worker's decisions are pure: [`plan`] says what outside work a
//! command calls for given the current session, and [`step`] says how the
//! session changes once the outcome of that work is known. The runtime
//! around the library performs the blocking calls between the two. A
//! [`DiscordRpcManager`] carries the producer side: commands are queued
//! first-in first-out, which is the actor's only synchronization.

use vstd::prelude::*;
use vstd::string::StringExecFns;

verus! {

/// A command for the presence worker.
#[derive(Debug)]
pub enum RpcCommand {
    Connect,
    Disconnect,
    UpdateActivity {
        details: String,
        state: String,
        party_size: Option<i32>,
        party_max: Option<i32>,
    },
    ClearActivity,
    Shutdown,
}

/// The worker-local session: whether a connection object is held, the
/// externally visible connected flag, and the elapsed-time anchor set
/// when the connection was established.
pub struct SessionState {
    pub has_client: bool,
    pub connected: bool,
    pub start_time: Option<i64>,
}

/// The worker's whole state: its session, and whether it has terminated
/// (a terminated worker ignores every further command).
pub struct WorkerState {
    pub session: SessionState,
    pub stopped: bool,
}

/// The session of a worker that has just started or has shut down.
pub open spec fn spec_empty_session() -> SessionState {
    SessionState { has_client: false, connected: false, start_time: None }
}

/// A freshly started worker.
pub open spec fn spec_fresh_worker() -> WorkerState {
    WorkerState { session: spec_empty_session(), stopped: false }
}

/// The presence payload one `UpdateActivity` command asks the external
/// service to display.
pub struct ActivityPayload {
    pub details: String,
    pub state: String,
    pub large_image: String,
    pub large_text: String,
    pub start_secs: Option<i64>,
    pub party: Option<(i32, i32)>,
}

/// The outside work one command calls for.
pub enum RpcAction {
    DoNothing,
    AttemptConnect,
    CloseConnection,
    SetActivity(ActivityPayload),
    ClearCurrentActivity,
    ShutdownConnection,
}

/// The party pair displayed when both of its halves are known.
pub open spec fn spec_party(party_size: Option<i32>, party_max: Option<i32>) -> Option<
    (i32, i32),
> {
    if party_size is Some && party_max is Some {
        Some((party_size->0, party_max->0))
    } else {
        None
    }
}

/// Whether this command makes the worker try to establish the external
/// connection: only `Connect`, and only while no connection object is
/// held.
pub open spec fn spec_plans_attempt(w: WorkerState, cmd: RpcCommand) -> bool {
    !w.stopped && cmd is Connect && !w.session.has_client
}

/// Decide what outside work a command calls for, without performing any.
pub fn plan(w: &WorkerState, cmd: &RpcCommand) -> (r: RpcAction)
    ensures
        r is AttemptConnect <==> spec_plans_attempt(*w, *cmd),
        w.stopped ==> r is DoNothing,
        !w.stopped ==> match *cmd {
            RpcCommand::Connect => r == (if w.session.has_client {
                RpcAction::DoNothing
            } else {
                RpcAction::AttemptConnect
            }),
            RpcCommand::Disconnect => r == RpcAction::CloseConnection,
            RpcCommand::UpdateActivity { details, state, party_size, party_max } => {
                if w.session.has_client {
                    r matches RpcAction::SetActivity(p) && p.details@ == details@ && p.state@
                        == state@ && p.large_image@ == "clash_verge"@ && p.large_text@
                        == "Clash Verge Rev"@ && p.start_secs == w.session.start_time && p.party
                        == spec_party(party_size, party_max)
                } else {
                    r is DoNothing
                }
            },
            RpcCommand::ClearActivity => r == (if w.session.has_client {
                RpcAction::ClearCurrentActivity
            } else {
                RpcAction::DoNothing
            }),
            RpcCommand::Shutdown => r == RpcAction::ShutdownConnection,
        },
{
    if w.stopped {
        return RpcAction::DoNothing;
    }
    match cmd {
        RpcCommand::Connect => {
            if w.session.has_client {
                RpcAction::DoNothing
            } else {
                RpcAction::AttemptConnect
            }
        },
        RpcCommand::Disconnect => RpcAction::CloseConnection,
        RpcCommand::UpdateActivity { details, state, party_size, party_max } => {
            if w.session.has_client {
                let party = match (party_size, party_max) {
                    (Some(size), Some(max)) => Some((*size, *max)),
                    _ => None,
                };
                RpcAction::SetActivity(
                    ActivityPayload {
                        details: details.clone(),
                        state: state.clone(),
                        large_image: String::from_str("clash_verge"),
                        large_text: String::from_str("Clash Verge Rev"),
                        start_secs: w.session.start_time,
                        party,
                    },
                )
            } else {
                RpcAction::DoNothing
            }
        },
        RpcCommand::ClearActivity => {
            if w.session.has_client {
                RpcAction::ClearCurrentActivity
            } else {
                RpcAction::DoNothing
            }
        },
        RpcCommand::Shutdown => RpcAction::ShutdownConnection,
    }
}

/// The outcomes of whatever outside work one command needed: whether a
/// connection attempt succeeded and at what wall-clock second, and
/// whether a set-activity call succeeded. Fields that a command does not
/// need are ignored by [`spec_step`].
#[derive(Clone, Copy, Debug)]
pub struct StepIo {
    pub connect_ok: bool,
    pub now_secs: i64,
    pub set_ok: bool,
}

/// How the worker's state changes when one command is processed with the
/// given outcomes of its outside work.
pub open spec fn spec_step(w: WorkerState, cmd: RpcCommand, io: StepIo) -> WorkerState {
    if w.stopped {
        w
    } else {
        match cmd {
            RpcCommand::Connect => {
                if w.session.has_client {
                    w
                } else if io.connect_ok {
                    WorkerState {
                        session: SessionState {
                            has_client: true,
                            connected: true,
                            start_time: Some(io.now_secs),
                        },
                        ..w
                    }
                } else {
                    WorkerState {
                        session: SessionState { connected: false, ..w.session },
                        ..w
                    }
                }
            },
            RpcCommand::Disconnect => WorkerState { session: spec_empty_session(), ..w },
            RpcCommand::UpdateActivity { .. } => {
                if !w.session.has_client {
                    w
                } else if io.set_ok {
                    w
                } else {
                    WorkerState {
                        session: SessionState { connected: false, ..w.session },
                        ..w
                    }
                }
            },
            RpcCommand::ClearActivity => w,
            RpcCommand::Shutdown => WorkerState { session: spec_empty_session(), stopped: true },
        }
    }
}

/// Apply one processed command's outcome to the worker state.
pub fn step(w: &mut WorkerState, cmd: &RpcCommand, io: StepIo)
    ensures
        *final(w) == spec_step(*old(w), *cmd, io),
{
    if w.stopped {
        return ;
    }
    match cmd {
        RpcCommand::Connect => {
            if !w.session.has_client {
                if io.connect_ok {
                    w.session.has_client = true;
                    w.session.connected = true;
                    w.session.start_time = Some(io.now_secs);
                } else {
                    w.session.connected = false;
                }
            }
        },
        RpcCommand::Disconnect => {
            w.session.has_client = false;
            w.session.connected = false;
            w.session.start_time = None;
        },
        RpcCommand::UpdateActivity { .. } => {
            if w.session.has_client && !io.set_ok {
                w.session.connected = false;
            }
        },
        RpcCommand::ClearActivity => {},
        RpcCommand::Shutdown => {
            w.session.has_client = false;
            w.session.connected = false;
            w.session.start_time = None;
            w.stopped = true;
        },
    }
}

/// The worker state after a whole log of commands, each with the outcomes
/// of its outside work, is processed in order.
pub open spec fn spec_run(w: WorkerState, log: Seq<(RpcCommand, StepIo)>) -> WorkerState
    decreases log.len(),
{
    if log.len() == 0 {
        w
    } else {
        spec_run(spec_step(w, log[0].0, log[0].1), log.drop_first())
    }
}

/// Law: activity updates sent before any connect are no-ops. A worker
/// holding no connection object leaves its state untouched by any
/// sequence of `UpdateActivity` commands, whatever their outcomes, and
/// none of them plans a connection attempt.
pub proof fn lemma_update_before_connect(w: WorkerState, log: Seq<(RpcCommand, StepIo)>)
    requires
        !w.session.has_client,
        forall|i: int| 0 <= i < log.len() ==> #[trigger] log[i].0 is UpdateActivity,
    ensures
        spec_run(w, log) == w,
        forall|i: int| 0 <= i < log.len() ==> !spec_plans_attempt(w, #[trigger] log[i].0),
    decreases log.len(),
{
    if log.len() > 0 {
        assert(spec_step(w, log[0].0, log[0].1) == w);
        let rest = log.drop_first();
        assert(forall|i: int| 0 <= i < rest.len() ==> #[trigger] rest[i].0 is UpdateActivity);
        lemma_update_before_connect(w, rest);
    }
}

/// The application identifier used when no override is configured.
pub open spec fn spec_default_app_id() -> Seq<char> {
    "1057691699440259096"@
}

/// The identifier the worker is created with: the configured override, or
/// the default.
pub open spec fn spec_resolved_app_id(app_id: Option<Seq<char>>) -> Seq<char> {
    match app_id {
        Some(s) => s,
        None => spec_default_app_id(),
    }
}

/// The view of an optional borrowed identifier.
pub open spec fn opt_str_view(s: Option<&str>) -> Option<Seq<char>> {
    match s {
        Some(s) => Some(s@),
        None => None,
    }
}

/// The producer-side handle to the presence worker: the resolved
/// application identifier, the queue of commands submitted and not yet
/// processed, and the worker state itself. Until `init` is called no
/// queue exists and submissions are dropped.
pub struct DiscordRpcManager {
    pub sender: bool,
    pub app_id: String,
    pub pending: Vec<RpcCommand>,
    pub worker: WorkerState,
}

/// Both manager states around a submission: the queue grew by exactly the
/// command if a queue exists, nothing else moved.
pub open spec fn spec_after_send(
    m0: DiscordRpcManager,
    m1: DiscordRpcManager,
    cmd: RpcCommand,
) -> bool {
    &&& m1.sender == m0.sender
    &&& m1.app_id == m0.app_id
    &&& m1.worker == m0.worker
    &&& m1.pending@ == (if m0.sender {
        m0.pending@.push(cmd)
    } else {
        m0.pending@
    })
}

impl DiscordRpcManager {
    /// A manager with no worker yet.
    pub fn new() -> (m: DiscordRpcManager)
        ensures
            !m.sender,
            m.app_id@ == Seq::<char>::empty(),
            m.pending@ == Seq::<RpcCommand>::empty(),
            m.worker == spec_fresh_worker(),
    {
        DiscordRpcManager {
            sender: false,
            app_id: String::new(),
            pending: Vec::new(),
            worker: WorkerState {
                session: SessionState { has_client: false, connected: false, start_time: None },
                stopped: false,
            },
        }
    }

    /// Start the worker: installs the command queue, resolves the
    /// application identifier, and resets the worker state.
    pub fn init(&mut self, app_id: Option<&str>)
        ensures
            final(self).sender,
            final(self).app_id@ == spec_resolved_app_id(opt_str_view(app_id)),
            final(self).pending@ == Seq::<RpcCommand>::empty(),
            final(self).worker == spec_fresh_worker(),
    {
        self.sender = true;
        self.app_id = match app_id {
            Some(s) => String::from_str(s),
            None => String::from_str("1057691699440259096"),
        };
        self.pending = Vec::new();
        self.worker = WorkerState {
            session: SessionState { has_client: false, connected: false, start_time: None },
            stopped: false,
        };
    }

    fn enqueue(&mut self, cmd: RpcCommand)
        ensures
            spec_after_send(*old(self), *final(self), cmd),
    {
        if self.sender {
            self.pending.push(cmd);
        }
    }

    /// Ask the worker to establish the external connection.
    pub fn connect(&mut self)
        ensures
            spec_after_send(*old(self), *final(self), RpcCommand::Connect),
    {
        self.enqueue(RpcCommand::Connect);
    }

    /// Ask the worker to close the external connection.
    pub fn disconnect(&mut self)
        ensures
            spec_after_send(*old(self), *final(self), RpcCommand::Disconnect),
    {
        self.enqueue(RpcCommand::Disconnect);
    }

    /// Ask the worker to display this activity.
    pub fn update_activity(
        &mut self,
        details: String,
        state: String,
        party_size: Option<i32>,
        party_max: Option<i32>,
    )
        ensures
            spec_after_send(
                *old(self),
                *final(self),
                RpcCommand::UpdateActivity { details, state, party_size, party_max },
            ),
    {
        self.enqueue(RpcCommand::UpdateActivity { details, state, party_size, party_max });
    }

    /// Ask the worker to clear the displayed activity.
    pub fn clear_activity(&mut self)
        ensures
            spec_after_send(*old(self), *final(self), RpcCommand::ClearActivity),
    {
        self.enqueue(RpcCommand::ClearActivity);
    }

    /// Ask the worker to shut down for good.
    pub fn shutdown(&mut self)
        ensures
            spec_after_send(*old(self), *final(self), RpcCommand::Shutdown),
    {
        self.enqueue(RpcCommand::Shutdown);
    }

    /// Whether the worker reports a live connection.
    pub fn is_connected(&self) -> (r: bool)
        ensures
            r == self.worker.session.connected,
    {
        self.worker.session.connected
    }

    /// Process the oldest queued command with the given outcomes of its
    /// outside work; commands leave the queue strictly in submission
    /// order.
    pub fn process_one(&mut self, io: StepIo) -> (r: Option<RpcCommand>)
        ensures
            old(self).pending@.len() == 0 ==> *final(self) == *old(self) && r is None,
            old(self).pending@.len() > 0 ==> {
                &&& r == Some(old(self).pending@[0])
                &&& final(self).pending@ == old(self).pending@.drop_first()
                &&& final(self).worker == spec_step(
                    old(self).worker,
                    old(self).pending@[0],
                    io,
                )
                &&& final(self).sender == old(self).sender
                &&& final(self).app_id == old(self).app_id
            },
    {
        if self.pending.len() == 0 {
            None
        } else {
            let cmd = self.pending.remove(0);
            step(&mut self.worker, &cmd, io);
            proof {
                assert(old(self).pending@.remove(0) =~= old(self).pending@.drop_first());
            }
            Some(cmd)
        }
    }
}

impl Default for DiscordRpcManager {
    /// A manager with no worker yet.
    fn default() -> (m: DiscordRpcManager)
        ensures
            !m.sender,
            m.app_id@ == Seq::<char>::empty(),
            m.pending@ == Seq::<RpcCommand>::empty(),
            m.worker == spec_fresh_worker(),
    {
        DiscordRpcManager::new()
    }
}

/// Install a freshly initialized manager into the slot that owns it.
pub fn init_discord_rpc(slot: &mut Option<DiscordRpcManager>, app_id: Option<&str>)
    ensures
        (*final(slot)) matches Some(m) && m.sender && m.app_id@ == spec_resolved_app_id(
            opt_str_view(app_id),
        ) && m.pending@ == Seq::<RpcCommand>::empty() && m.worker == spec_fresh_worker(),
{
    let mut manager = DiscordRpcManager::new();
    manager.init(app_id);
    *slot = Some(manager);
}

/// Ask the installed worker, if any, to establish the connection.
pub fn connect_discord_rpc(slot: &mut Option<DiscordRpcManager>)
    ensures
        (*old(slot)) is None ==> *final(slot) == *old(slot),
        (*old(slot)) matches Some(m) ==> (*final(slot)) matches Some(m1) && spec_after_send(
            m,
            m1,
            RpcCommand::Connect,
        ),
{
    if let Some(manager) = slot {
        manager.connect();
    }
}

/// Ask the installed worker, if any, to close the connection.
pub fn disconnect_discord_rpc(slot: &mut Option<DiscordRpcManager>)
    ensures
        (*old(slot)) is None ==> *final(slot) == *old(slot),
        (*old(slot)) matches Some(m) ==> (*final(slot)) matches Some(m1) && spec_after_send(
            m,
            m1,
            RpcCommand::Disconnect,
        ),
{
    if let Some(manager) = slot {
        manager.disconnect();
    }
}

/// Ask the installed worker, if any, to display this activity.
pub fn update_discord_activity(
    slot: &mut Option<DiscordRpcManager>,
    details: &str,
    state: &str,
    party_size: Option<i32>,
    party_max: Option<i32>,
)
    ensures
        (*old(slot)) is None ==> *final(slot) == *old(slot),
        (*old(slot)) matches Some(m) ==> (*final(slot)) matches Some(m1) && exists|cmd: RpcCommand|
            spec_after_send(m, m1, cmd) && (#[trigger] spec_is_update(cmd, details@, state@, party_size, party_max)),
{
    if let Some(manager) = slot {
        let details_owned = String::from_str(details);
        let state_owned = String::from_str(state);
        let ghost cmd = RpcCommand::UpdateActivity {
            details: details_owned,
            state: state_owned,
            party_size,
            party_max,
        };
        manager.update_activity(details_owned, state_owned, party_size, party_max);
        proof {
            assert(spec_is_update(cmd, details@, state@, party_size, party_max));
        }
    }
}

/// Whether a command is the activity update carrying exactly these
/// fields.
pub open spec fn spec_is_update(
    cmd: RpcCommand,
    details: Seq<char>,
    state: Seq<char>,
    party_size: Option<i32>,
    party_max: Option<i32>,
) -> bool {
    cmd matches RpcCommand::UpdateActivity { details: d, state: s, party_size: ps, party_max: pm }
        && d@ == details && s@ == state && ps == party_size && pm == party_max
}

/// Ask the installed worker to shut down and drop the manager; the
/// session cannot be revived without installing a new one.
pub fn shutdown_discord_rpc(slot: &mut Option<DiscordRpcManager>)
    ensures
        (*final(slot)) is None,
{
    if let Some(manager) = slot {
        manager.shutdown();
    }
    *slot = None;
}

/// Shut the presence feature down as the application exits.
pub fn shutdown_discord_rpc_on_exit(slot: &mut Option<DiscordRpcManager>)
    ensures
        (*final(slot)) is None,
{
    shutdown_discord_rpc(slot);
}

} // verus!
