//! The supervisor: one worker slot, tracked by an explicit state machine.
//!
//! The supervisor owns at most one worker at a time. Callers ask it to
//! start, stop, shut down or force-kill the worker; a monitor reports what
//! the operating system did (spawn confirmed or refused, self-exit
//! detected, handle taken for killing, termination confirmed). Every such
//! request or report is one transition of the [`step`] machine below, and
//! every public method's contract says exactly which transition it is.
//!
//! The surrounding binary serializes access (one lock around the
//! supervisor, as many caller and reader threads as it likes), performs
//! the actual spawning, killing, sleeping and pipe reading, and feeds each
//! outcome back. Any interleaving of threads is then some sequence of
//! these transitions, and the proof functions at the end of this module
//! quantify over all such sequences.

use vstd::prelude::*;
use crate::config::{arg_model, ConfigModel, LaunchConfig};
use crate::errors::NodeError;
use crate::logs::{join_lines, rendered_line, LogBuffer};

verus! {

/// Where the worker slot stands.
///
/// `Launching` covers the window between the decision to spawn and the
/// operating system's answer; `StoppingGraceful` the window between a stop
/// request and the confirmed termination; `Crashed` the window between a
/// detected self-exit and the monitor's cleanup.
#[derive(Clone, Copy, Debug, PartialEq, Eq, Structural)]
pub enum RunState {
    Stopped,
    Launching,
    Running,
    StoppingGraceful,
    Crashed,
}

/// What a caller asks of the monitor over the control channel.
///
/// `Stop` leaves the caller free to start again later; `Shutdown` is
/// terminal. Both drive the same graceful-then-forced stop of the current
/// worker; a restart is always an explicit new `start`, never a side
/// effect of a stop.
#[derive(Clone, Copy, Debug, PartialEq, Eq, Structural)]
pub enum ControlMessage {
    Stop,
    Shutdown,
}

/// The supervisor's token for a spawned worker process. The binary keeps
/// the real child handle beside it, under the same lock, and kills or
/// reaps it exactly when the supervisor hands this token out.
#[derive(Clone, Copy, Debug, PartialEq, Eq, Structural)]
pub struct WorkerHandle {
    pub pid: u32,
}

/// What a `start` request tells the caller to do next.
#[derive(Debug)]
pub enum StartAction {
    /// A worker is still active: run the stop sequence for it first, then
    /// ask again.
    StopPrevious,
    /// The slot is free: spawn the worker with this argument vector and
    /// report the outcome.
    Spawn(Vec<String>),
}

/// Spec-level image of the supervisor.
pub struct NodeModel {
    pub state: RunState,
    pub handle: Option<WorkerHandle>,
    pub account: Option<Seq<char>>,
    pub logs: Seq<Seq<char>>,
}

/// Everything that moves the supervisor: caller requests and monitor
/// reports, each carrying what the outside world answered.
pub enum NodeEvent {
    StartRequested { config: ConfigModel, daemon_port_free: bool, peer_port_free: bool },
    SpawnSucceeded { handle: WorkerHandle },
    SpawnFailed,
    ControlReceived { message: ControlMessage },
    ExitDetected,
    HandleTaken,
    StopFinished,
    ForceKilled,
    LineCaptured { line: Seq<char>, from_stderr: bool },
}

/// The supervisor before any worker was ever started.
pub open spec fn init_model() -> NodeModel {
    NodeModel { state: RunState::Stopped, handle: None, account: None, logs: Seq::empty() }
}

/// The single source of truth for "is a worker active": from confirmed
/// spawn until the stop or crash cleanup finishes.
pub open spec fn is_running_model(m: NodeModel) -> bool {
    m.state is Running || m.state is StoppingGraceful || m.state is Crashed
}

pub open spec fn is_running_for_model(m: NodeModel, account_name: Seq<char>) -> bool {
    is_running_model(m) && m.account == Some(account_name)
}

/// The transition relation. Every event is total: one that arrives in the
/// wrong state changes nothing.
pub open spec fn step(m: NodeModel, e: NodeEvent) -> NodeModel {
    match e {
        NodeEvent::StartRequested { config, daemon_port_free, peer_port_free } => {
            if daemon_port_free && peer_port_free && m.state is Stopped {
                NodeModel {
                    state: RunState::Launching,
                    account: Some(config.account_name),
                    ..m
                }
            } else {
                m
            }
        },
        NodeEvent::SpawnSucceeded { handle } => {
            if m.state is Launching && m.handle is None {
                NodeModel { state: RunState::Running, handle: Some(handle), ..m }
            } else {
                m
            }
        },
        NodeEvent::SpawnFailed => {
            if m.state is Launching {
                NodeModel { state: RunState::Stopped, ..m }
            } else {
                m
            }
        },
        NodeEvent::ControlReceived { message: _ } => {
            if is_running_model(m) {
                NodeModel {
                    state: if m.state is Running {
                        RunState::StoppingGraceful
                    } else {
                        m.state
                    },
                    account: None,
                    ..m
                }
            } else {
                m
            }
        },
        NodeEvent::ExitDetected => {
            if m.state is Running {
                NodeModel { state: RunState::Crashed, account: None, ..m }
            } else {
                m
            }
        },
        NodeEvent::HandleTaken => {
            if m.state is StoppingGraceful || m.state is Crashed {
                NodeModel { handle: None, ..m }
            } else {
                m
            }
        },
        NodeEvent::StopFinished => {
            if (m.state is StoppingGraceful || m.state is Crashed) && m.handle is None {
                NodeModel { state: RunState::Stopped, account: None, ..m }
            } else {
                m
            }
        },
        NodeEvent::ForceKilled => {
            NodeModel { state: RunState::Stopped, handle: None, account: None, ..m }
        },
        NodeEvent::LineCaptured { line, from_stderr } => {
            NodeModel { logs: m.logs.push(rendered_line(line, from_stderr)), ..m }
        },
    }
}

/// The supervisor's invariant: a stopped or still-launching slot owns no
/// handle, a confirmed worker owns exactly one, and a running worker
/// always belongs to a named account.
pub open spec fn wf(m: NodeModel) -> bool {
    &&& (m.state is Stopped ==> m.handle is None)
    &&& (m.state is Launching ==> m.handle is None && m.account is Some)
    &&& (m.state is Running ==> m.handle is Some && m.account is Some)
}

/// The control surface for the single worker slot.
pub struct NodeProcess {
    state: RunState,
    handle: Option<WorkerHandle>,
    current_account: Option<String>,
    logs: LogBuffer,
}

impl View for NodeProcess {
    type V = NodeModel;

    closed spec fn view(&self) -> NodeModel {
        NodeModel {
            state: self.state,
            handle: self.handle,
            account: self.current_account.deep_view(),
            logs: self.logs@,
        }
    }
}

impl NodeProcess {
    /// A fresh supervisor: nothing running, nothing owned, no logs.
    pub fn new() -> (r: NodeProcess)
        ensures
            r@ == init_model(),
            wf(r@),
    {
        NodeProcess {
            state: RunState::Stopped,
            handle: None,
            current_account: None,
            logs: LogBuffer::new(),
        }
    }

    /// True from a confirmed spawn until the stop or crash cleanup is done.
    pub fn is_running(&self) -> (r: bool)
        ensures
            r == is_running_model(self@),
    {
        match self.state {
            RunState::Running => true,
            RunState::StoppingGraceful => true,
            RunState::Crashed => true,
            _ => false,
        }
    }

    /// True exactly when a worker is active and belongs to this account.
    pub fn is_running_for_account(&self, account_name: &str) -> (r: bool)
        ensures
            r == is_running_for_model(self@, account_name@),
    {
        if !self.is_running() {
            return false;
        }
        match &self.current_account {
            Some(current) => *current == account_name.to_owned(),
            None => false,
        }
    }

    /// The account the active worker runs for, if any.
    pub fn get_current_account(&self) -> (r: Option<String>)
        ensures
            r.deep_view() == self@.account,
    {
        match &self.current_account {
            Some(name) => Some(name.clone()),
            None => None,
        }
    }

    /// Begins a start request for `config`, given the preflight answer for
    /// the two ports.
    ///
    /// An occupied port is rejected — daemon port first — and nothing
    /// changes, so an already running worker stays untouched. With both
    /// ports free, an occupied slot asks the caller to stop the previous
    /// worker first (and again changes nothing); a free slot moves to
    /// `Launching`, records the account, and hands back the exact argument
    /// vector to spawn with. The running flag is not touched here: it
    /// flips only on a confirmed spawn.
    pub fn start(
        &mut self,
        config: &LaunchConfig,
        daemon_port_free: bool,
        peer_port_free: bool,
    ) -> (r: Result<StartAction, NodeError>)
        ensures
            final(self)@ == step(
                old(self)@,
                NodeEvent::StartRequested { config: config@, daemon_port_free, peer_port_free },
            ),
            !(daemon_port_free && peer_port_free) ==> final(self)@ == old(self)@,
            !daemon_port_free ==> r == Err::<StartAction, NodeError>(
                NodeError::PortInUse(config.daemon_port),
            ),
            daemon_port_free && !peer_port_free ==> r == Err::<StartAction, NodeError>(
                NodeError::PortInUse(config.peer_port),
            ),
            daemon_port_free && peer_port_free && !(old(self)@.state is Stopped) ==> (r
                matches Ok(a) && a is StopPrevious),
            daemon_port_free && peer_port_free && old(self)@.state is Stopped ==> (r matches Ok(a)
                && a matches StartAction::Spawn(args) && args.deep_view() == arg_model(config@)),
    {
        if !daemon_port_free {
            return Err(NodeError::PortInUse(config.daemon_port));
        }
        if !peer_port_free {
            return Err(NodeError::PortInUse(config.peer_port));
        }
        match self.state {
            RunState::Stopped => {
                self.state = RunState::Launching;
                self.current_account = Some(config.account_name.clone());
                Ok(StartAction::Spawn(config.build_args()))
            },
            _ => Ok(StartAction::StopPrevious),
        }
    }

    /// Confirms a spawn: the slot takes ownership of the handle and the
    /// worker counts as running.
    ///
    /// Accepted only in the launch window with an empty slot — so a slot
    /// already owning a handle can never be overwritten. A rejected
    /// confirmation (`false`) obliges the caller to kill the fresh process
    /// itself: the supervisor never owned it.
    pub fn on_spawn_succeeded(&mut self, handle: WorkerHandle) -> (accepted: bool)
        ensures
            final(self)@ == step(old(self)@, NodeEvent::SpawnSucceeded { handle }),
            accepted == (old(self)@.state is Launching && old(self)@.handle is None),
            accepted ==> is_running_model(final(self)@) && final(self)@.handle == Some(handle)
                && final(self)@.account == old(self)@.account,
            !accepted ==> final(self)@ == old(self)@,
    {
        match self.state {
            RunState::Launching => {
                if self.handle.is_none() {
                    self.state = RunState::Running;
                    self.handle = Some(handle);
                    true
                } else {
                    false
                }
            },
            _ => false,
        }
    }

    /// Reports that the operating system refused the spawn. The slot
    /// returns to `Stopped`; the running flag was never set.
    pub fn on_spawn_failed(&mut self)
        ensures
            final(self)@ == step(old(self)@, NodeEvent::SpawnFailed),
            old(self)@.state is Launching ==> !is_running_model(final(self)@),
    {
        match self.state {
            RunState::Launching => {
                self.state = RunState::Stopped;
            },
            _ => {},
        }
    }

    /// Requests a graceful stop; never blocks.
    ///
    /// On a non-running supervisor this is an error and nothing at all
    /// changes — no spawn, no kill, no log entry. Otherwise the slot moves
    /// into the stopping window and the account is cleared right away, so
    /// no account check can race against a worker that is mid-shutdown.
    pub fn stop(&mut self) -> (r: Result<(), NodeError>)
        ensures
            final(self)@ == step(
                old(self)@,
                NodeEvent::ControlReceived { message: ControlMessage::Stop },
            ),
            r is Ok <==> is_running_model(old(self)@),
            !is_running_model(old(self)@) ==> r == Err::<(), NodeError>(NodeError::NotRunning)
                && final(self)@ == old(self)@,
    {
        match self.state {
            RunState::Running => {
                self.state = RunState::StoppingGraceful;
                self.current_account = None;
                Ok(())
            },
            RunState::StoppingGraceful | RunState::Crashed => {
                self.current_account = None;
                Ok(())
            },
            _ => Err(NodeError::NotRunning),
        }
    }

    /// Requests a terminal stop. The transition is the stop transition; the
    /// caller is expected to wait for the running flag to clear and to fall
    /// back to `force_kill` after its timeout — the proof
    /// [`lemma_shutdown_always_stops`] shows both endings leave the
    /// supervisor not running.
    pub fn shutdown(&mut self)
        ensures
            final(self)@ == step(
                old(self)@,
                NodeEvent::ControlReceived { message: ControlMessage::Shutdown },
            ),
    {
        let _ = self.stop();
    }

    /// Reports that the worker exited on its own, without a stop request:
    /// the slot is crashed until the monitor cleans it up.
    pub fn on_worker_exit(&mut self)
        ensures
            final(self)@ == step(old(self)@, NodeEvent::ExitDetected),
    {
        match self.state {
            RunState::Running => {
                self.state = RunState::Crashed;
                self.current_account = None;
            },
            _ => {},
        }
    }

    /// Hands the owned handle to the one code path that will kill or reap
    /// it. Only a stopping or crashed slot gives its handle out, and only
    /// once: a second taker gets `None`.
    pub fn take_handle(&mut self) -> (h: Option<WorkerHandle>)
        ensures
            final(self)@ == step(old(self)@, NodeEvent::HandleTaken),
            old(self)@.state is StoppingGraceful || old(self)@.state is Crashed ==> h == old(
                self,
            )@.handle && final(self)@.handle is None,
            !(old(self)@.state is StoppingGraceful || old(self)@.state is Crashed) ==> h is None
                && final(self)@ == old(self)@,
    {
        match self.state {
            RunState::StoppingGraceful | RunState::Crashed => {
                let h = self.handle;
                self.handle = None;
                h
            },
            _ => None,
        }
    }

    /// Finishes a stop or crash cleanup once the handle has been taken and
    /// the process's termination is confirmed: the slot is stopped, the
    /// account stays cleared, and the running flag is down.
    pub fn finish_stop(&mut self) -> (done: bool)
        ensures
            final(self)@ == step(old(self)@, NodeEvent::StopFinished),
            done == ((old(self)@.state is StoppingGraceful || old(self)@.state is Crashed) && old(
                self,
            )@.handle is None),
            done ==> !is_running_model(final(self)@) && final(self)@.account is None,
            !done ==> final(self)@ == old(self)@,
    {
        match self.state {
            RunState::StoppingGraceful | RunState::Crashed => {
                if self.handle.is_none() {
                    self.state = RunState::Stopped;
                    self.current_account = None;
                    true
                } else {
                    false
                }
            },
            _ => false,
        }
    }

    /// The escape hatch: surrenders the handle for an immediate kill,
    /// clears the running flag and the account, whatever state the slot
    /// was in. After this the supervisor is never running.
    pub fn force_kill(&mut self) -> (h: Option<WorkerHandle>)
        ensures
            final(self)@ == step(old(self)@, NodeEvent::ForceKilled),
            h == old(self)@.handle,
            final(self)@.handle is None,
            !is_running_model(final(self)@),
            final(self)@.account is None,
            final(self)@.logs == old(self)@.logs,
    {
        let h = self.handle;
        self.handle = None;
        self.state = RunState::Stopped;
        self.current_account = None;
        h
    }

    /// Appends one line read from the worker's output stream.
    pub fn append_log(&mut self, line: String)
        ensures
            final(self)@ == step(
                old(self)@,
                NodeEvent::LineCaptured { line: line@, from_stderr: false },
            ),
    {
        self.logs.append(line);
    }

    /// Appends one line read from the worker's error stream, tagged.
    pub fn append_error_log(&mut self, line: String)
        ensures
            final(self)@ == step(
                old(self)@,
                NodeEvent::LineCaptured { line: line@, from_stderr: true },
            ),
    {
        self.logs.append_error(line);
    }

    /// A copy of the in-memory log entries, in insertion order.
    pub fn get_logs(&self) -> (r: Vec<String>)
        ensures
            r.deep_view() == self@.logs,
    {
        self.logs.snapshot()
    }

    /// The in-memory entries followed by the entries of a persisted log
    /// file the caller read back.
    pub fn get_logs_with_file(&self, file_lines: &Vec<String>) -> (r: Vec<String>)
        ensures
            r.deep_view() == self@.logs + file_lines.deep_view(),
    {
        self.logs.merged(file_lines)
    }

    /// Everything captured so far as one newline-separated text, ready to
    /// be written to a file of the caller's choosing.
    pub fn logs_text(&self) -> (r: String)
        ensures
            r@ == join_lines(self@.logs),
    {
        self.logs.text()
    }
}

/// A supervisor run: the state after a sequence of transitions.
pub open spec fn run_events(m: NodeModel, events: Seq<NodeEvent>) -> NodeModel
    decreases events.len(),
{
    if events.len() == 0 {
        m
    } else {
        run_events(step(m, events.first()), events.drop_first())
    }
}

/// Every single transition keeps the invariant.
pub proof fn lemma_step_preserves_wf(m: NodeModel, e: NodeEvent)
    requires
        wf(m),
    ensures
        wf(step(m, e)),
{
}

pub proof fn lemma_run_events_preserves_wf(m: NodeModel, events: Seq<NodeEvent>)
    requires
        wf(m),
    ensures
        wf(run_events(m, events)),
    decreases events.len(),
{
    if events.len() > 0 {
        lemma_step_preserves_wf(m, events.first());
        lemma_run_events_preserves_wf(step(m, events.first()), events.drop_first());
    }
}

/// Whatever sequence of start, stop, shutdown, force-kill and monitor
/// events hits a fresh supervisor, the invariant holds at every instant:
/// in particular the slot owns at most the one handle its field can hold,
/// and owns none at all whenever it reports stopped.
pub proof fn lemma_supervisor_always_wf(events: Seq<NodeEvent>)
    ensures
        wf(run_events(init_model(), events)),
{
    lemma_run_events_preserves_wf(init_model(), events);
}

/// No double-own and no silent drop: a transition installs a handle only
/// by a confirmed spawn into an empty slot, never replaces one handle by
/// another, and releases one only into the hands of the taker or the
/// forced kill — the code paths that wait on the process.
pub proof fn lemma_handle_owned_once(m: NodeModel, e: NodeEvent)
    requires
        wf(m),
    ensures
        step(m, e).handle is Some ==> step(m, e).handle == m.handle || (m.handle is None
            && e is SpawnSucceeded),
        m.handle is Some && step(m, e).handle is None ==> e is HandleTaken || e is ForceKilled,
{
}

/// After a shutdown request, whichever way the worker went — it exited
/// within the graceful timeout and was reaped, or it survived and the
/// forced kill had to finish the job — the supervisor reports not running.
pub proof fn lemma_shutdown_always_stops(m: NodeModel, exited_in_time: bool)
    requires
        wf(m),
    ensures
        ({
            let requested = step(
                m,
                NodeEvent::ControlReceived { message: ControlMessage::Shutdown },
            );
            let taken = step(requested, NodeEvent::HandleTaken);
            let ended = if exited_in_time {
                step(taken, NodeEvent::StopFinished)
            } else {
                step(taken, NodeEvent::ForceKilled)
            };
            !is_running_model(ended)
        }),
{
}

/// A stop request whose worker never exits on its own still ends not
/// running: the monitor takes the handle, the graceful wait runs out, and
/// the forced kill completes the stop with nothing left owned.
pub proof fn lemma_stop_escalation_stops(m: NodeModel)
    requires
        wf(m),
        is_running_model(m),
    ensures
        ({
            let requested = step(m, NodeEvent::ControlReceived { message: ControlMessage::Stop });
            let taken = step(requested, NodeEvent::HandleTaken);
            let killed = step(taken, NodeEvent::ForceKilled);
            !is_running_model(killed) && killed.handle is None
        }),
{
}

/// One transition never loses a log entry: whatever was visible stays, at
/// its index.
pub proof fn lemma_step_keeps_logs(m: NodeModel, e: NodeEvent)
    ensures
        m.logs.is_prefix_of(step(m, e).logs),
{
    assert(m.logs =~= step(m, e).logs.take(m.logs.len() as int));
}

/// The log buffer is append-only over the supervisor's whole lifetime:
/// after any sequence of transitions, everything once captured is still
/// there, before whatever came later.
pub proof fn lemma_run_events_keeps_logs(m: NodeModel, events: Seq<NodeEvent>)
    ensures
        m.logs.is_prefix_of(run_events(m, events).logs),
    decreases events.len(),
{
    if events.len() == 0 {
        assert(m.logs =~= run_events(m, events).logs.take(m.logs.len() as int));
    } else {
        let next = step(m, events.first());
        lemma_step_keeps_logs(m, events.first());
        lemma_run_events_keeps_logs(next, events.drop_first());
        let last = run_events(m, events).logs;
        assert(next.logs.take(m.logs.len() as int) =~= last.take(next.logs.len() as int).take(
            m.logs.len() as int,
        ));
        assert(last.take(next.logs.len() as int).take(m.logs.len() as int) =~= last.take(
            m.logs.len() as int,
        ));
    }
}

/// Switching accounts: a worker runs for some account, a start for a new
/// configuration stops it and spawns afresh. Once the new spawn is
/// confirmed, the supervisor runs exactly for the new account and for no
/// other.
pub proof fn lemma_account_switch(m: NodeModel, config: ConfigModel, handle: WorkerHandle)
    requires
        wf(m),
        is_running_model(m),
    ensures
        ({
            let requested = step(
                m,
                NodeEvent::ControlReceived { message: ControlMessage::Shutdown },
            );
            let taken = step(requested, NodeEvent::HandleTaken);
            let stopped = step(taken, NodeEvent::StopFinished);
            let launched = step(
                stopped,
                NodeEvent::StartRequested { config, daemon_port_free: true, peer_port_free: true },
            );
            let running = step(launched, NodeEvent::SpawnSucceeded { handle });
            &&& is_running_for_model(running, config.account_name)
            &&& forall|other: Seq<char>|
                other != config.account_name ==> !is_running_for_model(running, other)
        }),
{
}

} // verus!
