//! The server that owns the sockets, as a state machine.
//!
//! The server starts one worker per socket, then looks once a second for a
//! stop signal from outside. When the signal comes it tells every worker to
//! stop and waits for all of them. Threads, channels and sleeping are the
//! caller's business; the server says when each is due.

use crate::state::NtpServerState;
use vstd::prelude::*;

verus! {

/// How long the server sleeps between two looks at the stop signal, in
/// milliseconds.
pub const SUPERVISE_INTERVAL_MS: u64 = 1000;

/// Where a server stands.
#[derive(Debug, Copy, Clone, PartialEq, Eq, Structural)]
pub enum ServerPhase {
    /// Set up, workers not yet started.
    Created,
    /// Workers are running; waiting for the stop signal.
    Supervising,
    /// Workers have been told to stop and are being joined.
    Stopping,
    /// Every worker has ended.
    Finished,
}

/// What the caller reports to the server.
#[derive(Debug, Copy, Clone, PartialEq, Eq, Structural)]
pub enum ServerEvent {
    /// The server is asked to run.
    Run,
    /// The stop signal was looked for; `true` if it was there.
    StopChecked(bool),
    /// Every worker thread has been joined.
    WorkersJoined,
}

/// What the caller has to do next.
#[derive(Debug, Copy, Clone, PartialEq, Eq, Structural)]
pub enum ServerAction {
    /// Start so many workers, one per socket, numbered from one, each with
    /// a stop channel of its own; then look for the stop signal.
    SpawnWorkers(usize),
    /// Sleep for so many milliseconds, then look for the stop signal again.
    Sleep(u64),
    /// Send a stop token to each of so many workers, then join them all.
    StopWorkers(usize),
    /// Return: no worker is left.
    Return,
    /// The event does not fit the phase; nothing is to be done about it.
    Ignore,
}

/// The server's own state: how many sockets it serves, the reference state
/// it was set up with, whether it reports what it does, and its phase.
#[derive(Debug, Copy, Clone, PartialEq)]
pub struct NtpServer {
    pub state: NtpServerState,
    pub sockets: usize,
    pub debug: bool,
    pub phase: ServerPhase,
}

impl NtpServer {
    /// The server after `event` and the action it asks for.
    pub open spec fn transition(self, event: ServerEvent) -> (NtpServer, ServerAction) {
        match (self.phase, event) {
            (ServerPhase::Created, ServerEvent::Run) => (
                NtpServer { phase: ServerPhase::Supervising, ..self },
                ServerAction::SpawnWorkers(self.sockets),
            ),
            (ServerPhase::Supervising, ServerEvent::StopChecked(false)) => (
                self,
                ServerAction::Sleep(SUPERVISE_INTERVAL_MS),
            ),
            (ServerPhase::Supervising, ServerEvent::StopChecked(true)) => (
                NtpServer { phase: ServerPhase::Stopping, ..self },
                ServerAction::StopWorkers(self.sockets),
            ),
            (ServerPhase::Stopping, ServerEvent::WorkersJoined) => (
                NtpServer { phase: ServerPhase::Finished, ..self },
                ServerAction::Return,
            ),
            _ => (self, ServerAction::Ignore),
        }
    }

    /// The phase after a whole sequence of events.
    pub open spec fn phase_after(self, events: Seq<ServerEvent>) -> ServerPhase
        decreases events.len(),
    {
        if events.len() == 0 {
            self.phase
        } else {
            self.transition(events[0]).0.phase_after(events.skip(1))
        }
    }

    /// Whether the events hold a stop signal that was found.
    pub open spec fn stop_seen(events: Seq<ServerEvent>) -> bool {
        exists|i: int| 0 <= i < events.len() && events[i] == ServerEvent::StopChecked(true)
    }

    /// Sets up a server for `sockets` sockets with the reference state of a
    /// stratum-1 clock.
    pub fn new(sockets: usize, debug: bool) -> (server: NtpServer)
        ensures
            server == (NtpServer {
                state: NtpServerState::initial(),
                sockets,
                debug,
                phase: ServerPhase::Created,
            }),
    {
        NtpServer { state: NtpServerState::new(), sockets, debug, phase: ServerPhase::Created }
    }

    /// Takes one step.
    pub fn step(&mut self, event: ServerEvent) -> (action: ServerAction)
        ensures
            (*final(self), action) == (*old(self)).transition(event),
    {
        match self.phase {
            ServerPhase::Created => match event {
                ServerEvent::Run => {
                    self.phase = ServerPhase::Supervising;
                    ServerAction::SpawnWorkers(self.sockets)
                },
                _ => ServerAction::Ignore,
            },
            ServerPhase::Supervising => match event {
                ServerEvent::StopChecked(found) => {
                    if found {
                        self.phase = ServerPhase::Stopping;
                        ServerAction::StopWorkers(self.sockets)
                    } else {
                        ServerAction::Sleep(SUPERVISE_INTERVAL_MS)
                    }
                },
                _ => ServerAction::Ignore,
            },
            ServerPhase::Stopping => match event {
                ServerEvent::WorkersJoined => {
                    self.phase = ServerPhase::Finished;
                    ServerAction::Return
                },
                _ => ServerAction::Ignore,
            },
            ServerPhase::Finished => ServerAction::Ignore,
        }
    }

    /// Tells whether every worker has ended.
    pub fn is_finished(&self) -> (finished: bool)
        ensures
            finished == (self.phase == ServerPhase::Finished),
    {
        self.phase == ServerPhase::Finished
    }
}

/// Nothing leads out of `Finished`.
pub proof fn lemma_finished_is_final(server: NtpServer, events: Seq<ServerEvent>)
    requires
        server.phase == ServerPhase::Finished,
    ensures
        server.phase_after(events) == ServerPhase::Finished,
    decreases events.len(),
{
    if events.len() > 0 {
        lemma_finished_is_final(server.transition(events[0]).0, events.skip(1));
    }
}

/// No step changes anything but the phase: the number of sockets, the
/// reference state and the debug flag stay as they were set up.
pub proof fn lemma_step_keeps_setup(server: NtpServer, event: ServerEvent)
    ensures
        server.transition(event).0.sockets == server.sockets,
        server.transition(event).0.state == server.state,
        server.transition(event).0.debug == server.debug,
{
}

/// A server that has not yet told its workers to stop gets to `Stopping`
/// or `Finished` only if the stop signal was found on the way.
pub proof fn lemma_stops_only_on_signal(server: NtpServer, events: Seq<ServerEvent>)
    requires
        server.phase == ServerPhase::Created || server.phase == ServerPhase::Supervising,
        server.phase_after(events) == ServerPhase::Stopping || server.phase_after(events)
            == ServerPhase::Finished,
    ensures
        NtpServer::stop_seen(events),
    decreases events.len(),
{
    if events.len() > 0 {
        let next = server.transition(events[0]).0;
        if events[0] == ServerEvent::StopChecked(true) {
            assert(0 <= 0 < events.len() && events[0] == ServerEvent::StopChecked(true));
        } else {
            lemma_stops_only_on_signal(next, events.skip(1));
            let i = choose|i: int|
                0 <= i < events.skip(1).len() && events.skip(1)[i] == ServerEvent::StopChecked(true);
            assert(events[i + 1] == ServerEvent::StopChecked(true));
        }
    }
}

/// The server tells its caller to return only from `Stopping`, when every
/// worker has been joined, and is `Finished` from then on.
pub proof fn lemma_returns_after_join(server: NtpServer, event: ServerEvent)
    requires
        server.transition(event).1 == ServerAction::Return,
    ensures
        server.phase == ServerPhase::Stopping,
        event == ServerEvent::WorkersJoined,
        server.transition(event).0.phase == ServerPhase::Finished,
{
}

} // verus!
