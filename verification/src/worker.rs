//! The worker behind one socket, as a state machine.
//!
//! A worker does no I/O itself. Its caller checks the stop channel and the
//! socket, tells the worker what happened as a `WorkerEvent`, and carries
//! out the `WorkerAction` that the worker answers with. The worker keeps a
//! copy of the reference state and asks for a fresh one only when its copy
//! is older than a tenth of a second, so that the shared state is not
//! locked for every packet.

use crate::addr::PeerAddr;
use crate::packet::{
    lemma_response_echo, ErrorKind, NtpPacket, MODE_CLIENT, MODE_SYMMETRIC_ACTIVE,
};
use crate::state::NtpServerState;
use crate::timestamp::{signed_delta, NtpTimestamp};
use vstd::prelude::*;

verus! {

/// The longest time, in units of 2^-32 s, for which the copy of the
/// reference state is used without asking for a new one: a tenth of a
/// second, rounded down.
pub const STALE_AFTER: i64 = 429_496_729;

/// How long a worker sleeps when no datagram is waiting, in milliseconds.
pub const POLL_INTERVAL_MS: u64 = 50;

/// Where a worker stands.
#[derive(Debug, Copy, Clone, PartialEq)]
pub enum WorkerPhase {
    /// Waiting for the next event.
    Polling,
    /// Holding a parsed packet until a fresh copy of the reference state
    /// arrives.
    Processing(NtpPacket),
    /// Told to stop. Nothing leads out of this phase.
    Stopped,
}

/// What the caller found when it looked at the stop channel and the socket,
/// or what it brings in answer to `WorkerAction::Refresh`.
#[derive(Debug, PartialEq)]
pub enum WorkerEvent {
    /// A stop token was waiting.
    StopRequested,
    /// A datagram was received: its bytes and its sender.
    Datagram(Vec<u8>, PeerAddr),
    /// Nothing was waiting on the socket.
    WouldBlock,
    /// Receiving failed for another reason.
    ReceiveFailed,
    /// The reference state as it is now.
    Snapshot(NtpServerState),
}

/// What the caller has to do next.
#[derive(Debug, Copy, Clone, PartialEq)]
pub enum WorkerAction {
    /// Leave the loop: the worker has stopped.
    Exit,
    /// Sleep for so many milliseconds, then look again.
    Sleep(u64),
    /// Read the reference state and hand it in as `WorkerEvent::Snapshot`.
    Refresh,
    /// Send this packet to its `remote_addr`.
    Send(NtpPacket),
    /// The datagram was no acceptable packet and has been dropped.
    Drop(ErrorKind),
    /// Nothing to do; look again.
    Continue,
}

/// One worker: its phase, its copy of the reference state, and the arrival
/// time of the packet for which the copy was last renewed.
#[derive(Debug, Copy, Clone, PartialEq)]
pub struct Worker {
    pub phase: WorkerPhase,
    pub last_update: NtpTimestamp,
    pub cached_state: NtpServerState,
}

impl Worker {
    /// A worker that has just copied `state` at the moment `now`.
    pub open spec fn started(state: NtpServerState, now: NtpTimestamp) -> Worker {
        Worker { phase: WorkerPhase::Polling, last_update: now, cached_state: state }
    }

    /// Whether, at the moment `at`, the copy of the reference state is more
    /// than a tenth of a second old. A moment before the last renewal
    /// counts like one after it.
    pub open spec fn is_stale(self, at: NtpTimestamp) -> bool {
        let age = signed_delta(at.ts, self.last_update.ts);
        age > STALE_AFTER || age < -STALE_AFTER
    }

    /// What is done about a parsed packet: a request is answered from the
    /// copy of the reference state, anything else is passed over.
    pub open spec fn answer(self, packet: NtpPacket, tx: NtpTimestamp) -> WorkerAction {
        match packet.spec_make_response(self.cached_state, tx) {
            Some(response) => WorkerAction::Send(response),
            None => WorkerAction::Continue,
        }
    }

    /// The worker after `event` and the action it asks for. `rx` is the
    /// moment a datagram arrived, `tx` the moment a response is built; each
    /// matters only where a datagram is parsed or a response is built.
    pub open spec fn transition(self, event: WorkerEvent, rx: NtpTimestamp, tx: NtpTimestamp) -> (
        Worker,
        WorkerAction,
    ) {
        match self.phase {
            WorkerPhase::Stopped => (self, WorkerAction::Exit),
            WorkerPhase::Polling => match event {
                WorkerEvent::StopRequested => (
                    Worker { phase: WorkerPhase::Stopped, ..self },
                    WorkerAction::Exit,
                ),
                WorkerEvent::WouldBlock => (self, WorkerAction::Sleep(POLL_INTERVAL_MS)),
                WorkerEvent::ReceiveFailed => (self, WorkerAction::Continue),
                WorkerEvent::Snapshot(_) => (self, WorkerAction::Continue),
                WorkerEvent::Datagram(bytes, sender) => match NtpPacket::spec_parse(
                    bytes@,
                    sender,
                    rx,
                ) {
                    Err(error) => (self, WorkerAction::Drop(error)),
                    Ok(packet) => if self.is_stale(rx) {
                        (
                            Worker { phase: WorkerPhase::Processing(packet), ..self },
                            WorkerAction::Refresh,
                        )
                    } else {
                        (self, self.answer(packet, tx))
                    },
                },
            },
            WorkerPhase::Processing(packet) => match event {
                WorkerEvent::StopRequested => (
                    Worker { phase: WorkerPhase::Stopped, ..self },
                    WorkerAction::Exit,
                ),
                WorkerEvent::Snapshot(state) => {
                    let renewed = Worker {
                        phase: WorkerPhase::Polling,
                        last_update: packet.local_ts,
                        cached_state: state,
                    };
                    (renewed, renewed.answer(packet, tx))
                },
                _ => (self, WorkerAction::Refresh),
            },
        }
    }

    /// One datagram seen through: the step that takes it in and, if the
    /// worker then asks for the reference state, the step that brings
    /// `snapshot`.
    pub open spec fn serve(
        self,
        bytes: Vec<u8>,
        sender: PeerAddr,
        snapshot: NtpServerState,
        rx: NtpTimestamp,
        tx: NtpTimestamp,
    ) -> (Worker, WorkerAction) {
        let taken = self.transition(WorkerEvent::Datagram(bytes, sender), rx, tx);
        if taken.1 == WorkerAction::Refresh {
            taken.0.transition(WorkerEvent::Snapshot(snapshot), rx, tx)
        } else {
            taken
        }
    }

    /// A worker that starts out with a copy of `state` taken at `now`.
    pub fn new_at(state: NtpServerState, now: NtpTimestamp) -> (worker: Worker)
        ensures
            worker == Worker::started(state, now),
    {
        Worker { phase: WorkerPhase::Polling, last_update: now, cached_state: state }
    }

    /// A worker that starts out with a copy of `state` taken just now.
    pub fn new(state: NtpServerState) -> (worker: Worker)
        ensures
            worker == Worker::started(state, worker.last_update),
    {
        Worker::new_at(state, NtpTimestamp::now())
    }

    /// Tells whether the worker has stopped.
    pub fn is_stopped(&self) -> (stopped: bool)
        ensures
            stopped == (self.phase == WorkerPhase::Stopped),
    {
        match self.phase {
            WorkerPhase::Stopped => true,
            _ => false,
        }
    }

    /// Tells whether the copy of the reference state is stale at `at`.
    pub fn check_stale(&self, at: &NtpTimestamp) -> (stale: bool)
        ensures
            stale == self.is_stale(*at),
    {
        let age = at.diff(&self.last_update);
        age > STALE_AFTER || age < -STALE_AFTER
    }

    /// Takes one step with the system clock: the arrival time of a
    /// datagram is read when it is handed in, the transmit time of a
    /// response when it is built.
    pub fn step(&mut self, event: WorkerEvent) -> (action: WorkerAction)
        ensures
            exists|rx: NtpTimestamp, tx: NtpTimestamp|
                (*final(self), action) == #[trigger] (*old(self)).transition(event, rx, tx),
    {
        self.advance(event, None, None)
    }

    /// Takes one step with the clock readings given: `rx` for the arrival
    /// of a datagram, `tx` for the building of a response.
    pub fn step_at(&mut self, event: WorkerEvent, rx: NtpTimestamp, tx: NtpTimestamp) -> (action:
        WorkerAction)
        ensures
            (*final(self), action) == (*old(self)).transition(event, rx, tx),
    {
        self.advance(event, Some(rx), Some(tx))
    }

    /// Answers a parsed packet from the copy of the reference state, at the
    /// moment given or, without one, at the moment the clock shows.
    fn respond(&self, packet: &NtpPacket, tx: Option<NtpTimestamp>) -> (r: (
        WorkerAction,
        Ghost<NtpTimestamp>,
    ))
        ensures
            r.0 == self.answer(*packet, r.1@),
            tx matches Some(moment) ==> r.1@ == moment,
    {
        let response = match tx {
            Some(moment) => packet.make_response_at(&self.cached_state, moment),
            None => packet.make_response(&self.cached_state),
        };
        match response {
            Some(packet) => (WorkerAction::Send(packet), Ghost(packet.tx_ts)),
            None => (
                WorkerAction::Continue,
                Ghost(
                    match tx {
                        Some(moment) => moment,
                        None => NtpTimestamp { ts: 0 },
                    },
                ),
            ),
        }
    }

    /// The step itself. A clock reading that is not given is taken from the
    /// system clock at the moment it is needed.
    fn advance(&mut self, event: WorkerEvent, rx: Option<NtpTimestamp>, tx: Option<NtpTimestamp>) -> (
        action: WorkerAction)
        ensures
            exists|r: NtpTimestamp, t: NtpTimestamp|
                {
                    &&& (rx matches Some(moment) ==> r == moment)
                    &&& (tx matches Some(moment) ==> t == moment)
                    &&& (*final(self), action) == #[trigger] (*old(self)).transition(event, r, t)
                },
    {
        let ghost before = *self;
        let ghost r0 = match rx {
            Some(moment) => moment,
            None => NtpTimestamp { ts: 0 },
        };
        let ghost t0 = match tx {
            Some(moment) => moment,
            None => NtpTimestamp { ts: 0 },
        };
        match self.phase {
            WorkerPhase::Stopped => {
                assert((*self, WorkerAction::Exit) == before.transition(event, r0, t0));
                WorkerAction::Exit
            },
            WorkerPhase::Polling => match event {
                WorkerEvent::StopRequested => {
                    self.phase = WorkerPhase::Stopped;
                    assert((*self, WorkerAction::Exit) == before.transition(event, r0, t0));
                    WorkerAction::Exit
                },
                WorkerEvent::WouldBlock => {
                    assert((*self, WorkerAction::Sleep(POLL_INTERVAL_MS)) == before.transition(
                        event,
                        r0,
                        t0,
                    ));
                    WorkerAction::Sleep(POLL_INTERVAL_MS)
                },
                WorkerEvent::ReceiveFailed => {
                    assert((*self, WorkerAction::Continue) == before.transition(event, r0, t0));
                    WorkerAction::Continue
                },
                WorkerEvent::Snapshot(_) => {
                    assert((*self, WorkerAction::Continue) == before.transition(event, r0, t0));
                    WorkerAction::Continue
                },
                WorkerEvent::Datagram(bytes, sender) => {
                    let parsed = match rx {
                        Some(moment) => NtpPacket::parse_at(bytes.as_slice(), sender, moment),
                        None => NtpPacket::parse(bytes.as_slice(), sender),
                    };
                    match parsed {
                        Err(error) => {
                            assert((*self, WorkerAction::Drop(error)) == before.transition(
                                event,
                                r0,
                                t0,
                            ));
                            WorkerAction::Drop(error)
                        },
                        Ok(packet) => {
                            let ghost r1 = packet.local_ts;
                            assert(NtpPacket::spec_parse(bytes@, sender, r1) == Ok::<
                                NtpPacket,
                                ErrorKind,
                            >(packet));
                            if self.check_stale(&packet.local_ts) {
                                self.phase = WorkerPhase::Processing(packet);
                                assert((*self, WorkerAction::Refresh) == before.transition(
                                    event,
                                    r1,
                                    t0,
                                ));
                                WorkerAction::Refresh
                            } else {
                                let (action, Ghost(t1)) = self.respond(&packet, tx);
                                assert((*self, action) == before.transition(event, r1, t1));
                                action
                            }
                        },
                    }
                },
            },
            WorkerPhase::Processing(packet) => match event {
                WorkerEvent::StopRequested => {
                    self.phase = WorkerPhase::Stopped;
                    assert((*self, WorkerAction::Exit) == before.transition(event, r0, t0));
                    WorkerAction::Exit
                },
                WorkerEvent::Snapshot(state) => {
                    self.cached_state = state;
                    self.last_update = packet.local_ts;
                    self.phase = WorkerPhase::Polling;
                    let (action, Ghost(t1)) = self.respond(&packet, tx);
                    assert((*self, action) == before.transition(event, r0, t1));
                    action
                },
                _ => {
                    assert((*self, WorkerAction::Refresh) == before.transition(event, r0, t0));
                    WorkerAction::Refresh
                },
            },
        }
    }
}

/// Nothing leads out of `Stopped`, and a stop request leads there from
/// every phase: either way the caller is told to leave its loop.
pub proof fn lemma_stop_is_final(worker: Worker, event: WorkerEvent, rx: NtpTimestamp, tx: NtpTimestamp)
    requires
        worker.phase == WorkerPhase::Stopped || event == WorkerEvent::StopRequested,
    ensures
        worker.transition(event, rx, tx).0.phase == WorkerPhase::Stopped,
        worker.transition(event, rx, tx).1 == WorkerAction::Exit,
        worker.transition(event, rx, tx).0.cached_state == worker.cached_state,
        worker.transition(event, rx, tx).0.last_update == worker.last_update,
{
}

/// The caller is told to leave its loop only when the worker has stopped.
pub proof fn lemma_exit_means_stopped(
    worker: Worker,
    event: WorkerEvent,
    rx: NtpTimestamp,
    tx: NtpTimestamp,
)
    requires
        worker.transition(event, rx, tx).1 == WorkerAction::Exit,
    ensures
        worker.transition(event, rx, tx).0.phase == WorkerPhase::Stopped,
{
}

/// A request of mode 1 or 3 that reaches a polling worker is answered,
/// whether or not the reference state has to be renewed on the way. The
/// answer passes the client's validity check for this request, carries the
/// two clock readings, and advertises the reference state that the worker
/// holds afterwards: the new one if the copy was stale, else the copy.
pub proof fn lemma_request_is_served(
    worker: Worker,
    bytes: Vec<u8>,
    sender: PeerAddr,
    snapshot: NtpServerState,
    rx: NtpTimestamp,
    tx: NtpTimestamp,
)
    requires
        worker.phase == WorkerPhase::Polling,
        NtpPacket::spec_parse(bytes@, sender, rx) is Ok,
        NtpPacket::decode(bytes@, sender, rx).mode == MODE_SYMMETRIC_ACTIVE || NtpPacket::decode(
            bytes@,
            sender,
            rx,
        ).mode == MODE_CLIENT,
    ensures
        worker.serve(bytes, sender, snapshot, rx, tx).0.phase == WorkerPhase::Polling,
        worker.serve(bytes, sender, snapshot, rx, tx).0.cached_state == if worker.is_stale(rx) {
            snapshot
        } else {
            worker.cached_state
        },
        worker.serve(bytes, sender, snapshot, rx, tx).1 matches WorkerAction::Send(response) && {
            &&& response.spec_is_valid_response(NtpPacket::decode(bytes@, sender, rx))
            &&& response.rx_ts == rx
            &&& response.tx_ts == tx
            &&& response.spec_server_state() == worker.serve(
                bytes,
                sender,
                snapshot,
                rx,
                tx,
            ).0.cached_state
        },
{
    let request = NtpPacket::decode(bytes@, sender, rx);
    lemma_response_echo(request, worker.cached_state, tx);
    lemma_response_echo(request, snapshot, tx);
}

/// Two requests that reach a polling worker one after the other are both
/// answered, each with an answer to itself that carries its own clock
/// readings: the first request leaves nothing behind that the answer to the
/// second depends on, apart from the copy of the reference state.
pub proof fn lemma_requests_are_served_apart(
    worker: Worker,
    first: (Vec<u8>, PeerAddr),
    second: (Vec<u8>, PeerAddr),
    snapshot: NtpServerState,
    rx: (NtpTimestamp, NtpTimestamp),
    tx: (NtpTimestamp, NtpTimestamp),
)
    requires
        worker.phase == WorkerPhase::Polling,
        NtpPacket::spec_parse(first.0@, first.1, rx.0) is Ok,
        NtpPacket::spec_parse(second.0@, second.1, rx.1) is Ok,
        NtpPacket::decode(first.0@, first.1, rx.0).mode == MODE_SYMMETRIC_ACTIVE
            || NtpPacket::decode(first.0@, first.1, rx.0).mode == MODE_CLIENT,
        NtpPacket::decode(second.0@, second.1, rx.1).mode == MODE_SYMMETRIC_ACTIVE
            || NtpPacket::decode(second.0@, second.1, rx.1).mode == MODE_CLIENT,
    ensures
        ({
            let after = worker.serve(first.0, first.1, snapshot, rx.0, tx.0);
            let last = after.0.serve(second.0, second.1, snapshot, rx.1, tx.1);
            &&& after.1 matches WorkerAction::Send(answer) && {
                &&& answer.spec_is_valid_response(NtpPacket::decode(first.0@, first.1, rx.0))
                &&& answer.tx_ts == tx.0
            }
            &&& last.1 matches WorkerAction::Send(answer) && {
                &&& answer.spec_is_valid_response(NtpPacket::decode(second.0@, second.1, rx.1))
                &&& answer.tx_ts == tx.1
            }
        }),
{
    lemma_request_is_served(worker, first.0, first.1, snapshot, rx.0, tx.0);
    let after = worker.serve(first.0, first.1, snapshot, rx.0, tx.0);
    lemma_request_is_served(after.0, second.0, second.1, snapshot, rx.1, tx.1);
}

} // verus!
