//! The transmitter worker, as a state machine.
//!
//! A worker owns a message pool and its own counters. It does no I/O: it
//! answers each event with the one action its caller is to perform next,
//! and the caller reports the outcome of that action as the next event.

use crate::config::{ConfigError, Options};
use crate::pool::{conforms, lemma_shaped_conforms, shaped, MessagePool, POOL_SIZE};
use crate::stats::{Stats, Tally};
use vstd::prelude::*;
use vstd::utf8::encode_utf8;

verus! {

/// Counters are flushed once at least this many milliseconds have passed
/// since the last flush.
pub const FLUSH_INTERVAL_MS: u128 = 100;

/// The life of a worker.
#[derive(Clone, Copy, Debug, PartialEq, Eq, Structural)]
pub enum Phase {
    Init,
    Sending,
    Draining,
    Exited,
}

/// Where a worker stands: its phase and, while sending, the outcome it
/// waits for.
#[derive(Clone, Copy, Debug, PartialEq, Eq, Structural)]
pub enum Stage {
    /// Waiting for the socket.
    Init,
    /// Sending: waiting for the outcome of a send.
    Transmitting,
    /// Sending: waiting for the pacing sleep to end.
    Pausing,
    /// Sending: waiting for the flush to be done.
    Flushing,
    /// Sending: waiting for the state of the shutdown flag.
    Observing,
    /// Shutdown was observed; waiting for the socket to be closed.
    Draining,
    /// Done, or failed.
    Exited,
}

impl Stage {
    /// The phase of a worker's life that this stage belongs to.
    pub open spec fn phase(self) -> Phase {
        match self {
            Stage::Init => Phase::Init,
            Stage::Transmitting | Stage::Pausing | Stage::Flushing | Stage::Observing => {
                Phase::Sending
            },
            Stage::Draining => Phase::Draining,
            Stage::Exited => Phase::Exited,
        }
    }

    /// How many events a worker is away, at most, from the end of sending
    /// once the shutdown flag is set.
    pub open spec fn steps_to_drain(self) -> nat {
        match self {
            Stage::Init => 5,
            Stage::Transmitting => 4,
            Stage::Pausing => 3,
            Stage::Flushing => 2,
            Stage::Observing => 1,
            Stage::Draining | Stage::Exited => 0,
        }
    }
}

/// What ends a worker before shutdown.
#[derive(Clone, Copy, Debug, PartialEq, Eq, Structural)]
pub enum Fault {
    /// The sending socket could not be bound.
    BindFailed,
    /// A datagram could not be sent.
    SendFailed,
    /// A counter of the worker would have passed its limit.
    CounterOverflow,
}

/// What the caller reports to a worker.
#[derive(Clone, Copy, Debug, PartialEq, Eq, Structural)]
pub enum Event {
    /// The sending socket is bound.
    Bound,
    /// The sending socket could not be bound.
    BindFailed,
    /// The datagram was sent; `bytes` is the number of bytes reported sent.
    Sent { bytes: usize },
    /// The datagram could not be sent.
    SendFailed,
    /// The pacing sleep is over; `since_flush_ms` is the time since the
    /// last flush, or since sending began, in whole milliseconds.
    Woke { since_flush_ms: u128 },
    /// The counters handed out were added to the shared ones.
    Flushed,
    /// The shutdown flag was read.
    Observed { shutdown: bool },
    /// The socket is closed.
    Closed,
}

/// What a worker asks its caller to do next.
#[derive(Clone, Copy, Debug, PartialEq, Eq, Structural)]
pub enum Action {
    /// Send the message in `slot` of the pool to the target.
    Transmit { slot: usize },
    /// Sleep for `micros` microseconds.
    Pause { micros: u64 },
    /// Add `delta` to the shared counters and restart the flush clock.
    Flush { delta: Stats },
    /// Read the shutdown flag.
    Observe,
    /// Close the socket.
    Close,
    /// Nothing is left to do.
    Done,
    /// Give up: the worker has failed.
    Abort { fault: Fault },
    /// The event does not answer what the worker waits for: nothing changed.
    Rejected,
}

/// A worker as contracts see it.
pub struct WorkerView {
    pub stage: Stage,
    pub local: Stats,
    pub options: Options,
    pub pool: Seq<Seq<char>>,
}

impl WorkerView {
    /// This worker at another stage.
    pub open spec fn at(self, stage: Stage) -> WorkerView {
        WorkerView { stage, ..self }
    }

    /// The worker's answer to `event`: its next state and the action it
    /// asks for. `slot` is the slot that is sent from wherever the answer
    /// is to transmit.
    pub open spec fn step(self, event: Event, slot: usize) -> (WorkerView, Action) {
        match (self.stage, event) {
            (Stage::Init, Event::Bound) => (
                self.at(Stage::Transmitting),
                Action::Transmit { slot },
            ),
            (Stage::Init, Event::BindFailed) => (
                self.at(Stage::Exited),
                Action::Abort { fault: Fault::BindFailed },
            ),
            (Stage::Transmitting, Event::Sent { bytes }) => {
                let counted = self.local@.counted(bytes as nat);
                if counted.fits() {
                    (
                        WorkerView {
                            stage: Stage::Pausing,
                            local: Stats {
                                packets: counted.packets as u64,
                                bytes: counted.bytes as u64,
                            },
                            ..self
                        },
                        Action::Pause { micros: self.options.sleep_us },
                    )
                } else {
                    (self.at(Stage::Exited), Action::Abort { fault: Fault::CounterOverflow })
                }
            },
            (Stage::Transmitting, Event::SendFailed) => (
                self.at(Stage::Exited),
                Action::Abort { fault: Fault::SendFailed },
            ),
            (Stage::Pausing, Event::Woke { since_flush_ms }) => {
                if since_flush_ms >= FLUSH_INTERVAL_MS {
                    (
                        WorkerView {
                            stage: Stage::Flushing,
                            local: Stats { packets: 0, bytes: 0 },
                            ..self
                        },
                        Action::Flush { delta: self.local },
                    )
                } else {
                    (self.at(Stage::Observing), Action::Observe)
                }
            },
            (Stage::Flushing, Event::Flushed) => (self.at(Stage::Observing), Action::Observe),
            (Stage::Observing, Event::Observed { shutdown }) => {
                if shutdown {
                    (self.at(Stage::Draining), Action::Close)
                } else {
                    (self.at(Stage::Transmitting), Action::Transmit { slot })
                }
            },
            (Stage::Draining, Event::Closed) => (self.at(Stage::Exited), Action::Done),
            _ => (self, Action::Rejected),
        }
    }
}

/// One transmitter worker.
pub struct Worker {
    stage: Stage,
    local: Stats,
    options: Options,
    pool: MessagePool,
}

impl View for Worker {
    type V = WorkerView;

    closed spec fn view(&self) -> WorkerView {
        WorkerView { stage: self.stage, local: self.local, options: self.options, pool: self.pool@ }
    }
}

impl Worker {
    #[verifier::type_invariant]
    spec fn sound(&self) -> bool {
        self.options.valid() && self.pool.fits(self.options)
    }

    /// The pool is full, and every message of it is shaped under the
    /// options.
    pub open spec fn pool_fits(view: WorkerView) -> bool {
        &&& view.pool.len() == POOL_SIZE
        &&& forall|i: int|
            0 <= i < view.pool.len() ==> shaped(#[trigger] view.pool[i], view.options)
    }

    /// Makes a worker for `options`: builds its message pool and sets its
    /// counters to zero. The worker then waits for its socket. Fails
    /// exactly when the options allow no message.
    pub fn new(options: &Options) -> (made: Result<Worker, ConfigError>)
        ensures
            made is Ok <==> options.valid(),
            made matches Err(e) ==> options.verdict() == Err::<(), ConfigError>(e),
            made matches Ok(worker) ==> {
                &&& worker@.stage == Stage::Init
                &&& worker@.local@ == Tally::zero()
                &&& worker@.options == *options
                &&& Self::pool_fits(worker@)
            },
    {
        match MessagePool::generate(options) {
            Err(e) => Err(e),
            Ok(pool) => {
                let worker = Worker {
                    stage: Stage::Init,
                    local: Stats::new(),
                    options: *options,
                    pool,
                };
                Ok(worker)
            },
        }
    }

    /// Answers `event`, sending from `slot` where the answer is to
    /// transmit.
    pub fn advance_with(&mut self, event: Event, slot: usize) -> (action: Action)
        requires
            slot < POOL_SIZE,
        ensures
            (final(self)@, action) == old(self)@.step(event, slot),
            Self::pool_fits(final(self)@),
    {
        proof {
            use_type_invariant(&*self);
        }
        match (self.stage, event) {
            (Stage::Init, Event::Bound) => {
                self.stage = Stage::Transmitting;
                Action::Transmit { slot }
            },
            (Stage::Init, Event::BindFailed) => {
                self.stage = Stage::Exited;
                Action::Abort { fault: Fault::BindFailed }
            },
            (Stage::Transmitting, Event::Sent { bytes }) => {
                let mut local = self.local;
                if local.count(bytes as u64) {
                    self.local = local;
                    self.stage = Stage::Pausing;
                    Action::Pause { micros: self.options.sleep_us }
                } else {
                    self.stage = Stage::Exited;
                    Action::Abort { fault: Fault::CounterOverflow }
                }
            },
            (Stage::Transmitting, Event::SendFailed) => {
                self.stage = Stage::Exited;
                Action::Abort { fault: Fault::SendFailed }
            },
            (Stage::Pausing, Event::Woke { since_flush_ms }) => {
                if since_flush_ms >= FLUSH_INTERVAL_MS {
                    let mut local = self.local;
                    let delta = local.drain();
                    self.local = local;
                    self.stage = Stage::Flushing;
                    Action::Flush { delta }
                } else {
                    self.stage = Stage::Observing;
                    Action::Observe
                }
            },
            (Stage::Flushing, Event::Flushed) => {
                self.stage = Stage::Observing;
                Action::Observe
            },
            (Stage::Observing, Event::Observed { shutdown }) => {
                if shutdown {
                    self.stage = Stage::Draining;
                    Action::Close
                } else {
                    self.stage = Stage::Transmitting;
                    Action::Transmit { slot }
                }
            },
            (Stage::Draining, Event::Closed) => {
                self.stage = Stage::Exited;
                Action::Done
            },
            _ => Action::Rejected,
        }
    }

    /// Answers `event`. Where the answer is to transmit, the slot is drawn
    /// uniformly at random from the pool.
    pub fn advance(&mut self, event: Event) -> (action: Action)
        ensures
            exists|slot: usize|
                slot < POOL_SIZE && (final(self)@, action) == #[trigger] old(self)@.step(
                    event,
                    slot,
                ),
            Self::pool_fits(final(self)@),
    {
        let draws = match (self.stage, event) {
            (Stage::Init, Event::Bound) => true,
            (Stage::Observing, Event::Observed { shutdown }) => !shutdown,
            _ => false,
        };
        let slot = if draws {
            MessagePool::draw_slot()
        } else {
            0
        };
        self.advance_with(event, slot)
    }

    /// Where the worker stands.
    pub fn stage(&self) -> (stage: Stage)
        ensures
            stage == self@.stage,
    {
        self.stage
    }

    /// The phase of the worker's life that its stage belongs to.
    pub fn phase(&self) -> (phase: Phase)
        ensures
            phase == self@.stage.phase(),
    {
        match self.stage {
            Stage::Init => Phase::Init,
            Stage::Transmitting | Stage::Pausing | Stage::Flushing | Stage::Observing => {
                Phase::Sending
            },
            Stage::Draining => Phase::Draining,
            Stage::Exited => Phase::Exited,
        }
    }

    /// What the worker has counted since its last flush.
    pub fn local(&self) -> (local: Stats)
        ensures
            local == self@.local,
    {
        self.local
    }

    /// The options the worker was made for.
    pub fn options(&self) -> (options: Options)
        ensures
            options == self@.options,
            options.valid(),
    {
        proof {
            use_type_invariant(self);
        }
        self.options
    }

    /// The message in `slot` of the pool, if the pool has such a slot. It
    /// is shaped under the worker's options, and so conforms to them.
    pub fn message(&self, slot: usize) -> (found: Option<&String>)
        ensures
            found is Some <==> slot < POOL_SIZE,
            found matches Some(m) ==> m@ == self@.pool[slot as int],
            found matches Some(m) ==> shaped(m@, self@.options),
            found matches Some(m) ==> conforms(m@, self@.options),
    {
        proof {
            use_type_invariant(self);
        }
        let found = self.pool.message(slot);
        proof {
            if slot < POOL_SIZE {
                lemma_shaped_conforms(self.pool@[slot as int], self.options);
            }
        }
        found
    }

    /// The payload of the datagram that is sent from `slot`: the message in
    /// that slot as a UTF-8 byte string, with nothing added.
    pub fn datagram(&self, slot: usize) -> (found: Option<&[u8]>)
        ensures
            found is Some <==> slot < POOL_SIZE,
            found matches Some(bytes) ==> bytes@ == encode_utf8(self@.pool[slot as int]),
            found is Some ==> conforms(self@.pool[slot as int], self@.options),
    {
        match self.message(slot) {
            Some(message) => Some(message.as_str().as_bytes()),
            None => None,
        }
    }
}

} // verus!
