//! Throughput counters: how a worker counts, how counts reach the shared
//! aggregator, and how the reporter takes them out.

use vstd::prelude::*;

verus! {

/// A pair of counts without a machine limit: what a `Stats` stands for.
pub struct Tally {
    pub packets: nat,
    pub bytes: nat,
}

impl Tally {
    /// Nothing counted.
    pub open spec fn zero() -> Tally {
        Tally { packets: 0, bytes: 0 }
    }

    /// The counts after one more packet of `bytes` bytes.
    pub open spec fn counted(self, bytes: nat) -> Tally {
        Tally { packets: self.packets + 1, bytes: self.bytes + bytes }
    }

    /// The counts of `self` and `other` together.
    pub open spec fn plus(self, other: Tally) -> Tally {
        Tally { packets: self.packets + other.packets, bytes: self.bytes + other.bytes }
    }

    /// Both counts fit in 64 bits.
    pub open spec fn fits(self) -> bool {
        self.packets <= u64::MAX && self.bytes <= u64::MAX
    }
}

/// A pair of counters: packets and bytes. A worker keeps one of its own,
/// and one is shared: it holds what workers have flushed and the reporter
/// has not yet drained.
#[derive(Clone, Copy, Debug, PartialEq, Eq, Structural)]
pub struct Stats {
    pub packets: u64,
    pub bytes: u64,
}

impl View for Stats {
    type V = Tally;

    open spec fn view(&self) -> Tally {
        Tally { packets: self.packets as nat, bytes: self.bytes as nat }
    }
}

impl Stats {
    /// Counters at zero.
    pub fn new() -> (stats: Stats)
        ensures
            stats@ == Tally::zero(),
    {
        Stats { packets: 0, bytes: 0 }
    }

    /// Counts one packet of `bytes` bytes. Where a counter would pass its
    /// limit, nothing is counted and the answer is `false`.
    #[must_use]
    pub fn count(&mut self, bytes: u64) -> (done: bool)
        ensures
            done == old(self)@.counted(bytes as nat).fits(),
            done ==> final(self)@ == old(self)@.counted(bytes as nat),
            !done ==> *final(self) == *old(self),
    {
        if self.packets < u64::MAX && bytes <= u64::MAX - self.bytes {
            self.packets = self.packets + 1;
            self.bytes = self.bytes + bytes;
            true
        } else {
            false
        }
    }

    /// Adds `delta` to these counters, as one step. Where a counter would
    /// pass its limit, nothing is added and the answer is `false`.
    #[must_use]
    pub fn flush(&mut self, delta: Stats) -> (done: bool)
        ensures
            done == old(self)@.plus(delta@).fits(),
            done ==> final(self)@ == old(self)@.plus(delta@),
            !done ==> *final(self) == *old(self),
    {
        if delta.packets <= u64::MAX - self.packets && delta.bytes <= u64::MAX - self.bytes {
            self.packets = self.packets + delta.packets;
            self.bytes = self.bytes + delta.bytes;
            true
        } else {
            false
        }
    }

    /// The bytes counted, in bits.
    pub fn bits(&self) -> (bits: u128)
        ensures
            bits == self.bytes * 8,
    {
        self.bytes as u128 * 8
    }

    /// Reads both counters and resets them to zero, as one step.
    pub fn drain(&mut self) -> (taken: Stats)
        ensures
            taken == *old(self),
            final(self)@ == Tally::zero(),
    {
        let taken = *self;
        self.packets = 0;
        self.bytes = 0;
        taken
    }
}

/// One step of a run, as far as the counters go.
pub enum Move {
    /// Worker `worker` has sent a packet of `bytes` bytes and counts it.
    Count { worker: int, bytes: nat },
    /// Worker `worker` flushes its counters into the shared ones.
    Flush { worker: int },
    /// The reporter drains the shared counters and reports them.
    Drain,
}

/// The counters of a whole run: every worker's own, the shared ones, and on
/// the side what was sent, flushed and reported in total.
pub struct Ledger {
    pub local: Seq<Tally>,
    pub shared: Tally,
    pub sent: Tally,
    pub flushed: Tally,
    pub reported: Tally,
}

/// The sum of a sequence of counts.
pub open spec fn total(counts: Seq<Tally>) -> Tally
    decreases counts.len(),
{
    if counts.len() == 0 {
        Tally::zero()
    } else {
        total(counts.drop_last()).plus(counts.last())
    }
}

impl Ledger {
    /// The ledger of a run of `workers` workers before anything was sent.
    pub open spec fn start(workers: nat) -> Ledger {
        Ledger {
            local: Seq::new(workers, |i: int| Tally::zero()),
            shared: Tally::zero(),
            sent: Tally::zero(),
            flushed: Tally::zero(),
            reported: Tally::zero(),
        }
    }

    /// The ledger after one move. A move of a worker that the run does not
    /// have changes nothing.
    pub open spec fn after(self, m: Move) -> Ledger {
        match m {
            Move::Count { worker, bytes } => if 0 <= worker < self.local.len() {
                Ledger {
                    local: self.local.update(worker, self.local[worker].counted(bytes)),
                    sent: self.sent.counted(bytes),
                    ..self
                }
            } else {
                self
            },
            Move::Flush { worker } => if 0 <= worker < self.local.len() {
                Ledger {
                    local: self.local.update(worker, Tally::zero()),
                    shared: self.shared.plus(self.local[worker]),
                    flushed: self.flushed.plus(self.local[worker]),
                    ..self
                }
            } else {
                self
            },
            Move::Drain => Ledger {
                shared: Tally::zero(),
                reported: self.reported.plus(self.shared),
                ..self
            },
        }
    }

    /// The ledger after a sequence of moves, in order.
    pub open spec fn play(self, moves: Seq<Move>) -> Ledger
        decreases moves.len(),
    {
        if moves.len() == 0 {
            self
        } else {
            self.play(moves.drop_last()).after(moves.last())
        }
    }

    /// What the workers have counted and not yet flushed.
    pub open spec fn backlog(self) -> Tally {
        total(self.local)
    }

    /// Nothing is lost or made up: what was sent is what was flushed and
    /// what the workers still hold, and what was flushed is what was
    /// reported and what the shared counters still hold.
    pub open spec fn balanced(self) -> bool {
        &&& self.sent == self.flushed.plus(self.backlog())
        &&& self.flushed == self.reported.plus(self.shared)
    }
}

/// The shared counts after `deltas` were flushed into `held`, in order.
pub open spec fn flushed_into(held: Tally, deltas: Seq<Tally>) -> Tally
    decreases deltas.len(),
{
    if deltas.len() == 0 {
        held
    } else {
        flushed_into(held, deltas.drop_last()).plus(deltas.last())
    }
}

/// Between a drain and the next, the shared counters gather the sum of the
/// flushes: a drain leaves them at zero, and what the next drain returns
/// is the sum of all that was flushed in between.
pub proof fn lemma_drain_returns_sum_of_flushes(deltas: Seq<Tally>)
    ensures
        flushed_into(Tally::zero(), deltas) == total(deltas),
    decreases deltas.len(),
{
    if deltas.len() > 0 {
        lemma_drain_returns_sum_of_flushes(deltas.drop_last());
    }
}

/// Replacing one element of a sequence of counts changes the sum by the
/// difference.
pub proof fn lemma_total_update(counts: Seq<Tally>, i: int, value: Tally)
    requires
        0 <= i < counts.len(),
    ensures
        total(counts.update(i, value)).plus(counts[i]) == total(counts).plus(value),
    decreases counts.len(),
{
    let updated = counts.update(i, value);
    if i == counts.len() - 1 {
        assert(updated.drop_last() =~= counts.drop_last());
    } else {
        assert(updated.drop_last() =~= counts.drop_last().update(i, value));
        assert(updated.last() == counts.last());
        lemma_total_update(counts.drop_last(), i, value);
    }
}

/// The sum of counts that are all zero is zero.
pub proof fn lemma_total_of_zeros(counts: Seq<Tally>)
    requires
        forall|i: int| 0 <= i < counts.len() ==> #[trigger] counts[i] == Tally::zero(),
    ensures
        total(counts) == Tally::zero(),
    decreases counts.len(),
{
    if counts.len() > 0 {
        lemma_total_of_zeros(counts.drop_last());
    }
}

/// A move keeps a balanced ledger balanced.
pub proof fn lemma_move_keeps_balance(ledger: Ledger, m: Move)
    requires
        ledger.balanced(),
    ensures
        ledger.after(m).balanced(),
        ledger.after(m).local.len() == ledger.local.len(),
{
    match m {
        Move::Count { worker, bytes } => {
            if 0 <= worker < ledger.local.len() {
                lemma_total_update(ledger.local, worker, ledger.local[worker].counted(bytes));
            }
        },
        Move::Flush { worker } => {
            if 0 <= worker < ledger.local.len() {
                lemma_total_update(ledger.local, worker, Tally::zero());
            }
        },
        Move::Drain => {},
    }
}

/// Counter conservation. Whatever the workers and the reporter do, in
/// whatever order: what was reported and what the shared counters hold is
/// what the workers have flushed; what was sent is that and what the
/// workers still hold. So the reported counts never exceed the sent ones,
/// and fall short of them by no more than the shared counters and one
/// unflushed batch for each worker.
pub proof fn lemma_counters_are_conserved(workers: nat, moves: Seq<Move>)
    ensures
        Ledger::start(workers).play(moves).balanced(),
        Ledger::start(workers).play(moves).local.len() == workers,
        ({
            let end = Ledger::start(workers).play(moves);
            &&& end.reported.packets <= end.sent.packets
            &&& end.reported.bytes <= end.sent.bytes
            &&& end.sent.packets == end.reported.packets + end.shared.packets
                + end.backlog().packets
            &&& end.sent.bytes == end.reported.bytes + end.shared.bytes + end.backlog().bytes
        }),
    decreases moves.len(),
{
    let begin = Ledger::start(workers);
    if moves.len() == 0 {
        lemma_total_of_zeros(begin.local);
    } else {
        lemma_counters_are_conserved(workers, moves.drop_last());
        lemma_move_keeps_balance(begin.play(moves.drop_last()), moves.last());
    }
}

/// A drain reports all that was flushed before it: right after a drain,
/// the reported counts are the flushed counts, and the shared counters are
/// at zero.
pub proof fn lemma_drain_reports_all_flushed(workers: nat, moves: Seq<Move>)
    requires
        moves.len() > 0,
        moves.last() is Drain,
    ensures
        Ledger::start(workers).play(moves).reported == Ledger::start(workers).play(moves).flushed,
        Ledger::start(workers).play(moves).shared == Tally::zero(),
{
    lemma_counters_are_conserved(workers, moves.drop_last());
}

} // verus!
