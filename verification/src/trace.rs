//! Runs of a worker: what holds of every sequence of events.

use crate::stats::Tally;
use crate::worker::{Action, Event, Stage, WorkerView};
use vstd::prelude::*;

verus! {

/// One exchange with a worker: the event reported to it, and the slot it
/// sends from if its answer is to transmit.
pub struct Input {
    pub event: Event,
    pub slot: usize,
}

impl WorkerView {
    /// The worker after `inputs`, in order.
    pub open spec fn run(self, inputs: Seq<Input>) -> WorkerView
        decreases inputs.len(),
    {
        if inputs.len() == 0 {
            self
        } else {
            self.run(inputs.drop_last()).step(inputs.last().event, inputs.last().slot).0
        }
    }

    /// The worker's answers to `inputs`, one for each.
    pub open spec fn answers(self, inputs: Seq<Input>) -> Seq<Action>
        decreases inputs.len(),
    {
        if inputs.len() == 0 {
            Seq::<Action>::empty()
        } else {
            self.answers(inputs.drop_last()).push(
                self.run(inputs.drop_last()).step(inputs.last().event, inputs.last().slot).1,
            )
        }
    }

    /// What the worker counts in answer to `event`: one packet, where it
    /// accepts the report of a send.
    pub open spec fn counts_on(self, event: Event, slot: usize) -> Tally {
        match (self.step(event, slot).1, event) {
            (Action::Pause { .. }, Event::Sent { bytes }) => Tally::zero().counted(bytes as nat),
            _ => Tally::zero(),
        }
    }

    /// What the worker hands out to be flushed in answer to `event`.
    pub open spec fn flushes_on(self, event: Event, slot: usize) -> Tally {
        match self.step(event, slot).1 {
            Action::Flush { delta } => delta@,
            _ => Tally::zero(),
        }
    }

    /// All that the worker counts in the course of `inputs`.
    pub open spec fn counted_in(self, inputs: Seq<Input>) -> Tally
        decreases inputs.len(),
    {
        if inputs.len() == 0 {
            Tally::zero()
        } else {
            self.counted_in(inputs.drop_last()).plus(
                self.run(inputs.drop_last()).counts_on(inputs.last().event, inputs.last().slot),
            )
        }
    }

    /// All that the worker hands out to be flushed in the course of
    /// `inputs`.
    pub open spec fn flushed_in(self, inputs: Seq<Input>) -> Tally
        decreases inputs.len(),
    {
        if inputs.len() == 0 {
            Tally::zero()
        } else {
            self.flushed_in(inputs.drop_last()).plus(
                self.run(inputs.drop_last()).flushes_on(inputs.last().event, inputs.last().slot),
            )
        }
    }
}

/// A worker's counters change in two ways only: by one packet when it
/// accepts the report of a send, and to zero when it hands them out to be
/// flushed, all of them.
pub proof fn lemma_counters_move_by_count_or_flush(worker: WorkerView, event: Event, slot: usize)
    ensures
        worker.step(event, slot).0.local@.plus(worker.flushes_on(event, slot))
            == worker.local@.plus(worker.counts_on(event, slot)),
        worker.step(event, slot).1 matches Action::Flush { delta } ==> delta == worker.local
            && worker.step(event, slot).0.local@ == Tally::zero(),
{
}

/// Counter conservation in one worker. In any run, what the worker held
/// and what it has counted is what it has handed out to be flushed and
/// what it holds now.
pub proof fn lemma_worker_conserves_counts(worker: WorkerView, inputs: Seq<Input>)
    ensures
        worker.local@.plus(worker.counted_in(inputs)) == worker.flushed_in(inputs).plus(
            worker.run(inputs).local@,
        ),
    decreases inputs.len(),
{
    if inputs.len() > 0 {
        let front = inputs.drop_last();
        lemma_worker_conserves_counts(worker, front);
        lemma_counters_move_by_count_or_flush(
            worker.run(front),
            inputs.last().event,
            inputs.last().slot,
        );
    }
}

/// A pause of `micros` microseconds is asked for strictly between the
/// answers `i` and `j`.
pub open spec fn paused_between(answers: Seq<Action>, micros: u64, i: int, j: int) -> bool {
    exists|k: int|
        i < k < j && k < answers.len() && #[trigger] answers[k] == (Action::Pause { micros })
}

/// The shutdown flag is asked for strictly between the answers `i` and `j`.
pub open spec fn observed_between(answers: Seq<Action>, i: int, j: int) -> bool {
    exists|k: int| i < k < j && k < answers.len() && #[trigger] answers[k] == Action::Observe
}

/// From input `from` on, every reading of the shutdown flag finds it set.
pub open spec fn shutdown_from(inputs: Seq<Input>, from: int) -> bool {
    forall|j: int|
        from <= j < inputs.len() ==> (#[trigger] inputs[j].event matches Event::Observed {
            shutdown,
        } ==> shutdown)
}

/// There is one answer for each input, and the answers to a prefix of the
/// inputs are a prefix of the answers.
pub proof fn lemma_answers_extend(worker: WorkerView, inputs: Seq<Input>, n: int)
    requires
        0 <= n <= inputs.len(),
    ensures
        worker.answers(inputs).len() == inputs.len(),
        worker.answers(inputs.take(n)) == worker.answers(inputs).take(n),
    decreases inputs.len(),
{
    if inputs.len() == 0 {
        assert(inputs.take(n) =~= inputs);
        assert(worker.answers(inputs).take(n) =~= worker.answers(inputs));
    } else {
        let front = inputs.drop_last();
        lemma_answers_extend(worker, front, front.len() as int);
        if n == inputs.len() {
            assert(inputs.take(n) =~= inputs);
            assert(worker.answers(inputs).take(n) =~= worker.answers(inputs));
        } else {
            lemma_answers_extend(worker, front, n);
            assert(inputs.take(n) =~= front.take(n));
            assert(worker.answers(inputs).take(n) =~= worker.answers(front).take(n));
        }
    }
}

/// The answer to input `i` is the step of the worker as it stands after
/// the inputs before `i`.
pub proof fn lemma_answer_is_step(worker: WorkerView, inputs: Seq<Input>, i: int)
    requires
        0 <= i < inputs.len(),
    ensures
        worker.answers(inputs).len() == inputs.len(),
        worker.answers(inputs)[i] == worker.run(inputs.take(i)).step(
            inputs[i].event,
            inputs[i].slot,
        ).1,
        worker.run(inputs.take(i + 1)) == worker.run(inputs.take(i)).step(
            inputs[i].event,
            inputs[i].slot,
        ).0,
{
    let upto = inputs.take(i + 1);
    lemma_answers_extend(worker, inputs, i + 1);
    lemma_answers_extend(worker, upto, i + 1);
    assert(upto.drop_last() =~= inputs.take(i));
    assert(upto.last() == inputs[i]);
    assert(worker.answers(upto)[i] == worker.answers(inputs).take(i + 1)[i]);
}

/// Configuration immutability: no sequence of events changes the options
/// or the pool of a worker.
pub proof fn lemma_configuration_is_fixed(worker: WorkerView, inputs: Seq<Input>)
    ensures
        worker.run(inputs).options == worker.options,
        worker.run(inputs).pool == worker.pool,
    decreases inputs.len(),
{
    if inputs.len() > 0 {
        lemma_configuration_is_fixed(worker, inputs.drop_last());
    }
}

/// A worker that has left `Init` does not come back to it, and one that
/// has reached `Draining` or `Exited` stays in one of the two.
pub proof fn lemma_stages_move_forward(worker: WorkerView, inputs: Seq<Input>)
    ensures
        worker.stage != Stage::Init ==> worker.run(inputs).stage != Stage::Init,
        worker.stage == Stage::Draining || worker.stage == Stage::Exited ==> worker.run(
            inputs,
        ).stage == Stage::Draining || worker.run(inputs).stage == Stage::Exited,
        worker.stage == Stage::Exited ==> worker.run(inputs).stage == Stage::Exited,
    decreases inputs.len(),
{
    if inputs.len() > 0 {
        lemma_stages_move_forward(worker, inputs.drop_last());
    }
}

/// What a run keeps true, from which the pacing of sends follows.
spec fn paced(worker: WorkerView, inputs: Seq<Input>) -> bool {
    let answers = worker.answers(inputs);
    let stage = worker.run(inputs).stage;
    let micros = worker.options.sleep_us;
    let n = inputs.len() as int;
    &&& answers.len() == n
    &&& forall|i: int, j: int|
        0 <= i < j < n && #[trigger] answers[i] is Transmit && #[trigger] answers[j] is Transmit
            ==> paused_between(answers, micros, i, j) && observed_between(answers, i, j)
    &&& stage == Stage::Init ==> forall|i: int| 0 <= i < n ==> !(#[trigger] answers[i] is Transmit)
    &&& stage == Stage::Pausing || stage == Stage::Flushing ==> forall|i: int|
        0 <= i < n && #[trigger] answers[i] is Transmit ==> paused_between(answers, micros, i, n)
    &&& stage == Stage::Observing ==> forall|i: int|
        0 <= i < n && #[trigger] answers[i] is Transmit ==> paused_between(answers, micros, i, n)
            && observed_between(answers, i, n)
}

proof fn lemma_paced(worker: WorkerView, inputs: Seq<Input>)
    ensures
        paced(worker, inputs),
    decreases inputs.len(),
{
    if inputs.len() > 0 {
        let front = inputs.drop_last();
        let last = inputs.last();
        lemma_paced(worker, front);
        lemma_configuration_is_fixed(worker, front);
        let before = worker.answers(front);
        let now = worker.answers(inputs);
        let state = worker.run(front);
        let answer = state.step(last.event, last.slot).1;
        let stage = worker.run(inputs).stage;
        let micros = worker.options.sleep_us;
        let n = inputs.len() as int;
        assert(now == before.push(answer));
        assert(forall|i: int| 0 <= i < n - 1 ==> now[i] == before[i]);
        assert(now[n - 1] == answer);
        assert forall|i: int, j: int|
            0 <= i < j < n && paused_between(before, micros, i, j) implies paused_between(
            now,
            micros,
            i,
            j,
        ) by {
            let k = choose|k: int|
                i < k < j && k < before.len() && #[trigger] before[k] == (Action::Pause { micros });
            assert(now[k] == (Action::Pause { micros }));
        }
        assert forall|i: int, j: int|
            0 <= i < j < n && observed_between(before, i, j) implies observed_between(
            now,
            i,
            j,
        ) by {
            let k = choose|k: int|
                i < k < j && k < before.len() && #[trigger] before[k] == Action::Observe;
            assert(now[k] == Action::Observe);
        }
        assert forall|i: int|
            0 <= i < n - 1 && paused_between(before, micros, i, n - 1) implies paused_between(
            now,
            micros,
            i,
            n,
        ) by {
            let k = choose|k: int|
                i < k < n - 1 && k < before.len() && #[trigger] before[k] == (Action::Pause {
                    micros,
                });
            assert(now[k] == (Action::Pause { micros }));
        }
        assert forall|i: int|
            0 <= i < n - 1 && observed_between(before, i, n - 1) implies observed_between(
            now,
            i,
            n,
        ) by {
            let k = choose|k: int|
                i < k < n - 1 && k < before.len() && #[trigger] before[k] == Action::Observe;
            assert(now[k] == Action::Observe);
        }
        if answer == (Action::Pause { micros }) {
            assert forall|i: int| 0 <= i < n - 1 implies paused_between(now, micros, i, n) by {
                assert(now[n - 1] == (Action::Pause { micros }));
            }
        }
        if answer == Action::Observe {
            assert forall|i: int| 0 <= i < n - 1 implies observed_between(now, i, n) by {
                assert(now[n - 1] == Action::Observe);
            }
        }
        assert forall|i: int, j: int|
            0 <= i < j < n && #[trigger] now[i] is Transmit && #[trigger] now[j] is Transmit
            implies paused_between(now, micros, i, j) && observed_between(now, i, j) by {
            if j < n - 1 {
                assert(before[i] is Transmit && before[j] is Transmit);
            } else {
                assert(before[i] is Transmit);
                assert(state.stage == Stage::Observing);
            }
        }
        if stage == Stage::Init {
            assert forall|i: int| 0 <= i < n implies !(#[trigger] now[i] is Transmit) by {
                if i < n - 1 {
                    assert(!(before[i] is Transmit));
                }
            }
        }
        if stage == Stage::Pausing || stage == Stage::Flushing {
            assert forall|i: int| 0 <= i < n && #[trigger] now[i] is Transmit implies
                paused_between(now, micros, i, n) by {
                assert(before[i] is Transmit);
            }
        }
        if stage == Stage::Observing {
            assert forall|i: int| 0 <= i < n && #[trigger] now[i] is Transmit implies
                paused_between(now, micros, i, n) && observed_between(now, i, n) by {
                assert(before[i] is Transmit);
            }
        }
    }
}

/// Pacing, and polling of the shutdown flag. In any run of a worker,
/// between two answers that transmit the worker has asked for a pause of
/// `sleep_us` microseconds, and has asked for the shutdown flag.
pub proof fn lemma_sends_are_paced(worker: WorkerView, inputs: Seq<Input>, i: int, j: int)
    requires
        0 <= i < j < inputs.len(),
        worker.answers(inputs)[i] is Transmit,
        worker.answers(inputs)[j] is Transmit,
    ensures
        paused_between(worker.answers(inputs), worker.options.sleep_us, i, j),
        observed_between(worker.answers(inputs), i, j),
{
    lemma_paced(worker, inputs);
}

/// Shutdown. Once every reading of the shutdown flag finds it set, a
/// worker that has its socket answers no event by transmitting: the send
/// under way is its last.
pub proof fn lemma_no_send_after_shutdown(worker: WorkerView, inputs: Seq<Input>, from: int, j: int)
    requires
        0 <= from <= j < inputs.len(),
        worker.run(inputs.take(from)).stage != Stage::Init,
        shutdown_from(inputs, from),
    ensures
        !(worker.answers(inputs)[j] is Transmit),
{
    lemma_answer_is_step(worker, inputs, j);
    let middle = inputs.take(j).skip(from);
    lemma_run_splits(worker, inputs.take(j), from);
    assert(inputs.take(j).take(from) =~= inputs.take(from));
    lemma_stages_move_forward(worker.run(inputs.take(from)), middle);
    assert(inputs[j].event matches Event::Observed { shutdown } ==> shutdown);
}

/// Every accepted event brings a worker closer to the end of sending,
/// once the shutdown flag is set.
proof fn lemma_worker_progress(worker: WorkerView, inputs: Seq<Input>)
    requires
        shutdown_from(inputs, 0),
        forall|j: int| 0 <= j < inputs.len() ==> worker.answers(inputs)[j] != Action::Rejected,
    ensures
        worker.run(inputs).stage.steps_to_drain() == 0 || worker.run(
            inputs,
        ).stage.steps_to_drain() + inputs.len() <= worker.stage.steps_to_drain(),
    decreases inputs.len(),
{
    if inputs.len() > 0 {
        let front = inputs.drop_last();
        let n = inputs.len() as int;
        lemma_answers_extend(worker, front, 0);
        lemma_answers_extend(worker, inputs, 0);
        assert forall|j: int| 0 <= j < front.len() implies worker.answers(front)[j]
            != Action::Rejected by {
            assert(worker.answers(front)[j] == worker.answers(inputs)[j]);
        }
        assert forall|j: int| 0 <= j < front.len() implies (#[trigger] front[j].event matches
            Event::Observed { shutdown } ==> shutdown) by {
            assert(front[j] == inputs[j]);
        }
        lemma_worker_progress(worker, front);
        assert(worker.answers(inputs)[n - 1] != Action::Rejected);
        assert(inputs[n - 1].event matches Event::Observed { shutdown } ==> shutdown);
    }
}

/// Shutdown within a round. Once the shutdown flag is set, a worker that
/// is told the outcome of what it asks for stops sending within
/// `steps_to_drain` events. For a worker that has its socket these are
/// four at most: the outcome of the send under way, the end of one pause,
/// at most one flush, and one reading of the flag.
pub proof fn lemma_worker_stops_within_a_round(worker: WorkerView, inputs: Seq<Input>)
    requires
        shutdown_from(inputs, 0),
        forall|j: int| 0 <= j < inputs.len() ==> worker.answers(inputs)[j] != Action::Rejected,
        inputs.len() >= worker.stage.steps_to_drain(),
    ensures
        worker.run(inputs).stage == Stage::Draining || worker.run(inputs).stage == Stage::Exited,
{
    lemma_worker_progress(worker, inputs);
}

/// Running a sequence of inputs is running its first `n`, then the rest.
pub proof fn lemma_run_splits(worker: WorkerView, inputs: Seq<Input>, n: int)
    requires
        0 <= n <= inputs.len(),
    ensures
        worker.run(inputs) == worker.run(inputs.take(n)).run(inputs.skip(n)),
    decreases inputs.len(),
{
    if n == inputs.len() {
        assert(inputs.take(n) =~= inputs);
        assert(inputs.skip(n) =~= Seq::<Input>::empty());
    } else {
        let front = inputs.drop_last();
        lemma_run_splits(worker, front, n);
        assert(front.take(n) =~= inputs.take(n));
        assert(inputs.skip(n).drop_last() =~= front.skip(n));
        assert(inputs.skip(n).last() == inputs.last());
    }
}

/// Draining does no work. After a worker has asked to close its socket,
/// it asks for nothing but to be done: it neither transmits, pauses,
/// flushes nor reads the flag again, and what it had counted and not
/// flushed stays where it is.
pub proof fn lemma_quiet_after_close(worker: WorkerView, inputs: Seq<Input>, i: int, j: int)
    requires
        0 <= i < j < inputs.len(),
        worker.answers(inputs)[i] == Action::Close,
    ensures
        worker.answers(inputs)[j] == Action::Done || worker.answers(inputs)[j] == Action::Rejected,
        worker.run(inputs).local == worker.run(inputs.take(i)).local,
{
    lemma_answer_is_step(worker, inputs, i);
    lemma_answer_is_step(worker, inputs, j);
    let closing = worker.run(inputs.take(i + 1));
    assert(closing.stage == Stage::Draining);
    lemma_run_splits(worker, inputs.take(j), i + 1);
    assert(inputs.take(j).take(i + 1) =~= inputs.take(i + 1));
    lemma_stages_move_forward(closing, inputs.take(j).skip(i + 1));
    lemma_run_splits(worker, inputs, i + 1);
    lemma_local_rests(closing, inputs.skip(i + 1));
}

/// A worker in `Draining` or `Exited` keeps its counters as they are.
pub proof fn lemma_local_rests(worker: WorkerView, inputs: Seq<Input>)
    requires
        worker.stage == Stage::Draining || worker.stage == Stage::Exited,
    ensures
        worker.run(inputs).local == worker.local,
    decreases inputs.len(),
{
    if inputs.len() > 0 {
        lemma_local_rests(worker, inputs.drop_last());
        lemma_stages_move_forward(worker, inputs.drop_last());
    }
}

} // verus!
