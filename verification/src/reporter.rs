//! The reporter, as a state machine: once a second it takes what the
//! workers have flushed, has it printed, and looks at the shutdown flag.

use crate::config::Target;
use crate::stats::Stats;
use vstd::prelude::*;
use vstd::string::StringExecFns;

verus! {

/// The time between two reports, in seconds.
pub const REPORT_INTERVAL_SECS: u64 = 1;

/// The throughput line for two rates already written out and a
/// destination: `<kpps> k pps, <mbits> Mbit/s -> <destination>`.
pub open spec fn report_line(
    kpps: Seq<char>,
    mbits: Seq<char>,
    destination: Seq<char>,
) -> Seq<char> {
    kpps + seq![' ', 'k', ' ', 'p', 'p', 's', ',', ' '] + mbits
        + seq![' ', 'M', 'b', 'i', 't', '/', 's', ' ', '-', '>', ' '] + destination
}

/// Lays out the throughput line of one tick. `kpps` is the rate in
/// thousands of packets per second and `mbits` the rate in Mbit/s, each
/// as the caller has written it out.
pub fn throughput_line(kpps: &str, mbits: &str, target: &Target) -> (line: String)
    ensures
        line@ == report_line(kpps@, mbits@, target.destination()),
{
    proof {
        reveal_strlit(" k pps, ");
        reveal_strlit(" Mbit/s -> ");
    }
    let destination = target.as_str();
    let mut line = String::from_str(kpps);
    line.append(" k pps, ");
    line.append(mbits);
    line.append(" Mbit/s -> ");
    line.append(destination.as_str());
    assert(line@ =~= report_line(kpps@, mbits@, target.destination()));
    line
}

/// What the reporter waits for.
#[derive(Clone, Copy, Debug, PartialEq, Eq, Structural)]
pub enum ReportStage {
    /// Waiting for the workers to be started.
    Starting,
    /// Waiting for the sleep to end.
    Sleeping,
    /// Waiting for the drained counters.
    Sampling,
    /// Waiting for the line to be written.
    Printing,
    /// Waiting for the state of the shutdown flag.
    Observing,
    /// Waiting for the workers to end.
    Joining,
    /// Done.
    Exited,
}

/// What the caller reports to the reporter.
#[derive(Clone, Copy, Debug, PartialEq, Eq, Structural)]
pub enum ReportEvent {
    /// The workers are started.
    Started,
    /// The sleep is over.
    Woke,
    /// The shared counters were drained; `sample` is what they held.
    Drained { sample: Stats },
    /// The line was written, or could not be: writing is best-effort.
    Printed,
    /// The shutdown flag was read.
    Observed { shutdown: bool },
    /// All workers have ended.
    Joined,
}

/// What the reporter asks its caller to do next.
#[derive(Clone, Copy, Debug, PartialEq, Eq, Structural)]
pub enum ReportAction {
    /// Sleep for `secs` seconds.
    Sleep { secs: u64 },
    /// Drain the shared counters.
    Drain,
    /// Write the throughput line for `sample`.
    Print { sample: Stats },
    /// Read the shutdown flag.
    Observe,
    /// Wait for all workers to end.
    Join,
    /// Nothing is left to do.
    Done,
    /// The event does not answer what the reporter waits for: nothing
    /// changed.
    Rejected,
}

impl ReportStage {
    /// The reporter's answer to `event`: its next stage and the action it
    /// asks for.
    pub open spec fn step(self, event: ReportEvent) -> (ReportStage, ReportAction) {
        match (self, event) {
            (ReportStage::Starting, ReportEvent::Started) => (
                ReportStage::Sleeping,
                ReportAction::Sleep { secs: REPORT_INTERVAL_SECS },
            ),
            (ReportStage::Sleeping, ReportEvent::Woke) => (
                ReportStage::Sampling,
                ReportAction::Drain,
            ),
            (ReportStage::Sampling, ReportEvent::Drained { sample }) => (
                ReportStage::Printing,
                ReportAction::Print { sample },
            ),
            (ReportStage::Printing, ReportEvent::Printed) => (
                ReportStage::Observing,
                ReportAction::Observe,
            ),
            (ReportStage::Observing, ReportEvent::Observed { shutdown }) => {
                if shutdown {
                    (ReportStage::Joining, ReportAction::Join)
                } else {
                    (ReportStage::Sleeping, ReportAction::Sleep { secs: REPORT_INTERVAL_SECS })
                }
            },
            (ReportStage::Joining, ReportEvent::Joined) => (
                ReportStage::Exited,
                ReportAction::Done,
            ),
            _ => (self, ReportAction::Rejected),
        }
    }

    /// The stage after `events`, in order.
    pub open spec fn run(self, events: Seq<ReportEvent>) -> ReportStage
        decreases events.len(),
    {
        if events.len() == 0 {
            self
        } else {
            self.run(events.drop_last()).step(events.last()).0
        }
    }

    /// The answer to event `j` of `events`, after those before it.
    pub open spec fn answer_at(self, events: Seq<ReportEvent>, j: int) -> ReportAction
        recommends
            0 <= j < events.len(),
    {
        self.run(events.take(j)).step(events[j]).1
    }

    /// How many events the reporter is away, at most, from joining the
    /// workers once the shutdown flag is set.
    pub open spec fn steps_to_join(self) -> nat {
        match self {
            ReportStage::Starting => 5,
            ReportStage::Sleeping => 4,
            ReportStage::Sampling => 3,
            ReportStage::Printing => 2,
            ReportStage::Observing => 1,
            ReportStage::Joining | ReportStage::Exited => 0,
        }
    }
}

/// The reporter of a run.
pub struct Reporter {
    stage: ReportStage,
}

impl View for Reporter {
    type V = ReportStage;

    closed spec fn view(&self) -> ReportStage {
        self.stage
    }
}

impl Reporter {
    /// A reporter that waits for the workers to be started.
    pub fn new() -> (reporter: Reporter)
        ensures
            reporter@ == ReportStage::Starting,
    {
        Reporter { stage: ReportStage::Starting }
    }

    /// What the reporter waits for.
    pub fn stage(&self) -> (stage: ReportStage)
        ensures
            stage == self@,
    {
        self.stage
    }

    /// Answers `event`.
    pub fn advance(&mut self, event: ReportEvent) -> (action: ReportAction)
        ensures
            (final(self)@, action) == old(self)@.step(event),
    {
        match (self.stage, event) {
            (ReportStage::Starting, ReportEvent::Started) => {
                self.stage = ReportStage::Sleeping;
                ReportAction::Sleep { secs: REPORT_INTERVAL_SECS }
            },
            (ReportStage::Sleeping, ReportEvent::Woke) => {
                self.stage = ReportStage::Sampling;
                ReportAction::Drain
            },
            (ReportStage::Sampling, ReportEvent::Drained { sample }) => {
                self.stage = ReportStage::Printing;
                ReportAction::Print { sample }
            },
            (ReportStage::Printing, ReportEvent::Printed) => {
                self.stage = ReportStage::Observing;
                ReportAction::Observe
            },
            (ReportStage::Observing, ReportEvent::Observed { shutdown }) => {
                if shutdown {
                    self.stage = ReportStage::Joining;
                    ReportAction::Join
                } else {
                    self.stage = ReportStage::Sleeping;
                    ReportAction::Sleep { secs: REPORT_INTERVAL_SECS }
                }
            },
            (ReportStage::Joining, ReportEvent::Joined) => {
                self.stage = ReportStage::Exited;
                ReportAction::Done
            },
            _ => ReportAction::Rejected,
        }
    }
}

/// From event `from` on, every reading of the shutdown flag finds it set.
pub open spec fn flag_set_from(events: Seq<ReportEvent>, from: int) -> bool {
    forall|j: int|
        from <= j < events.len() ==> (#[trigger] events[j] matches ReportEvent::Observed {
            shutdown,
        } ==> shutdown)
}

/// A reporter that has started does not come back to `Starting`.
pub proof fn lemma_reporter_moves_forward(stage: ReportStage, events: Seq<ReportEvent>)
    ensures
        stage != ReportStage::Starting ==> stage.run(events) != ReportStage::Starting,
    decreases events.len(),
{
    if events.len() > 0 {
        lemma_reporter_moves_forward(stage, events.drop_last());
    }
}

/// Running a sequence of events is running its first `n`, then the rest.
pub proof fn lemma_report_run_splits(stage: ReportStage, events: Seq<ReportEvent>, n: int)
    requires
        0 <= n <= events.len(),
    ensures
        stage.run(events) == stage.run(events.take(n)).run(events.skip(n)),
    decreases events.len(),
{
    if n == events.len() {
        assert(events.take(n) =~= events);
        assert(events.skip(n) =~= Seq::<ReportEvent>::empty());
    } else {
        let front = events.drop_last();
        lemma_report_run_splits(stage, front, n);
        assert(front.take(n) =~= events.take(n));
        assert(events.skip(n).drop_last() =~= front.skip(n));
        assert(events.skip(n).last() == events.last());
    }
}

/// Shutdown. Once every reading of the shutdown flag finds it set, a
/// reporter that has started asks for no further sleep: the sleep under
/// way is its last.
pub proof fn lemma_no_sleep_after_shutdown(
    stage: ReportStage,
    events: Seq<ReportEvent>,
    from: int,
    j: int,
)
    requires
        0 <= from <= j < events.len(),
        stage.run(events.take(from)) != ReportStage::Starting,
        flag_set_from(events, from),
    ensures
        !(stage.answer_at(events, j) is Sleep),
{
    lemma_report_run_splits(stage, events.take(j), from);
    assert(events.take(j).take(from) =~= events.take(from));
    lemma_reporter_moves_forward(stage.run(events.take(from)), events.take(j).skip(from));
    assert(events[j] matches ReportEvent::Observed { shutdown } ==> shutdown);
}

/// Every accepted event brings the reporter closer to the join, once the
/// shutdown flag is set.
proof fn lemma_reporter_progress(stage: ReportStage, events: Seq<ReportEvent>)
    requires
        flag_set_from(events, 0),
        forall|j: int|
            0 <= j < events.len() ==> stage.answer_at(events, j) != ReportAction::Rejected,
    ensures
        stage.run(events).steps_to_join() == 0 || stage.run(events).steps_to_join() + events.len()
            <= stage.steps_to_join(),
    decreases events.len(),
{
    if events.len() > 0 {
        let front = events.drop_last();
        let n = events.len() as int;
        assert forall|j: int| 0 <= j < front.len() implies stage.answer_at(front, j)
            != ReportAction::Rejected by {
            assert(front.take(j) =~= events.take(j));
            assert(front[j] == events[j]);
            assert(stage.answer_at(events, j) != ReportAction::Rejected);
        }
        assert forall|j: int| 0 <= j < front.len() implies (#[trigger] front[j] matches
            ReportEvent::Observed { shutdown } ==> shutdown) by {
            assert(front[j] == events[j]);
        }
        lemma_reporter_progress(stage, front);
        assert(events.take(n - 1) =~= front);
        assert(stage.answer_at(events, n - 1) != ReportAction::Rejected);
        assert(events[n - 1] matches ReportEvent::Observed { shutdown } ==> shutdown);
    }
}

/// Shutdown within a tick. Once the shutdown flag is set, a reporter that
/// is told the outcome of what it asks for goes on to join the workers
/// within `steps_to_join` events. For a reporter that has started these
/// are four at most: the end of the sleep under way, one drain, one line,
/// and one reading of the flag.
pub proof fn lemma_reporter_joins_within_a_tick(stage: ReportStage, events: Seq<ReportEvent>)
    requires
        flag_set_from(events, 0),
        forall|j: int|
            0 <= j < events.len() ==> stage.answer_at(events, j) != ReportAction::Rejected,
        events.len() >= stage.steps_to_join(),
    ensures
        stage.run(events) == ReportStage::Joining || stage.run(events) == ReportStage::Exited,
{
    lemma_reporter_progress(stage, events);
}

} // verus!
