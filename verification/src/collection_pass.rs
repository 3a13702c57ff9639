//! One sweep over the enabled collection sources, as a chain of steps.
//!
//! A pass is driven from outside: `advance` says which source comes next and
//! what to write before collecting from it, `settle` takes what the collector
//! reported and says what to write afterwards. A source that fails is
//! recorded and the pass goes on with the next one; a pass ends early only
//! where the scheduler was stopped in the meantime.

use vstd::prelude::*;
use crate::models::{views, Collection, CollectionView};
use crate::object_id::fresh_object_id;
use crate::scheduled_task::{
    clear_task_update, mark_task_update, outcome_update, outcome_view, pass_done_update,
    running_log, status_running, ConfigUpdate, ConfigUpdateView, LogUpdate, TaskExecutionLog,
    LOOKBACK_HOURS, SOURCE_PAUSE_SECONDS,
};

verus! {

/// What started a pass.
#[derive(Debug, Clone, Copy, PartialEq, Eq, Structural)]
pub enum PassKind {
    /// The pass that `start` runs at once, whatever the next run time is.
    Immediate,
    /// A pass that the poll loop runs because the next run time has come.
    Scheduled,
}

/// The counts of a pass.
#[derive(Debug, Clone, Copy, PartialEq, Eq, Structural)]
pub struct PassSummary {
    /// Number of sources that the pass was given.
    pub total_sources: usize,
    /// Number of sources that were collected from, with either outcome.
    pub attempted: usize,
    /// Number of sources whose collection succeeded.
    pub succeeded: usize,
    /// Number of sources whose collection failed.
    pub failed: usize,
    /// Items collected over all sources, held at the top of the range when
    /// the sum leaves it.
    pub videos_collected: i64,
}

/// A pass between two sources.
pub struct CollectionPass {
    kind: PassKind,
    interval_hours: i32,
    sources: Vec<Collection>,
    cursor: usize,
    succeeded: usize,
    failed: usize,
    videos: i64,
}

/// What a `CollectionPass` holds, with texts as sequences of characters and
/// numbers as integers.
pub struct CollectionPassView {
    pub kind: PassKind,
    pub interval_hours: int,
    pub sources: Seq<CollectionView>,
    /// Number of sources already attempted; the next source has this index.
    pub cursor: nat,
    pub succeeded: nat,
    pub failed: nat,
    pub videos: int,
}

impl View for CollectionPass {
    type V = CollectionPassView;

    closed spec fn view(&self) -> CollectionPassView {
        CollectionPassView {
            kind: self.kind,
            interval_hours: self.interval_hours as int,
            sources: views(self.sources@),
            cursor: self.cursor as nat,
            succeeded: self.succeeded as nat,
            failed: self.failed as nat,
            videos: self.videos as int,
        }
    }
}

/// A pass with one source in flight.
pub struct SourceRun {
    pass: CollectionPass,
    task_id: String,
}

/// What a `SourceRun` holds, with texts as sequences of characters and
/// numbers as integers.
pub struct SourceRunView {
    pub pass: CollectionPassView,
    pub task_id: Seq<char>,
}

impl View for SourceRun {
    type V = SourceRunView;

    closed spec fn view(&self) -> SourceRunView {
        SourceRunView { pass: self.pass@, task_id: self.task_id@ }
    }
}

/// What to do before collecting from the next source: write the row, mark the
/// scheduler record with the row's task identifier, then ask the collector.
pub struct SourceStart {
    pub log: TaskExecutionLog,
    pub mark: ConfigUpdate,
    pub source: Collection,
    pub lookback_hours: u32,
}

/// What to do after a source has been collected from: close its row, clear
/// the mark on the scheduler record, then rest.
pub struct SourceEnd {
    pub task_id: String,
    /// The status that the row must still have for the closing write to
    /// reach it.
    pub open_status: String,
    pub log_update: LogUpdate,
    pub clear: ConfigUpdate,
    pub pause_seconds: u64,
}

/// What to do when the pass is over.
pub struct PassEnd {
    pub summary: PassSummary,
    /// The write that closes the pass: no task is in flight any more, and
    /// after a scheduled pass the time of this run and of the next.
    pub closing: ConfigUpdate,
    /// Whether sources were left out because the scheduler was stopped.
    pub stopped_early: bool,
}

/// The next step of a pass.
pub enum PassProgress {
    Source(SourceRun, SourceStart),
    Finished(PassEnd),
}

/// Whether a pass takes no further source: none is left, or the scheduler
/// record was seen not to be running.
pub open spec fn pass_is_over(p: CollectionPassView, observed_running: Option<bool>) -> bool {
    p.cursor >= p.sources.len() || observed_running == Some(false)
}

/// The counts of a pass.
pub open spec fn summary_of(p: CollectionPassView) -> PassSummary {
    PassSummary {
        total_sources: p.sources.len() as usize,
        attempted: p.cursor as usize,
        succeeded: p.succeeded as usize,
        failed: p.failed as usize,
        videos_collected: p.videos as i64,
    }
}

/// The identifier under which a source is logged: its own, or `spare` when
/// it has none.
pub open spec fn logged_source_id(source: CollectionView, spare: Seq<char>) -> Seq<char> {
    match source.id {
        Some(id) => id,
        None => spare,
    }
}

/// A sum of collected items, held at the top of the range.
pub open spec fn capped_sum(total: int, more: int) -> int {
    if total + more > i64::MAX {
        i64::MAX as int
    } else if total + more < i64::MIN {
        i64::MIN as int
    } else {
        total + more
    }
}

/// The pass after one more source has been collected from, with `outcome`.
pub open spec fn pass_after_source(
    p: CollectionPassView,
    outcome: Result<int, Seq<char>>,
) -> CollectionPassView {
    match outcome {
        Ok(n) => CollectionPassView {
            cursor: p.cursor + 1,
            succeeded: p.succeeded + 1,
            videos: capped_sum(p.videos, n),
            ..p
        },
        Err(_) => CollectionPassView { cursor: p.cursor + 1, failed: p.failed + 1, ..p },
    }
}

/// The write that closes a pass at `now`, whether or not it collected from
/// a source: no task is in flight any more, and a scheduled pass records
/// the time of this run and of the next.
pub open spec fn closing_update(kind: PassKind, interval_hours: int, now: int) -> ConfigUpdateView {
    match kind {
        PassKind::Scheduled => pass_done_update(now, interval_hours),
        PassKind::Immediate => clear_task_update(now),
    }
}

/// Whether `step` closes the pass `p` at `now`: it carries the counts, says
/// whether sources were left out, and holds the closing write.
pub open spec fn ends_pass(p: CollectionPassView, step: PassProgress, now: int) -> bool {
    step matches PassProgress::Finished(end) && end.summary == summary_of(p) && end.stopped_early
        == (p.cursor < p.sources.len()) && end.closing@ == closing_update(
        p.kind,
        p.interval_hours,
        now,
    )
}

/// Whether `step` starts the next source of the pass `p` at `now` under
/// `task_id`: the row to write is a running row for that source, the mark
/// names the task, and the collector is asked for the last day.
pub open spec fn starts_source(
    p: CollectionPassView,
    step: PassProgress,
    task_id: Seq<char>,
    spare_id: Seq<char>,
    now: int,
) -> bool {
    step matches PassProgress::Source(run, start) && run@.pass == p && run@.task_id == task_id
        && start.source@ == p.sources[p.cursor as int] && start.log@ == running_log(
        task_id,
        logged_source_id(p.sources[p.cursor as int], spare_id),
        p.sources[p.cursor as int].collect_name,
        now,
    ) && start.mark@ == mark_task_update(task_id, now) && start.lookback_hours == LOOKBACK_HOURS
}

impl CollectionPass {
    #[verifier::type_invariant]
    spec fn well_formed(self) -> bool {
        &&& self.cursor <= self.sources@.len()
        &&& self.succeeded + self.failed == self.cursor
    }

    /// A pass over `sources` that has not attempted any of them.
    pub fn new(kind: PassKind, interval_hours: i32, sources: Vec<Collection>) -> (pass:
        CollectionPass)
        ensures
            pass@ == (CollectionPassView {
                kind,
                interval_hours: interval_hours as int,
                sources: views(sources@),
                cursor: 0,
                succeeded: 0,
                failed: 0,
                videos: 0,
            }),
    {
        CollectionPass {
            kind,
            interval_hours,
            sources,
            cursor: 0,
            succeeded: 0,
            failed: 0,
            videos: 0,
        }
    }

    /// The number of sources already attempted, which is the index of the
    /// next source where one is left.
    pub fn position(&self) -> (at: usize)
        ensures
            at == self@.cursor,
            at <= self@.sources.len(),
    {
        proof {
            use_type_invariant(self);
        }
        self.cursor
    }

    /// Whether a source is left to collect from.
    pub fn has_next(&self) -> (more: bool)
        ensures
            more == (self@.cursor < self@.sources.len()),
    {
        self.cursor < self.sources.len()
    }

    /// The kind of the pass.
    pub fn kind(&self) -> (k: PassKind)
        ensures
            k == self@.kind,
    {
        self.kind
    }

    /// Whether the next step needs a fresh look at the scheduler record: a
    /// pass stops between two sources once the record says that the
    /// scheduler is no longer running.
    pub fn wants_running_check(&self) -> (wanted: bool)
        ensures
            wanted == (self@.cursor < self@.sources.len()),
    {
        self.cursor < self.sources.len()
    }

    /// The counts so far. The attempted sources are among those given, and
    /// each of them either succeeded or failed.
    pub fn summary(&self) -> (s: PassSummary)
        ensures
            s == summary_of(self@),
            self@.cursor <= self@.sources.len(),
            self@.succeeded + self@.failed == self@.cursor,
    {
        proof {
            use_type_invariant(self);
        }
        PassSummary {
            total_sources: self.sources.len(),
            attempted: self.cursor,
            succeeded: self.succeeded,
            failed: self.failed,
            videos_collected: self.videos,
        }
    }

    /// Takes the next step. `observed_running` is the running flag of the
    /// scheduler record as just read, or `None` where it could not be read.
    /// `task_id` names the source execution that may start; `spare_id` stands
    /// in for the identifier of a source that has none.
    pub fn advance_with(
        self,
        observed_running: Option<bool>,
        task_id: &str,
        spare_id: &str,
        now: i64,
    ) -> (step: PassProgress)
        ensures
            pass_is_over(self@, observed_running) ==> ends_pass(self@, step, now as int),
            !pass_is_over(self@, observed_running) ==> starts_source(
                self@,
                step,
                task_id@,
                spare_id@,
                now as int,
            ),
    {
        proof {
            use_type_invariant(&self);
        }
        let stopped = match observed_running {
            Some(running) => !running,
            None => false,
        };
        if self.cursor >= self.sources.len() || stopped {
            let closing = match self.kind {
                PassKind::Scheduled => ConfigUpdate::pass_done(now, self.interval_hours),
                PassKind::Immediate => ConfigUpdate::clear_task(now),
            };
            PassProgress::Finished(
                PassEnd {
                    summary: self.summary(),
                    closing,
                    stopped_early: self.cursor < self.sources.len(),
                },
            )
        } else {
            let source = self.sources[self.cursor].clone();
            let log = match &source.id {
                Some(id) => TaskExecutionLog::running(
                    task_id,
                    id.as_str(),
                    source.collect_name.as_str(),
                    now,
                ),
                None => TaskExecutionLog::running(
                    task_id,
                    spare_id,
                    source.collect_name.as_str(),
                    now,
                ),
            };
            let start = SourceStart {
                log,
                mark: ConfigUpdate::mark_task(task_id, now),
                source,
                lookback_hours: LOOKBACK_HOURS,
            };
            let run = SourceRun { pass: self, task_id: String::from_str(task_id) };
            PassProgress::Source(run, start)
        }
    }

    /// Takes the next step, naming a source execution that starts by a newly
    /// drawn identifier of 24 characters.
    pub fn advance(self, observed_running: Option<bool>, now: i64) -> (step: PassProgress)
        ensures
            pass_is_over(self@, observed_running) ==> ends_pass(self@, step, now as int),
            !pass_is_over(self@, observed_running) ==> exists|
                task_id: Seq<char>,
                spare_id: Seq<char>,
            |
                task_id.len() == 24 && spare_id.len() == 24 && #[trigger] starts_source(
                    self@,
                    step,
                    task_id,
                    spare_id,
                    now as int,
                ),
    {
        let task_id = fresh_object_id();
        let spare_id = fresh_object_id();
        self.advance_with(observed_running, task_id.as_str(), spare_id.as_str(), now)
    }
}

impl SourceRun {
    #[verifier::type_invariant]
    spec fn well_formed(self) -> bool {
        self.pass.cursor < self.pass.sources@.len()
    }

    /// The task identifier of the source execution in flight, which is one
    /// of the sources given.
    pub fn task_id(&self) -> (id: &String)
        ensures
            id@ == self@.task_id,
            self@.pass.cursor < self@.pass.sources.len(),
    {
        proof {
            use_type_invariant(self);
        }
        &self.task_id
    }

    /// Takes what the collector reported for the source in flight. Whether
    /// it succeeded or failed, the pass moves on to the next source.
    pub fn settle(self, outcome: &Result<i32, String>, now: i64) -> (step: (
        CollectionPass,
        SourceEnd,
    ))
        ensures
            step.0@ == pass_after_source(self@.pass, outcome_view(*outcome)),
            step.1.task_id@ == self@.task_id,
            step.1.open_status@ == status_running(),
            step.1.log_update@ == outcome_update(outcome_view(*outcome), now as int),
            step.1.clear@ == clear_task_update(now as int),
            step.1.pause_seconds == SOURCE_PAUSE_SECONDS,
    {
        proof {
            use_type_invariant(&self);
            use_type_invariant(&self.pass);
        }
        let SourceRun { pass, task_id } = self;
        let CollectionPass { kind, interval_hours, sources, cursor, succeeded, failed, videos } =
            pass;
        let total = sources.len();
        assert(cursor < total);
        let next = match outcome {
            Ok(n) => {
                let sum: i64 = match videos.checked_add(*n as i64) {
                    Some(v) => v,
                    None => if *n > 0 {
                        i64::MAX
                    } else {
                        i64::MIN
                    },
                };
                CollectionPass {
                    kind,
                    interval_hours,
                    sources,
                    cursor: cursor + 1,
                    succeeded: succeeded + 1,
                    failed,
                    videos: sum,
                }
            },
            Err(_) => CollectionPass {
                kind,
                interval_hours,
                sources,
                cursor: cursor + 1,
                succeeded,
                failed: failed + 1,
                videos,
            },
        };
        let end = SourceEnd {
            task_id,
            open_status: String::from_str("running"),
            log_update: LogUpdate::from_outcome(outcome, now),
            clear: ConfigUpdate::clear_task(now),
            pause_seconds: SOURCE_PAUSE_SECONDS,
        };
        (next, end)
    }
}

} // verus!
