//! The scheduler over a store held in memory: the scheduler record, the log
//! of source executions and the registry of sources as plain values, with
//! every scheduler operation carried out on them.
//!
//! This is the meaning of the writes that the steps of the scheduler ask
//! for. A scheduler that keeps its state elsewhere performs the same steps
//! and sends the same writes to its own store.

use vstd::prelude::*;
use crate::clock::now_millis;
use crate::collection_pass::{
    closing_update, logged_source_id, pass_after_source, summary_of, CollectionPass,
    CollectionPassView, PassEnd, PassKind, PassProgress, PassSummary,
};
use crate::models::{opt_count, views, Collection, CollectionView};
use crate::object_id::fresh_object_id;
use crate::scheduled_task::{
    apply_config_update, apply_log_update, clear_task_update, halt_update, initial_config,
    launch_update, mark_task_update, outcome_update, outcome_view, pass_done_update,
    reconfigure_update, running_log, state_of, status_running, touch_update, ConfigUpdate,
    ConfigUpdateView, LogUpdate, LogUpdateView, ScheduledTaskConfig, ScheduledTaskConfigView,
    SchedulerState, TaskExecutionLog, TaskExecutionLogView,
};
use crate::scheduler_steps::{
    decide_start, decide_stop, is_stopped, poll_decision, poll_of, PollDecision,
    SchedulerError, StartDecision, StartedTask,
};
use crate::search::{first_where, lemma_first_where_skips};
use crate::text::str_equal;

verus! {

/// The scheduler's store: at most one scheduler record, the log rows in the
/// order in which they were written, and the registry of sources.
pub struct ScheduledTaskManager {
    pub config: Option<ScheduledTaskConfig>,
    pub logs: Vec<TaskExecutionLog>,
    pub sources: Vec<Collection>,
}

/// What a `ScheduledTaskManager` holds, with texts as sequences of characters and
/// numbers as integers.
pub struct ScheduledTaskManagerView {
    pub config: Option<ScheduledTaskConfigView>,
    pub logs: Seq<TaskExecutionLogView>,
    pub sources: Seq<CollectionView>,
}

/// The view of a scheduler record that may be missing.
pub open spec fn opt_config_view(c: Option<ScheduledTaskConfig>) -> Option<
    ScheduledTaskConfigView,
> {
    match c {
        Some(c) => Some(c@),
        None => None,
    }
}

impl View for ScheduledTaskManager {
    type V = ScheduledTaskManagerView;

    open spec fn view(&self) -> ScheduledTaskManagerView {
        ScheduledTaskManagerView {
            config: opt_config_view(self.config),
            logs: views(self.logs@),
            sources: views(self.sources@),
        }
    }
}

/// What a pass is told about one source ahead of time: the identifiers to
/// use and what the collector reports.
pub struct SourceScript {
    /// The task identifier of the source's execution.
    pub task_id: String,
    /// The identifier to log the source under where it has none of its own.
    pub spare_id: String,
    /// The number of items collected, or why the collection failed.
    pub outcome: Result<i32, String>,
}

/// What a `SourceScript` holds, with texts as sequences of characters and
/// numbers as integers.
pub struct SourceScriptView {
    pub task_id: Seq<char>,
    pub spare_id: Seq<char>,
    pub outcome: Result<int, Seq<char>>,
}

impl View for SourceScript {
    type V = SourceScriptView;

    open spec fn view(&self) -> SourceScriptView {
        SourceScriptView {
            task_id: self.task_id@,
            spare_id: self.spare_id@,
            outcome: outcome_view(self.outcome),
        }
    }
}

/// The enabled sources among `sources`, in their order.
pub open spec fn enabled_of(sources: Seq<CollectionView>) -> Seq<CollectionView>
    decreases sources.len(),
{
    if sources.len() == 0 {
        Seq::empty()
    } else if sources.last().collect_status == 1 {
        enabled_of(sources.drop_last()).push(sources.last())
    } else {
        enabled_of(sources.drop_last())
    }
}

/// The log after one source has been collected from: its running row is
/// appended, then the first open row with its task identifier is closed
/// according to the outcome.
pub open spec fn logs_after_source(
    logs: Seq<TaskExecutionLogView>,
    source: CollectionView,
    s: SourceScriptView,
    now: int,
) -> Seq<TaskExecutionLogView> {
    close_first_open(
        logs.push(
            running_log(
                s.task_id,
                logged_source_id(source, s.spare_id),
                source.collect_name,
                now,
            ),
        ),
        s.task_id,
        outcome_update(s.outcome, now),
    )
}

/// The log after the sources from index `from` on have been collected from,
/// one after the other.
pub open spec fn logs_after_pass(
    logs: Seq<TaskExecutionLogView>,
    sources: Seq<CollectionView>,
    script: Seq<SourceScriptView>,
    now: int,
    from: nat,
) -> Seq<TaskExecutionLogView>
    decreases sources.len() - from,
{
    if from >= sources.len() {
        logs
    } else {
        logs_after_pass(
            logs_after_source(logs, sources[from as int], script[from as int], now),
            sources,
            script,
            now,
            from + 1,
        )
    }
}

/// The pass after all its remaining sources have been collected from.
pub open spec fn pass_after_script(
    p: CollectionPassView,
    script: Seq<SourceScriptView>,
) -> CollectionPassView
    decreases p.sources.len() - p.cursor,
{
    if p.cursor >= p.sources.len() {
        p
    } else {
        pass_after_script(pass_after_source(p, script[p.cursor as int].outcome), script)
    }
}

/// Whether a pass takes no source because the scheduler record says that
/// the scheduler is not running.
pub open spec fn pass_stops(c: Option<ScheduledTaskConfigView>) -> bool {
    c matches Some(c) && !c.is_running
}

/// The scheduler record after the closing write of a pass: no task is in
/// flight, and a scheduled pass has recorded the time of this run and of
/// the next.
pub open spec fn finish_config(
    c: Option<ScheduledTaskConfigView>,
    kind: PassKind,
    interval_hours: int,
    now: int,
) -> Option<ScheduledTaskConfigView> {
    write_config(c, closing_update(kind, interval_hours, now))
}

/// The store after initialisation at `now`: where there was no scheduler
/// record, the initial one; where there was one, the same with a new time
/// of writing.
pub open spec fn initialized(m: ScheduledTaskManagerView, now: int) -> ScheduledTaskManagerView {
    ScheduledTaskManagerView {
        config: match m.config {
            Some(c) => Some(apply_config_update(c, touch_update(now))),
            None => Some(initial_config(now)),
        },
        ..m
    }
}

/// The store after a reconfiguration at `now`.
pub open spec fn reconfigured(
    m: ScheduledTaskManagerView,
    enabled: bool,
    interval_hours: Option<int>,
    now: int,
) -> ScheduledTaskManagerView {
    ScheduledTaskManagerView {
        config: write_config(m.config, reconfigure_update(enabled, interval_hours, now)),
        ..m
    }
}

/// The store after a stop at `now`: a record that is fully stopped already
/// stays as it is, any other is disabled and cleared.
pub open spec fn stopped(m: ScheduledTaskManagerView, now: int) -> ScheduledTaskManagerView {
    ScheduledTaskManagerView {
        config: match m.config {
            Some(c) => if is_stopped(c) {
                Some(c)
            } else {
                Some(apply_config_update(c, halt_update(now)))
            },
            None => None,
        },
        ..m
    }
}

/// Whether a script holds one entry for each enabled source of the store.
pub open spec fn script_fits(m: ScheduledTaskManagerView, script: Seq<SourceScriptView>) -> bool {
    script.len() == enabled_of(m.sources).len()
}

/// What a scheduled pass at `now` makes of the store `before`, with the
/// sources reporting as `script` says: each enabled source leaves its row,
/// unless the scheduler is found not to be running, and the pass is closed
/// by recording the time of this run and of the next.
pub open spec fn scheduled_pass_effect(
    before: ScheduledTaskManagerView,
    after: ScheduledTaskManagerView,
    end: PassEnd,
    interval_hours: int,
    script: Seq<SourceScriptView>,
    now: int,
) -> bool {
    let sources = enabled_of(before.sources);
    let pass = fresh_pass(PassKind::Scheduled, interval_hours, sources);
    &&& after.sources == before.sources
    &&& after.logs == if pass_stops(before.config) {
        before.logs
    } else {
        logs_after_pass(before.logs, sources, script, now, 0)
    }
    &&& after.config == write_config(before.config, pass_done_update(now, interval_hours))
    &&& end.summary == summary_of(
        if pass_stops(before.config) {
            pass
        } else {
            pass_after_script(pass, script)
        },
    )
    &&& end.stopped_early == (pass_stops(before.config) && sources.len() > 0)
    &&& end.closing@ == pass_done_update(now, interval_hours)
}

/// What an immediate pass under `task_id` at `now` makes of the store
/// `before`, with the sources reporting as `script` says: the task is named
/// as the one in flight, each enabled source leaves its row, unless the
/// scheduler is found not to be running, and when the pass ends no task is
/// in flight, whether or not a source was collected from. The run times
/// stay as they are.
pub open spec fn immediate_pass_effect(
    before: ScheduledTaskManagerView,
    after: ScheduledTaskManagerView,
    end: PassEnd,
    task_id: Seq<char>,
    script: Seq<SourceScriptView>,
    now: int,
) -> bool {
    let sources = enabled_of(before.sources);
    let pass = fresh_pass(PassKind::Immediate, 0, sources);
    &&& after.sources == before.sources
    &&& after.logs == if pass_stops(before.config) {
        before.logs
    } else {
        logs_after_pass(before.logs, sources, script, now, 0)
    }
    &&& after.config == write_config(before.config, clear_task_update(now))
    &&& end.summary == summary_of(
        if pass_stops(before.config) {
            pass
        } else {
            pass_after_script(pass, script)
        },
    )
    &&& end.stopped_early == (pass_stops(before.config) && sources.len() > 0)
    &&& end.closing@ == clear_task_update(now)
}

/// Whether a tick of the poll loop at `now` runs a pass on the store.
pub open spec fn poll_runs_pass(m: ScheduledTaskManagerView, now: int) -> bool {
    m.config matches Some(c) && poll_of(c, now) is RunPass
}

/// What a tick of the poll loop at `now` makes of the store `before`: the
/// decision follows the scheduler record, and only a pass that is due
/// changes the store.
pub open spec fn poll_effect(
    before: ScheduledTaskManagerView,
    after: ScheduledTaskManagerView,
    d: PollDecision,
    script: Seq<SourceScriptView>,
    now: int,
) -> bool {
    &&& d == match before.config {
        Some(c) => poll_of(c, now),
        None => PollDecision::Wait,
    }
    &&& match d {
        PollDecision::RunPass { interval_hours } => {
            &&& after.sources == before.sources
            &&& after.logs == logs_after_pass(
                before.logs,
                enabled_of(before.sources),
                script,
                now,
                0,
            )
            &&& after.config == write_config(
                before.config,
                pass_done_update(now, interval_hours as int),
            )
        },
        _ => after == before,
    }
}

/// How a start ended.
#[derive(Debug, Clone, Copy, PartialEq, Eq, Structural)]
pub enum StartReport {
    /// An execution was in progress already. Nothing was written and no poll
    /// loop was started.
    AlreadyRunning,
    /// The scheduler was started and its immediate pass has run, over as
    /// many sources as are enabled.
    Ran(PassSummary),
}

/// A pass over `sources` that has not attempted any of them.
pub open spec fn fresh_pass(
    kind: PassKind,
    interval_hours: int,
    sources: Seq<CollectionView>,
) -> CollectionPassView {
    CollectionPassView {
        kind,
        interval_hours,
        sources,
        cursor: 0,
        succeeded: 0,
        failed: 0,
        videos: 0,
    }
}

/// The row that a source leaves in the log once it has been collected from.
pub open spec fn settled_log(
    source: CollectionView,
    s: SourceScriptView,
    now: int,
) -> TaskExecutionLogView {
    apply_log_update(
        running_log(s.task_id, logged_source_id(source, s.spare_id), source.collect_name, now),
        outcome_update(s.outcome, now),
    )
}

/// The rows that the sources from index `from` on leave in the log.
pub open spec fn settled_logs(
    sources: Seq<CollectionView>,
    script: Seq<SourceScriptView>,
    now: int,
    from: nat,
) -> Seq<TaskExecutionLogView> {
    Seq::new(
        (sources.len() - from) as nat,
        |i: int| settled_log(sources[from + i], script[from + i], now),
    )
}

/// A row that was closed is completed or failed, and so no longer running.
pub proof fn lemma_settled_log_is_closed(source: CollectionView, s: SourceScriptView, now: int)
    ensures
        settled_log(source, s, now).status != status_running(),
        crate::models::is_terminal_status(settled_log(source, s, now).status),
        settled_log(source, s, now).status == crate::models::status_completed()
            <==> s.outcome is Ok,
        settled_log(source, s, now).completed_at == Some(now),
{
    reveal_strlit("running");
    reveal_strlit("completed");
    reveal_strlit("failed");
    assert("running"@.len() == 7);
    assert("completed"@.len() == 9);
    assert("failed"@.len() == 6);
}

/// When a pass is closed no task is in flight, whatever the record named
/// before and whether or not a source was collected from; enablement and
/// the running flag stay as they are.
pub proof fn lemma_closed_pass_names_no_task(
    c: ScheduledTaskConfigView,
    kind: PassKind,
    interval_hours: int,
    now: int,
)
    ensures
        apply_config_update(c, closing_update(kind, interval_hours, now)).current_task_id is None,
        state_of(apply_config_update(c, closing_update(kind, interval_hours, now))) == state_of(
            c,
        ),
{
}

/// A pass attempts every source it was given, whatever the sources report:
/// when it is over, the sources that succeeded and those that failed add up
/// to all of them.
pub proof fn lemma_pass_attempts_every_source(p: CollectionPassView, script: Seq<SourceScriptView>)
    requires
        p.cursor <= p.sources.len(),
        p.succeeded + p.failed == p.cursor,
    ensures
        pass_after_script(p, script).cursor == p.sources.len(),
        pass_after_script(p, script).succeeded + pass_after_script(p, script).failed
            == p.sources.len(),
        pass_after_script(p, script).sources == p.sources,
        pass_after_script(p, script).kind == p.kind,
        pass_after_script(p, script).succeeded >= p.succeeded,
        pass_after_script(p, script).failed >= p.failed,
    decreases p.sources.len() - p.cursor,
{
    if p.cursor < p.sources.len() {
        lemma_pass_attempts_every_source(
            pass_after_source(p, script[p.cursor as int].outcome),
            script,
        );
    }
}

/// A pass leaves one closed row in the log for each of its sources, in the
/// order of the sources, whether the source succeeded or failed, and
/// changes no other row. This holds where no open row in the log carries a
/// task identifier of the pass already.
pub proof fn lemma_pass_appends_one_row_per_source(
    logs: Seq<TaskExecutionLogView>,
    sources: Seq<CollectionView>,
    script: Seq<SourceScriptView>,
    now: int,
    from: nat,
)
    requires
        from <= sources.len(),
        script.len() == sources.len(),
        forall|i: int, j: int|
            from <= i < script.len() && 0 <= j < logs.len() ==> !is_open_row(
                #[trigger] logs[j],
                #[trigger] script[i].task_id,
            ),
    ensures
        logs_after_pass(logs, sources, script, now, from) == logs + settled_logs(
            sources,
            script,
            now,
            from,
        ),
    decreases sources.len() - from,
{
    if from >= sources.len() {
        assert(logs + settled_logs(sources, script, now, from) =~= logs);
    } else {
        let s = script[from as int];
        let source = sources[from as int];
        let row = running_log(
            s.task_id,
            logged_source_id(source, s.spare_id),
            source.collect_name,
            now,
        );
        let opened = logs.push(row);
        assert forall|j: int| 0 <= j < logs.len() implies !is_open_row(
            #[trigger] opened[j],
            s.task_id,
        ) by {
            assert(opened[j] == logs[j]);
            assert(!is_open_row(logs[j], script[from as int].task_id));
        }
        lemma_first_open_row_skips(opened, s.task_id, 0, logs.len() as int);
        assert(is_open_row(opened[logs.len() as int], s.task_id));
        assert(first_open_row(opened, s.task_id, 0) == logs.len());
        let closed = logs_after_source(logs, source, s, now);
        assert(closed =~= logs.push(settled_log(source, s, now)));
        lemma_settled_log_is_closed(source, s, now);
        assert forall|i: int, j: int|
            from + 1 <= i < script.len() && 0 <= j < closed.len() implies !is_open_row(
            #[trigger] closed[j],
            #[trigger] script[i].task_id,
        ) by {
            if j < logs.len() {
                assert(closed[j] == logs[j]);
                assert(!is_open_row(logs[j], script[i].task_id));
            }
        }
        lemma_pass_appends_one_row_per_source(closed, sources, script, now, from + 1);
        assert(logs + settled_logs(sources, script, now, from) =~= closed + settled_logs(
            sources,
            script,
            now,
            from + 1,
        ));
    }
}

/// What a start under `task_id` at `now` makes of the store `before`, with
/// the sources reporting as `script` says.
///
/// Where an execution is in progress already, nothing changes. Where there
/// is no scheduler record, nothing can be marked and the start fails. Else
/// the scheduler is left enabled and running with no task in flight, and
/// every enabled source has been collected from once; where no source is
/// enabled the pass is empty and the log stays as it is.
pub open spec fn start_effect(
    before: ScheduledTaskManagerView,
    after: ScheduledTaskManagerView,
    r: Result<StartReport, SchedulerError>,
    task_id: Seq<char>,
    script: Seq<SourceScriptView>,
    now: int,
) -> bool {
    match before.config {
        None => r matches Err(SchedulerError::StateNotUpdated) && after == before,
        Some(c) => if c.is_running {
            r matches Ok(StartReport::AlreadyRunning) && after == before
        } else {
            r matches Ok(StartReport::Ran(summary)) && summary == summary_of(
                pass_after_script(
                    fresh_pass(PassKind::Immediate, 0, enabled_of(before.sources)),
                    script,
                ),
            ) && after == (ScheduledTaskManagerView {
                config: Some(
                    apply_config_update(
                        apply_config_update(c, launch_update(task_id, now)),
                        clear_task_update(now),
                    ),
                ),
                logs: logs_after_pass(before.logs, enabled_of(before.sources), script, now, 0),
                sources: before.sources,
            })
        },
    }
}

/// Whether a start finds a record that it can mark: one that exists and is
/// not running. Only such a start runs a pass.
pub open spec fn start_launches(m: ScheduledTaskManagerView) -> bool {
    m.config matches Some(c) && !c.is_running
}

/// A start that goes through leaves the scheduler running, enabled and
/// with no task in flight, whether or not a source is enabled; without an
/// enabled source it leaves the log as it is.
pub proof fn lemma_start_ends_running(
    before: ScheduledTaskManagerView,
    after: ScheduledTaskManagerView,
    r: Result<StartReport, SchedulerError>,
    task_id: Seq<char>,
    script: Seq<SourceScriptView>,
    now: int,
)
    requires
        start_launches(before),
        script_fits(before, script),
        start_effect(before, after, r, task_id, script, now),
    ensures
        r matches Ok(StartReport::Ran(_)),
        after.config matches Some(c) && c.is_running && c.enabled && c.current_task_id is None
            && state_of(c) == SchedulerState::Running,
        script.len() == 0 ==> after.logs == before.logs,
{
}

/// The scheduler record after a partial write. A store without a record
/// stays without one: the write creates nothing.
pub open spec fn write_config(
    c: Option<ScheduledTaskConfigView>,
    u: ConfigUpdateView,
) -> Option<ScheduledTaskConfigView> {
    match c {
        Some(c) => Some(apply_config_update(c, u)),
        None => None,
    }
}

/// Whether a row is the target of a closing write for `task_id`: it carries
/// that identifier and is still running.
pub open spec fn is_open_row(row: TaskExecutionLogView, task_id: Seq<char>) -> bool {
    row.task_id == task_id && row.status == status_running()
}

/// The condition of being an open row for `task_id`.
pub open spec fn open_row_for(task_id: Seq<char>) -> spec_fn(TaskExecutionLogView) -> bool {
    |row: TaskExecutionLogView| is_open_row(row, task_id)
}

/// The index of the first open row for `task_id` at or after `from`, or the
/// number of rows where there is none.
pub open spec fn first_open_row(
    logs: Seq<TaskExecutionLogView>,
    task_id: Seq<char>,
    from: int,
) -> int {
    first_where(logs, open_row_for(task_id), from)
}

/// The log after a closing write for `task_id`: the first open row with that
/// identifier takes the write, every other row stays as it is.
pub open spec fn close_first_open(
    logs: Seq<TaskExecutionLogView>,
    task_id: Seq<char>,
    u: LogUpdateView,
) -> Seq<TaskExecutionLogView> {
    let i = first_open_row(logs, task_id, 0);
    if i < logs.len() {
        logs.update(i, apply_log_update(logs[i], u))
    } else {
        logs
    }
}

/// Where no row from `from` up to `i` is open, the search from `from` gives
/// what the search from `i` gives.
pub proof fn lemma_first_open_row_skips(
    logs: Seq<TaskExecutionLogView>,
    task_id: Seq<char>,
    from: int,
    i: int,
)
    requires
        0 <= from <= i <= logs.len(),
        forall|j: int| from <= j < i ==> !is_open_row(#[trigger] logs[j], task_id),
    ensures
        first_open_row(logs, task_id, from) == first_open_row(logs, task_id, i),
{
    lemma_first_where_skips(logs, open_row_for(task_id), from, i);
}

impl ScheduledTaskManager {
    /// A store with the given sources, without a scheduler record and
    /// without log rows.
    pub fn new(sources: Vec<Collection>) -> (m: ScheduledTaskManager)
        ensures
            m@.config is None,
            m@.logs == Seq::<TaskExecutionLogView>::empty(),
            m@.sources == views(sources@),
    {
        let m = ScheduledTaskManager { config: None, logs: Vec::new(), sources };
        assert(m@.logs =~= Seq::<TaskExecutionLogView>::empty());
        m
    }

    /// A copy of the scheduler record, if there is one.
    pub fn get_config(&self) -> (c: Option<ScheduledTaskConfig>)
        ensures
            opt_config_view(c) == self@.config,
    {
        match &self.config {
            Some(c) => Some(c.clone()),
            None => None,
        }
    }

    /// Carries out a partial write on the scheduler record and says whether
    /// a record was changed by it.
    pub fn write_config(&mut self, u: &ConfigUpdate) -> (modified: bool)
        ensures
            final(self)@ == (ScheduledTaskManagerView {
                config: write_config(old(self)@.config, u@),
                ..old(self)@
            }),
            modified == (old(self)@.config is Some && final(self)@.config != old(self)@.config),
    {
        let found = self.config.take();
        match found {
            Some(mut c) => {
                let before = c.clone();
                c.apply(u);
                let modified = !c.same_as(&before);
                self.config = Some(c);
                modified
            },
            None => {
                self.config = None;
                false
            },
        }
    }

    /// Makes sure that a scheduler record exists: where there is none, the
    /// initial record is created; where there is one, only the time of
    /// writing changes.
    pub fn initialize_config_at(&mut self, now: i64)
        ensures
            final(self)@ == initialized(old(self)@, now as int),
    {
        if self.config.is_none() {
            self.config = Some(ScheduledTaskConfig::initial(now));
        } else {
            let _ = self.write_config(&ConfigUpdate::touch(now));
        }
    }

    /// Reconfigures the scheduler and says whether a record was changed.
    /// Whatever the record held, afterwards it is not running, names no
    /// task, and has its next run one interval after `now`; it is armed if
    /// `enabled`, idle if not.
    pub fn update_config_at(
        &mut self,
        enabled: bool,
        interval_hours: Option<i32>,
        now: i64,
    ) -> (modified: bool)
        ensures
            final(self)@ == reconfigured(
                old(self)@,
                enabled,
                opt_count(interval_hours),
                now as int,
            ),
            modified == (old(self)@.config is Some && final(self)@.config != old(self)@.config),
            final(self)@.config matches Some(c) ==> state_of(c) == if enabled {
                SchedulerState::Armed
            } else {
                SchedulerState::Idle
            },
    {
        self.write_config(&ConfigUpdate::reconfigure(enabled, interval_hours, now))
    }

    /// Stops the scheduler: disabled, not running, no task in flight.
    pub fn clear_task_status(&mut self, now: i64)
        ensures
            final(self)@ == (ScheduledTaskManagerView {
                config: write_config(old(self)@.config, halt_update(now as int)),
                ..old(self)@
            }),
            final(self)@.config matches Some(c) ==> state_of(c) == SchedulerState::Idle
                && c.current_task_id is None,
    {
        let _ = self.write_config(&ConfigUpdate::halt(now));
    }

    /// Says that no source execution is in flight, and leaves the running
    /// flag as it is.
    pub fn clear_current_task(&mut self, now: i64)
        ensures
            final(self)@ == (ScheduledTaskManagerView {
                config: write_config(
                    old(self)@.config,
                    clear_task_update(now as int),
                ),
                ..old(self)@
            }),
    {
        let _ = self.write_config(&ConfigUpdate::clear_task(now));
    }

    /// Stops the scheduler: afterwards it is disabled, not running, and no
    /// task is in flight. Where the record is found so already, nothing is
    /// written.
    pub fn stop_scheduled_task_at(&mut self, now: i64)
        ensures
            final(self)@ == stopped(old(self)@, now as int),
            final(self)@.config matches Some(c) ==> state_of(c) == SchedulerState::Idle
                && c.current_task_id is None,
    {
        let read: Result<Option<ScheduledTaskConfig>, String> = Ok(self.get_config());
        match decide_stop(&read, now) {
            Ok(Some(u)) => {
                let _ = self.write_config(&u);
            },
            _ => {},
        }
    }

    /// The enabled sources of the registry, in their order.
    pub fn enabled_sources(&self) -> (enabled: Vec<Collection>)
        ensures
            views(enabled@) == enabled_of(self@.sources),
    {
        let mut enabled: Vec<Collection> = Vec::new();
        let mut i: usize = 0;
        assert(views(self.sources@.subrange(0, 0)) =~= Seq::<CollectionView>::empty());
        assert(views(enabled@) =~= Seq::<CollectionView>::empty());
        while i < self.sources.len()
            invariant
                i <= self.sources.len(),
                views(enabled@) == enabled_of(views(self.sources@.subrange(0, i as int))),
            decreases self.sources.len() - i,
        {
            let ghost before = views(self.sources@.subrange(0, i as int));
            let ghost after = views(self.sources@.subrange(0, i + 1));
            proof {
                assert(after.drop_last() =~= before);
                assert(after.last() == self.sources@[i as int]@);
            }
            if self.sources[i].collect_status == 1 {
                let ghost kept = views(enabled@);
                enabled.push(self.sources[i].clone());
                assert(views(enabled@) =~= kept.push(self.sources@[i as int]@));
            }
            i = i + 1;
        }
        assert(self.sources@.subrange(0, self.sources.len() as int) =~= self.sources@);
        enabled
    }

    /// Runs what is left of a pass against this store, taking identifiers
    /// and collector outcomes from `script`, one entry for each source of
    /// the pass. Each source gets its row, whatever its outcome.
    fn run_pass(&mut self, pass: CollectionPass, script: &Vec<SourceScript>, now: i64) -> (end:
        PassEnd)
        requires
            !pass_stops(old(self)@.config) ==> script@.len() == pass@.sources.len(),
        ensures
            final(self)@.sources == old(self)@.sources,
            final(self)@.logs == if pass_stops(old(self)@.config) {
                old(self)@.logs
            } else {
                logs_after_pass(
                    old(self)@.logs,
                    pass@.sources,
                    views(script@),
                    now as int,
                    pass@.cursor,
                )
            },
            final(self)@.config == finish_config(
                old(self)@.config,
                pass@.kind,
                pass@.interval_hours,
                now as int,
            ),
            end.summary == summary_of(
                if pass_stops(old(self)@.config) {
                    pass@
                } else {
                    pass_after_script(pass@, views(script@))
                },
            ),
            end.stopped_early == (pass_stops(old(self)@.config) && pass@.cursor
                < pass@.sources.len()),
            end.closing@ == closing_update(pass@.kind, pass@.interval_hours, now as int),
        decreases pass@.sources.len() - pass@.cursor,
    {
        let observed = match &self.config {
            Some(c) => Some(c.is_running),
            None => None,
        };
        let at = pass.position();
        let ghost p = pass@;
        let ghost c0 = old(self)@.config;
        let stopped = match observed {
            Some(running) => !running,
            None => false,
        };
        let step = if pass.has_next() && !stopped {
            pass.advance_with(
                observed,
                script[at].task_id.as_str(),
                script[at].spare_id.as_str(),
                now,
            )
        } else {
            pass.advance_with(observed, "", "", now)
        };
        match step {
            PassProgress::Finished(end) => {
                let _ = self.write_config(&end.closing);
                end
            },
            PassProgress::Source(run, start) => {
                let ghost s = script@[at as int]@;
                assert(views(script@)[at as int] == s);
                self.insert_log(start.log);
                let _ = self.write_config(&start.mark);
                let (next, fin) = run.settle(&script[at].outcome, now);
                self.close_log(fin.task_id.as_str(), &fin.log_update);
                let _ = self.write_config(&fin.clear);
                proof {
                    let marked = write_config(c0, mark_task_update(s.task_id, now as int));
                    let cleared = write_config(c0, clear_task_update(now as int));
                    assert(self@.config == write_config(marked, clear_task_update(now as int)));
                    assert(self@.config == cleared);
                    assert(write_config(cleared, clear_task_update(now as int)) == cleared);
                    assert(pass_stops(cleared) == pass_stops(c0));
                    assert(self@.logs == logs_after_source(
                        old(self)@.logs,
                        p.sources[at as int],
                        s,
                        now as int,
                    ));
                    assert(next@ == pass_after_source(p, s.outcome));
                }
                self.run_pass(next, script, now)
            },
        }
    }

    /// Runs a scheduled pass. The script must fit the sources unless the
    /// scheduler is found not to be running.
    fn scheduled_pass(
        &mut self,
        interval_hours: i32,
        script: &Vec<SourceScript>,
        now: i64,
    ) -> (end: PassEnd)
        requires
            !pass_stops(old(self)@.config) ==> script_fits(old(self)@, views(script@)),
        ensures
            scheduled_pass_effect(
                old(self)@,
                final(self)@,
                end,
                interval_hours as int,
                views(script@),
                now as int,
            ),
    {
        let pass = CollectionPass::new(PassKind::Scheduled, interval_hours, self.enabled_sources());
        self.run_pass(pass, script, now)
    }

    /// Runs a scheduled pass over the enabled sources against this store,
    /// with the sources reporting as `script` says. Whatever they report,
    /// the pass ends by recording the time of this run and of the next. The
    /// record is looked at first: only a pass that collects asks for a
    /// script with one entry for each enabled source, and does nothing
    /// where the script does not fit.
    pub fn execute_scheduled_collection_at(
        &mut self,
        interval_hours: i32,
        script: &Vec<SourceScript>,
        now: i64,
    ) -> (r: Option<PassEnd>)
        ensures
            match r {
                Some(end) => scheduled_pass_effect(
                    old(self)@,
                    final(self)@,
                    end,
                    interval_hours as int,
                    views(script@),
                    now as int,
                ),
                None => final(self)@ == old(self)@,
            },
            r is None <==> !pass_stops(old(self)@.config) && !script_fits(
                old(self)@,
                views(script@),
            ),
    {
        let stopped = match &self.config {
            Some(c) => !c.is_running,
            None => false,
        };
        if !stopped && script.len() != self.enabled_sources().len() {
            return None;
        }
        Some(self.scheduled_pass(interval_hours, script, now))
    }

    /// Runs an immediate pass. The script must fit the sources unless the
    /// scheduler is found not to be running.
    fn immediate_pass(
        &mut self,
        task_id: &str,
        script: &Vec<SourceScript>,
        now: i64,
    ) -> (end: PassEnd)
        requires
            !pass_stops(old(self)@.config) ==> script_fits(old(self)@, views(script@)),
        ensures
            immediate_pass_effect(
                old(self)@,
                final(self)@,
                end,
                task_id@,
                views(script@),
                now as int,
            ),
    {
        let _ = self.write_config(&ConfigUpdate::mark_task(task_id, now));
        let pass = CollectionPass::new(PassKind::Immediate, 0, self.enabled_sources());
        let ghost marked = self@.config;
        let end = self.run_pass(pass, script, now);
        proof {
            assert(pass_stops(marked) == pass_stops(old(self)@.config));
            assert(write_config(marked, clear_task_update(now as int)) == write_config(
                old(self)@.config,
                clear_task_update(now as int),
            ));
        }
        end
    }

    /// Runs an immediate pass over the enabled sources against this store,
    /// after naming `task_id` as the task in flight, with the sources
    /// reporting as `script` says. When the pass ends no task is in flight,
    /// whether or not a source was collected from. The run times of the
    /// scheduler are left as they are. The record is looked at first: only a pass that collects
    /// asks for a script with one entry for each enabled source, and does
    /// nothing where the script does not fit.
    pub fn execute_immediate_collection_at(
        &mut self,
        task_id: &str,
        script: &Vec<SourceScript>,
        now: i64,
    ) -> (r: Option<PassEnd>)
        ensures
            match r {
                Some(end) => immediate_pass_effect(
                    old(self)@,
                    final(self)@,
                    end,
                    task_id@,
                    views(script@),
                    now as int,
                ),
                None => final(self)@ == old(self)@,
            },
            r is None <==> !pass_stops(old(self)@.config) && !script_fits(
                old(self)@,
                views(script@),
            ),
    {
        let stopped = match &self.config {
            Some(c) => !c.is_running,
            None => false,
        };
        if !stopped && script.len() != self.enabled_sources().len() {
            return None;
        }
        Some(self.immediate_pass(task_id, script, now))
    }

    /// Starts the scheduler, step by step as a scheduler over any other
    /// store would. The script must fit the sources where the start gets as
    /// far as the pass.
    fn start_task(&mut self, task_id: &str, script: &Vec<SourceScript>, now: i64) -> (r: Result<
        StartReport,
        SchedulerError,
    >)
        requires
            start_launches(old(self)@) ==> script_fits(old(self)@, views(script@)),
        ensures
            start_effect(old(self)@, final(self)@, r, task_id@, views(script@), now as int),
    {
        let read: Result<Option<ScheduledTaskConfig>, String> = Ok(self.get_config());
        let launch = match decide_start(&read, task_id, now) {
            Ok(StartDecision::AlreadyRunning) => {
                return Ok(StartReport::AlreadyRunning);
            },
            Ok(StartDecision::Launch(launch)) => launch,
            Err(e) => {
                return Err(e);
            },
        };
        let modified = self.write_config(&launch.update);
        let started = match launch.on_persisted(&Ok(modified)) {
            Ok(started) => started,
            Err(e) => {
                return Err(e);
            },
        };
        let end = self.immediate_pass(started.task_id.as_str(), script, now);
        let _ = self.write_config(&StartedTask::finish(now));
        Ok(StartReport::Ran(end.summary))
    }

    /// Starts the scheduler under `task_id` and runs its immediate pass,
    /// with the sources reporting as `script` says.
    ///
    /// Where an execution is in progress already, this does nothing at all.
    /// Where there is no scheduler record, nothing can be marked and the
    /// start fails. Else every enabled source is collected from once, and
    /// the scheduler is left running with no task in flight, also where no
    /// source is enabled. The record is looked at first: only a start that
    /// gets as far as the pass asks for a script with one entry for each
    /// enabled source, and does nothing where the script does not fit.
    pub fn start_scheduled_task_at(
        &mut self,
        task_id: &str,
        script: &Vec<SourceScript>,
        now: i64,
    ) -> (r: Option<Result<StartReport, SchedulerError>>)
        ensures
            match r {
                Some(report) => start_effect(
                    old(self)@,
                    final(self)@,
                    report,
                    task_id@,
                    views(script@),
                    now as int,
                ),
                None => final(self)@ == old(self)@,
            },
            r is None <==> start_launches(old(self)@) && !script_fits(old(self)@, views(script@)),
    {
        let launches = match &self.config {
            Some(c) => !c.is_running,
            None => false,
        };
        if launches && script.len() != self.enabled_sources().len() {
            return None;
        }
        Some(self.start_task(task_id, script, now))
    }

    /// One tick of the poll loop against this store, with the sources
    /// reporting as `script` says: where the next run time has come, a
    /// scheduled pass runs. The record is looked at first: only a tick that
    /// runs a pass asks for a script with one entry for each enabled source,
    /// and does nothing where the script does not fit.
    pub fn poll_at(&mut self, script: &Vec<SourceScript>, now: i64) -> (r: Option<PollDecision>)
        ensures
            match r {
                Some(d) => poll_effect(old(self)@, final(self)@, d, views(script@), now as int),
                None => final(self)@ == old(self)@,
            },
            r is None <==> poll_runs_pass(old(self)@, now as int) && !script_fits(
                old(self)@,
                views(script@),
            ),
    {
        let read: Result<Option<ScheduledTaskConfig>, String> = Ok(self.get_config());
        let d = poll_decision(&read, now);
        if let PollDecision::RunPass { interval_hours } = d {
            if script.len() != self.enabled_sources().len() {
                return None;
            }
            let _ = self.scheduled_pass(interval_hours, script, now);
        }
        Some(d)
    }

    /// Makes sure that a scheduler record exists, at the time that the
    /// clock shows.
    pub fn initialize_config(&mut self)
        ensures
            exists|now: int|
                i64::MIN <= now <= i64::MAX && final(self)@ == #[trigger] initialized(
                    old(self)@,
                    now,
                ),
    {
        let now = now_millis();
        self.initialize_config_at(now);
        assert(final(self)@ == initialized(old(self)@, now as int));
    }

    /// Reconfigures the scheduler at the time that the clock shows, and
    /// says whether a record was changed. Whatever the clock shows,
    /// afterwards the record is not running and names no task; it is armed
    /// if `enabled`, idle if not.
    pub fn update_config(&mut self, enabled: bool, interval_hours: Option<i32>) -> (modified: bool)
        ensures
            exists|now: int|
                i64::MIN <= now <= i64::MAX && final(self)@ == #[trigger] reconfigured(
                    old(self)@,
                    enabled,
                    opt_count(interval_hours),
                    now,
                ),
            modified == (old(self)@.config is Some && final(self)@.config != old(self)@.config),
            final(self)@.config matches Some(c) ==> !c.is_running && c.current_task_id is None
                && state_of(c) == if enabled {
                SchedulerState::Armed
            } else {
                SchedulerState::Idle
            },
    {
        let now = now_millis();
        let modified = self.update_config_at(enabled, interval_hours, now);
        assert(final(self)@ == reconfigured(
            old(self)@,
            enabled,
            opt_count(interval_hours),
            now as int,
        ));
        modified
    }

    /// Stops the scheduler at the time that the clock shows.
    pub fn stop_scheduled_task(&mut self)
        ensures
            exists|now: int|
                i64::MIN <= now <= i64::MAX && final(self)@ == #[trigger] stopped(old(self)@, now),
            final(self)@.config matches Some(c) ==> state_of(c) == SchedulerState::Idle
                && c.current_task_id is None,
    {
        let now = now_millis();
        self.stop_scheduled_task_at(now);
        assert(final(self)@ == stopped(old(self)@, now as int));
    }

    /// Starts the scheduler at the time that the clock shows, under newly
    /// drawn task identifiers, and runs its immediate pass with the sources
    /// reporting `outcomes`.
    ///
    /// Where an execution is in progress already, this does nothing at all:
    /// no record is written, no poll loop is to be started, and the task
    /// in flight keeps its identifier. Where there is no scheduler record
    /// the start fails. The record is looked at first: only a start that
    /// gets as far as the pass asks for one outcome for each enabled source,
    /// and does nothing where the outcomes do not fit.
    pub fn start_scheduled_task(&mut self, outcomes: &Vec<Result<i32, String>>) -> (r: Option<
        Result<StartReport, SchedulerError>,
    >)
        ensures
            r is None <==> start_launches(old(self)@) && outcomes@.len() != enabled_of(
                old(self)@.sources,
            ).len(),
            r is None ==> final(self)@ == old(self)@,
            r matches Some(report) ==> exists|
                task_id: Seq<char>,
                script: Seq<SourceScriptView>,
                now: int,
            |
                task_id.len() == 24 && script.len() == outcomes@.len() && (forall|i: int|
                    0 <= i < script.len() ==> (#[trigger] script[i]).outcome == outcome_view(
                        outcomes@[i],
                    ) && script[i].task_id.len() == 24 && script[i].spare_id.len() == 24)
                    && #[trigger] start_effect(
                    old(self)@,
                    final(self)@,
                    report,
                    task_id,
                    script,
                    now,
                ),
            (old(self)@.config matches Some(c) && c.is_running) ==> (r matches Some(
                Ok(StartReport::AlreadyRunning),
            ) && final(self)@ == old(self)@),
            old(self)@.config is None ==> (r matches Some(Err(SchedulerError::StateNotUpdated))
                && final(self)@ == old(self)@),
    {
        let launches = match &self.config {
            Some(c) => !c.is_running,
            None => false,
        };
        if launches && outcomes.len() != self.enabled_sources().len() {
            return None;
        }
        let now = now_millis();
        let task_id = fresh_object_id();
        let mut script: Vec<SourceScript> = Vec::new();
        let mut i: usize = 0;
        while i < outcomes.len()
            invariant
                i <= outcomes.len(),
                script@.len() == i,
                forall|k: int|
                    0 <= k < i ==> (#[trigger] script@[k])@.outcome == outcome_view(outcomes@[k])
                        && script@[k]@.task_id.len() == 24 && script@[k]@.spare_id.len() == 24,
            decreases outcomes.len() - i,
        {
            let outcome = match &outcomes[i] {
                Ok(n) => Ok(*n),
                Err(e) => Err(e.clone()),
            };
            script.push(
                SourceScript { task_id: fresh_object_id(), spare_id: fresh_object_id(), outcome },
            );
            i = i + 1;
        }
        let r = self.start_task(task_id.as_str(), &script, now);
        proof {
            let told = views(script@);
            assert forall|k: int| 0 <= k < told.len() implies (#[trigger] told[k]).outcome
                == outcome_view(outcomes@[k]) && told[k].task_id.len() == 24
                && told[k].spare_id.len() == 24 by {
                assert(told[k] == script@[k]@);
            }
            assert(start_effect(old(self)@, final(self)@, r, task_id@, told, now as int));
        }
        Some(r)
    }

    /// Appends a row to the log.
    pub fn insert_log(&mut self, row: TaskExecutionLog)
        ensures
            final(self)@ == (ScheduledTaskManagerView {
                logs: old(self)@.logs.push(row@),
                ..old(self)@
            }),
    {
        self.logs.push(row);
        assert(views(self.logs@) =~= views(old(self).logs@).push(row@));
    }

    /// Closes the first open row that carries `task_id`. A row that has
    /// reached its end is never written again.
    pub fn close_log(&mut self, task_id: &str, u: &LogUpdate)
        ensures
            final(self)@ == (ScheduledTaskManagerView {
                logs: close_first_open(old(self)@.logs, task_id@, u@),
                ..old(self)@
            }),
    {
        let ghost rows = views(self.logs@);
        let mut i: usize = 0;
        while i < self.logs.len()
            invariant
                i <= self.logs.len(),
                *self == *old(self),
                rows == views(self.logs@),
                forall|j: int| 0 <= j < i ==> !is_open_row(#[trigger] rows[j], task_id@),
            decreases self.logs.len() - i,
        {
            let hit = str_equal(self.logs[i].task_id.as_str(), task_id)
                && self.logs[i].is_running();
            if hit {
                let mut row = self.logs[i].clone();
                row.close(u);
                self.logs.set(i, row);
                proof {
                    assert(is_open_row(rows[i as int], task_id@));
                    lemma_first_open_row_skips(rows, task_id@, 0, i as int);
                    assert(first_open_row(rows, task_id@, 0) == i);
                    assert(views(self.logs@) =~= rows.update(
                        i as int,
                        apply_log_update(rows[i as int], u@),
                    ));
                }
                return ;
            }
            i = i + 1;
        }
        proof {
            lemma_first_open_row_skips(rows, task_id@, 0, rows.len() as int);
        }
    }
}

} // verus!
