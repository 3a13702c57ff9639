//! The decisions of the scheduler between two visits to the store: whether
//! to start, whether to stop, what a tick of the poll loop does, and how an
//! immediate pass is set up. A start that the store has taken leaves the
//! scheduler running, whether or not there is a source to collect from.

use vstd::prelude::*;
use crate::collection_pass::{CollectionPass, CollectionPassView, PassKind};
use crate::models::{views, Collection};
use crate::scheduled_task::{
    clear_task_update, halt_update, launch_update, mark_task_update, ConfigUpdate,
    ScheduledTaskConfig, ScheduledTaskConfigView,
};

verus! {

/// A failure of a scheduler operation.
#[derive(Debug)]
pub enum SchedulerError {
    /// The write that marks the scheduler as started changed no record.
    StateNotUpdated,
    /// The store failed; the text is its own.
    Store(String),
    /// The collection sources could not be read; the text is the store's.
    SourcesUnavailable(String),
}

/// The text of a scheduler failure.
pub open spec fn scheduler_error_text(e: SchedulerError) -> Seq<char> {
    match e {
        SchedulerError::StateNotUpdated => "更新任务状态失败"@,
        SchedulerError::Store(d) => d@,
        SchedulerError::SourcesUnavailable(d) => d@,
    }
}

impl SchedulerError {
    /// The failure as text.
    pub fn message(&self) -> (m: String)
        ensures
            m@ == scheduler_error_text(*self),
    {
        match self {
            SchedulerError::StateNotUpdated => String::from_str("更新任务状态失败"),
            SchedulerError::Store(d) => d.clone(),
            SchedulerError::SourcesUnavailable(d) => d.clone(),
        }
    }
}

/// What `start` does after it has read the scheduler record.
pub enum StartDecision {
    /// The record says that an execution is in progress: nothing is written,
    /// no poll loop is started, the task identifier stays as it is.
    AlreadyRunning,
    /// The scheduler is to be started.
    Launch(StartLaunch),
}

/// A start that has been decided and is to be written to the store.
pub struct StartLaunch {
    pub task_id: String,
    /// The write that marks the scheduler as running under `task_id`.
    pub update: ConfigUpdate,
}

/// A start that the store has taken: the scheduler is running. The poll
/// loop is to be started now, and the immediate pass is to be run: the mark
/// is written, the enabled sources are loaded and collected from, and the
/// task in flight is cleared. The pass may be empty; the scheduler stays
/// running all the same.
pub struct StartedTask {
    pub task_id: String,
}

/// What a tick of the poll loop does.
#[derive(Debug, Clone, Copy, PartialEq, Eq, Structural)]
pub enum PollDecision {
    /// The scheduler was disabled or stopped: the loop ends.
    Exit,
    /// Nothing is due, or the record could not be read: wait for the next tick.
    Wait,
    /// The next run time has come: run a scheduled pass, then wait.
    RunPass { interval_hours: i32 },
}

/// Whether a read of the scheduler record found an execution in progress.
pub open spec fn found_running(read: Result<Option<ScheduledTaskConfig>, String>) -> bool {
    read matches Ok(Some(c)) && c.is_running
}

/// Whether a scheduler record is fully stopped: disabled, not running, and
/// with no task in flight.
pub open spec fn is_stopped(c: ScheduledTaskConfigView) -> bool {
    !c.enabled && !c.is_running && c.current_task_id is None
}

/// Whether a read of the scheduler record found it fully stopped already.
pub open spec fn found_stopped(read: Result<Option<ScheduledTaskConfig>, String>) -> bool {
    read matches Ok(Some(c)) && is_stopped(c@)
}

/// What a tick does with a scheduler record at `now`.
pub open spec fn poll_of(c: ScheduledTaskConfigView, now: int) -> PollDecision {
    if !c.enabled || !c.is_running {
        PollDecision::Exit
    } else if c.next_run matches Some(due) && now >= due {
        PollDecision::RunPass { interval_hours: c.interval_hours as i32 }
    } else {
        PollDecision::Wait
    }
}

/// Decides whether `start` starts anything. It does so unless the record
/// says that an execution is already in progress.
pub fn decide_start(
    read: &Result<Option<ScheduledTaskConfig>, String>,
    task_id: &str,
    now: i64,
) -> (r: Result<StartDecision, SchedulerError>)
    ensures
        read matches Err(e) ==> (r matches Err(SchedulerError::Store(d)) && d@ == e@),
        read is Ok && found_running(*read) ==> r matches Ok(StartDecision::AlreadyRunning),
        read is Ok && !found_running(*read) ==> (r matches Ok(StartDecision::Launch(l))
            && l.task_id@ == task_id@ && l.update@ == launch_update(task_id@, now as int)),
{
    match read {
        Err(e) => Err(SchedulerError::Store(e.clone())),
        Ok(found) => {
            let running = match found {
                Some(c) => c.is_running,
                None => false,
            };
            if running {
                Ok(StartDecision::AlreadyRunning)
            } else {
                Ok(
                    StartDecision::Launch(
                        StartLaunch {
                            task_id: String::from_str(task_id),
                            update: ConfigUpdate::launch(task_id, now),
                        },
                    ),
                )
            }
        },
    }
}

impl StartLaunch {
    /// Takes the outcome of the launch write: whether it changed a record.
    /// A write that failed or changed nothing ends the start with an error.
    pub fn on_persisted(self, outcome: &Result<bool, String>) -> (r: Result<
        StartedTask,
        SchedulerError,
    >)
        ensures
            outcome matches Err(e) ==> (r matches Err(SchedulerError::Store(d)) && d@ == e@),
            outcome matches Ok(false) ==> r matches Err(SchedulerError::StateNotUpdated),
            outcome matches Ok(true) ==> (r matches Ok(t) && t.task_id@ == self.task_id@),
    {
        match outcome {
            Err(e) => Err(SchedulerError::Store(e.clone())),
            Ok(false) => Err(SchedulerError::StateNotUpdated),
            Ok(true) => Ok(StartedTask { task_id: self.task_id }),
        }
    }
}

impl StartedTask {
    /// The write that names the start's task as the one in flight.
    pub fn mark(&self, now: i64) -> (u: ConfigUpdate)
        ensures
            u@ == mark_task_update(self.task_id@, now as int),
    {
        ConfigUpdate::mark_task(self.task_id.as_str(), now)
    }

    /// Sets up the immediate pass over the sources that were loaded. No
    /// source gives an empty pass, and sources that could not be loaded give
    /// none; the start goes on either way.
    pub fn begin(self, loaded: Result<Vec<Collection>, String>) -> (r: Result<
        CollectionPass,
        SchedulerError,
    >)
        ensures
            loaded matches Err(e) ==> (r matches Err(SchedulerError::SourcesUnavailable(d))
                && d@ == e@),
            loaded matches Ok(sources) ==> (r matches Ok(pass) && pass@ == (CollectionPassView {
                kind: PassKind::Immediate,
                interval_hours: 0,
                sources: views(sources@),
                cursor: 0,
                succeeded: 0,
                failed: 0,
                videos: 0,
            })),
    {
        begin_pass(PassKind::Immediate, 0, loaded)
    }

    /// The write that closes the start once the immediate pass is over, or
    /// could not be set up: no task is in flight, and the scheduler stays
    /// enabled and running.
    pub fn finish(now: i64) -> (u: ConfigUpdate)
        ensures
            u@ == clear_task_update(now as int),
    {
        ConfigUpdate::clear_task(now)
    }
}

/// Sets up a pass over the sources that were loaded. Where they could not be
/// loaded there is no pass.
pub fn begin_pass(
    kind: PassKind,
    interval_hours: i32,
    loaded: Result<Vec<Collection>, String>,
) -> (r: Result<CollectionPass, SchedulerError>)
    ensures
        loaded matches Err(e) ==> (r matches Err(SchedulerError::SourcesUnavailable(d)) && d@
            == e@),
        loaded matches Ok(sources) ==> (r matches Ok(pass) && pass@ == (CollectionPassView {
            kind,
            interval_hours: interval_hours as int,
            sources: views(sources@),
            cursor: 0,
            succeeded: 0,
            failed: 0,
            videos: 0,
        })),
{
    match loaded {
        Err(e) => Err(SchedulerError::SourcesUnavailable(e)),
        Ok(sources) => Ok(CollectionPass::new(kind, interval_hours, sources)),
    }
}

/// Decides whether `stop` writes anything: nothing where the record is
/// found disabled, not running and with no task in flight already, else the
/// write that stops the scheduler and clears all three.
pub fn decide_stop(read: &Result<Option<ScheduledTaskConfig>, String>, now: i64) -> (r: Result<
    Option<ConfigUpdate>,
    SchedulerError,
>)
    ensures
        read matches Err(e) ==> (r matches Err(SchedulerError::Store(d)) && d@ == e@),
        read is Ok && found_stopped(*read) ==> r matches Ok(None),
        read is Ok && !found_stopped(*read) ==> (r matches Ok(Some(u)) && u@ == halt_update(
            now as int,
        )),
{
    match read {
        Err(e) => Err(SchedulerError::Store(e.clone())),
        Ok(found) => {
            let stopped = match found {
                Some(c) => !c.enabled && !c.is_running && c.current_task_id.is_none(),
                None => false,
            };
            if stopped {
                Ok(None)
            } else {
                Ok(Some(ConfigUpdate::halt(now)))
            }
        },
    }
}

/// Decides what a tick of the poll loop does. The loop ends once the record
/// is disabled or not running; a pass runs when `now` has reached the next
/// run time; a record that is missing or unreadable costs the tick only.
pub fn poll_decision(read: &Result<Option<ScheduledTaskConfig>, String>, now: i64) -> (d:
    PollDecision)
    ensures
        read matches Ok(Some(c)) ==> d == poll_of(c@, now as int),
        !(read matches Ok(Some(_))) ==> d == PollDecision::Wait,
{
    match read {
        Ok(Some(c)) => {
            if !c.enabled || !c.is_running {
                PollDecision::Exit
            } else {
                match c.next_run {
                    Some(due) => {
                        if now >= due {
                            PollDecision::RunPass { interval_hours: c.interval_hours }
                        } else {
                            PollDecision::Wait
                        }
                    },
                    None => PollDecision::Wait,
                }
            }
        },
        _ => PollDecision::Wait,
    }
}

} // verus!
