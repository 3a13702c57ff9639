//! The persisted scheduler: its single configuration record, the log of
//! source executions, and the rules by which both change.

use vstd::prelude::*;
use crate::models::{opt_count, opt_time};
use crate::text::{
    clone_opt_opt_text, clone_opt_text, clone_texts, joined, opt_opt_text, opt_text,
    opt_text_equal, signed_decimal, signed_decimal_text, str_equal, texts, texts_equal,
};

verus! {

/// Milliseconds in one hour.
pub const MILLIS_PER_HOUR: i64 = 3_600_000;

/// The interval between passes when none is given.
pub const DEFAULT_INTERVAL_HOURS: i32 = 12;

/// Seconds between two looks of the poll loop at the scheduler record.
pub const POLL_SECONDS: u64 = 60;

/// Seconds of rest after each source, to spare the sources.
pub const SOURCE_PAUSE_SECONDS: u64 = 5;

/// How far back a pass asks each source to look, in hours.
pub const LOOKBACK_HOURS: u32 = 24;

/// Number of rows that a log query returns when no limit is given.
pub const DEFAULT_LOG_LIMIT: i32 = 50;

/// Number of rows that a status report lists.
pub const STATUS_LOG_LIMIT: i64 = 10;

/// The single record that governs the scheduler.
/// 
/// `is_running` is the durable marker of an execution in progress, and
/// `current_task_id` names the source execution that is in flight, if any.
#[derive(Debug)]
pub struct ScheduledTaskConfig {
    pub enabled: bool,
    pub interval_hours: i32,
    pub last_run: Option<i64>,
    pub next_run: Option<i64>,
    pub running_collections: Vec<String>,
    pub current_collection_index: usize,
    pub is_running: bool,
    pub current_task_id: Option<String>,
    pub created_at: i64,
    pub updated_at: i64,
}

/// What a `ScheduledTaskConfig` holds, with texts as sequences of characters and
/// numbers as integers.
pub struct ScheduledTaskConfigView {
    pub enabled: bool,
    pub interval_hours: int,
    pub last_run: Option<int>,
    pub next_run: Option<int>,
    pub running_collections: Seq<Seq<char>>,
    pub current_collection_index: int,
    pub is_running: bool,
    pub current_task_id: Option<Seq<char>>,
    pub created_at: int,
    pub updated_at: int,
}

impl View for ScheduledTaskConfig {
    type V = ScheduledTaskConfigView;

    open spec fn view(&self) -> ScheduledTaskConfigView {
        ScheduledTaskConfigView {
            enabled: self.enabled,
            interval_hours: self.interval_hours as int,
            last_run: opt_time(self.last_run),
            next_run: opt_time(self.next_run),
            running_collections: texts(self.running_collections@),
            current_collection_index: self.current_collection_index as int,
            is_running: self.is_running,
            current_task_id: opt_text(self.current_task_id),
            created_at: self.created_at as int,
            updated_at: self.updated_at as int,
        }
    }
}

impl Clone for ScheduledTaskConfig {
    fn clone(&self) -> (copy: Self)
        ensures
            copy@ == self@,
    {
        ScheduledTaskConfig {
            enabled: self.enabled,
            interval_hours: self.interval_hours,
            last_run: self.last_run,
            next_run: self.next_run,
            running_collections: clone_texts(&self.running_collections),
            current_collection_index: self.current_collection_index,
            is_running: self.is_running,
            current_task_id: clone_opt_text(&self.current_task_id),
            created_at: self.created_at,
            updated_at: self.updated_at,
        }
    }
}

/// One attempt to collect from one source.
#[derive(Debug)]
pub struct TaskExecutionLog {
    pub task_id: String,
    pub collection_id: String,
    pub collection_name: String,
    pub status: String,
    pub started_at: i64,
    pub completed_at: Option<i64>,
    pub message: Option<String>,
    pub videos_collected: Option<i32>,
    pub errors: Option<String>,
}

/// What a `TaskExecutionLog` holds, with texts as sequences of characters and
/// numbers as integers.
pub struct TaskExecutionLogView {
    pub task_id: Seq<char>,
    pub collection_id: Seq<char>,
    pub collection_name: Seq<char>,
    pub status: Seq<char>,
    pub started_at: int,
    pub completed_at: Option<int>,
    pub message: Option<Seq<char>>,
    pub videos_collected: Option<int>,
    pub errors: Option<Seq<char>>,
}

impl View for TaskExecutionLog {
    type V = TaskExecutionLogView;

    open spec fn view(&self) -> TaskExecutionLogView {
        TaskExecutionLogView {
            task_id: self.task_id@,
            collection_id: self.collection_id@,
            collection_name: self.collection_name@,
            status: self.status@,
            started_at: self.started_at as int,
            completed_at: opt_time(self.completed_at),
            message: opt_text(self.message),
            videos_collected: opt_count(self.videos_collected),
            errors: opt_text(self.errors),
        }
    }
}

impl Clone for TaskExecutionLog {
    fn clone(&self) -> (copy: Self)
        ensures
            copy@ == self@,
    {
        TaskExecutionLog {
            task_id: self.task_id.clone(),
            collection_id: self.collection_id.clone(),
            collection_name: self.collection_name.clone(),
            status: self.status.clone(),
            started_at: self.started_at,
            completed_at: self.completed_at,
            message: clone_opt_text(&self.message),
            videos_collected: self.videos_collected,
            errors: clone_opt_text(&self.errors),
        }
    }
}

/// A partial write to the scheduler record: a field that is `Some` is set, a
/// field that is `None` is left as it is. `updated_at` is always written.
#[derive(Debug)]
pub struct ConfigUpdate {
    pub enabled: Option<bool>,
    pub interval_hours: Option<i32>,
    pub last_run: Option<i64>,
    pub next_run: Option<i64>,
    pub reset_progress: bool,
    pub is_running: Option<bool>,
    pub current_task_id: Option<Option<String>>,
    pub updated_at: i64,
}

/// What a `ConfigUpdate` holds, with texts as sequences of characters and
/// numbers as integers.
pub struct ConfigUpdateView {
    pub enabled: Option<bool>,
    pub interval_hours: Option<int>,
    pub last_run: Option<int>,
    pub next_run: Option<int>,
    pub reset_progress: bool,
    pub is_running: Option<bool>,
    pub current_task_id: Option<Option<Seq<char>>>,
    pub updated_at: int,
}

impl View for ConfigUpdate {
    type V = ConfigUpdateView;

    open spec fn view(&self) -> ConfigUpdateView {
        ConfigUpdateView {
            enabled: self.enabled,
            interval_hours: opt_count(self.interval_hours),
            last_run: opt_time(self.last_run),
            next_run: opt_time(self.next_run),
            reset_progress: self.reset_progress,
            is_running: self.is_running,
            current_task_id: opt_opt_text(self.current_task_id),
            updated_at: self.updated_at as int,
        }
    }
}

impl Clone for ConfigUpdate {
    fn clone(&self) -> (copy: Self)
        ensures
            copy@ == self@,
    {
        ConfigUpdate {
            enabled: self.enabled,
            interval_hours: self.interval_hours,
            last_run: self.last_run,
            next_run: self.next_run,
            reset_progress: self.reset_progress,
            is_running: self.is_running,
            current_task_id: clone_opt_opt_text(&self.current_task_id),
            updated_at: self.updated_at,
        }
    }
}

/// The write that closes a log row.
#[derive(Debug)]
pub struct LogUpdate {
    pub status: String,
    pub completed_at: i64,
    pub message: String,
    pub videos_collected: Option<i32>,
    pub errors: Option<String>,
}

/// What a `LogUpdate` holds, with texts as sequences of characters and
/// numbers as integers.
pub struct LogUpdateView {
    pub status: Seq<char>,
    pub completed_at: int,
    pub message: Seq<char>,
    pub videos_collected: Option<int>,
    pub errors: Option<Seq<char>>,
}

impl View for LogUpdate {
    type V = LogUpdateView;

    open spec fn view(&self) -> LogUpdateView {
        LogUpdateView {
            status: self.status@,
            completed_at: self.completed_at as int,
            message: self.message@,
            videos_collected: opt_count(self.videos_collected),
            errors: opt_text(self.errors),
        }
    }
}

impl Clone for LogUpdate {
    fn clone(&self) -> (copy: Self)
        ensures
            copy@ == self@,
    {
        LogUpdate {
            status: self.status.clone(),
            completed_at: self.completed_at,
            message: self.message.clone(),
            videos_collected: self.videos_collected,
            errors: clone_opt_text(&self.errors),
        }
    }
}


/// A time brought back into the range of the clock.
pub open spec fn clamp_time(t: int) -> int {
    if t > i64::MAX {
        i64::MAX as int
    } else if t < i64::MIN {
        i64::MIN as int
    } else {
        t
    }
}

/// The time of the run that follows `now` at the given interval: `now` plus
/// that many hours, held within the range of the clock.
pub open spec fn next_run_after(now: int, interval_hours: int) -> int {
    clamp_time(now + interval_hours * 3_600_000)
}

/// Computes the time of the next run.
pub fn next_run_time(now: i64, interval_hours: i32) -> (next: i64)
    ensures
        next == next_run_after(now as int, interval_hours as int),
        i64::MIN <= now + interval_hours * 3_600_000 <= i64::MAX ==> next == now + interval_hours
            * 3_600_000,
{
    let span: i64 = (interval_hours as i64) * MILLIS_PER_HOUR;
    match now.checked_add(span) {
        Some(next) => next,
        None => if span > 0 {
            i64::MAX
        } else {
            i64::MIN
        },
    }
}

/// The three states of the scheduler record.
#[derive(Debug, Clone, Copy, PartialEq, Eq, Structural)]
pub enum SchedulerState {
    /// Disabled and not running.
    Idle,
    /// Enabled and waiting for the next run.
    Armed,
    /// An execution is marked as in progress.
    Running,
}

/// The state that a scheduler record is in.
pub open spec fn state_of(c: ScheduledTaskConfigView) -> SchedulerState {
    if c.is_running {
        SchedulerState::Running
    } else if c.enabled {
        SchedulerState::Armed
    } else {
        SchedulerState::Idle
    }
}

/// The record after a partial write.
pub open spec fn apply_config_update(
    c: ScheduledTaskConfigView,
    u: ConfigUpdateView,
) -> ScheduledTaskConfigView {
    ScheduledTaskConfigView {
        enabled: match u.enabled {
            Some(v) => v,
            None => c.enabled,
        },
        interval_hours: match u.interval_hours {
            Some(v) => v,
            None => c.interval_hours,
        },
        last_run: match u.last_run {
            Some(v) => Some(v),
            None => c.last_run,
        },
        next_run: match u.next_run {
            Some(v) => Some(v),
            None => c.next_run,
        },
        running_collections: if u.reset_progress {
            Seq::empty()
        } else {
            c.running_collections
        },
        current_collection_index: if u.reset_progress {
            0
        } else {
            c.current_collection_index
        },
        is_running: match u.is_running {
            Some(v) => v,
            None => c.is_running,
        },
        current_task_id: match u.current_task_id {
            Some(v) => v,
            None => c.current_task_id,
        },
        created_at: c.created_at,
        updated_at: u.updated_at,
    }
}

/// The record that initialisation creates when none exists: disabled, idle,
/// with the default interval and a first run one interval from `now`.
pub open spec fn initial_config(now: int) -> ScheduledTaskConfigView {
    ScheduledTaskConfigView {
        enabled: false,
        interval_hours: DEFAULT_INTERVAL_HOURS as int,
        last_run: None,
        next_run: Some(next_run_after(now, DEFAULT_INTERVAL_HOURS as int)),
        running_collections: Seq::empty(),
        current_collection_index: 0,
        is_running: false,
        current_task_id: None,
        created_at: now,
        updated_at: now,
    }
}

/// A write that sets nothing but the time of writing.
pub open spec fn touch_update(now: int) -> ConfigUpdateView {
    ConfigUpdateView {
        enabled: None,
        interval_hours: None,
        last_run: None,
        next_run: None,
        reset_progress: false,
        is_running: None,
        current_task_id: None,
        updated_at: now,
    }
}

/// The write of a reconfiguration: enablement and interval as given, the
/// next run one interval from `now`, and every trace of a running execution
/// cleared.
pub open spec fn reconfigure_update(
    enabled: bool,
    interval_hours: Option<int>,
    now: int,
) -> ConfigUpdateView {
    let hours = match interval_hours {
        Some(h) => h,
        None => DEFAULT_INTERVAL_HOURS as int,
    };
    ConfigUpdateView {
        enabled: Some(enabled),
        interval_hours: Some(hours),
        last_run: None,
        next_run: Some(next_run_after(now, hours)),
        reset_progress: true,
        is_running: Some(false),
        current_task_id: Some(None),
        updated_at: now,
    }
}

/// The write that marks the scheduler as started under `task_id`.
pub open spec fn launch_update(task_id: Seq<char>, now: int) -> ConfigUpdateView {
    ConfigUpdateView {
        enabled: Some(true),
        is_running: Some(true),
        current_task_id: Some(Some(task_id)),
        ..touch_update(now)
    }
}

/// The write that stops the scheduler: disabled, not running, no task.
pub open spec fn halt_update(now: int) -> ConfigUpdateView {
    ConfigUpdateView {
        enabled: Some(false),
        is_running: Some(false),
        current_task_id: Some(None),
        ..touch_update(now)
    }
}

/// The write that names the source execution in flight.
pub open spec fn mark_task_update(task_id: Seq<char>, now: int) -> ConfigUpdateView {
    ConfigUpdateView { current_task_id: Some(Some(task_id)), ..touch_update(now) }
}

/// The write that says no source execution is in flight.
pub open spec fn clear_task_update(now: int) -> ConfigUpdateView {
    ConfigUpdateView { current_task_id: Some(None), ..touch_update(now) }
}

/// The write that closes a scheduled pass: it ran at `now`, runs next one
/// interval later, and no task is in flight any more.
pub open spec fn pass_done_update(now: int, interval_hours: int) -> ConfigUpdateView {
    ConfigUpdateView {
        last_run: Some(now),
        next_run: Some(next_run_after(now, interval_hours)),
        current_task_id: Some(None),
        ..touch_update(now)
    }
}

/// The transitions of the scheduler record: a launch leaves it running
/// under the task it names, a halt leaves it idle with no task, and a
/// reconfiguration leaves it armed or idle as asked, not running, with no
/// task, and due one interval after the time of writing.
pub proof fn lemma_transitions(
    c: ScheduledTaskConfigView,
    task_id: Seq<char>,
    enabled: bool,
    interval_hours: Option<int>,
    now: int,
)
    ensures
        ({
            let launched = apply_config_update(c, launch_update(task_id, now));
            &&& state_of(launched) == SchedulerState::Running
            &&& launched.enabled
            &&& launched.current_task_id == Some(task_id)
        }),
        ({
            let halted = apply_config_update(c, halt_update(now));
            &&& state_of(halted) == SchedulerState::Idle
            &&& halted.current_task_id is None
        }),
        ({
            let set = apply_config_update(c, reconfigure_update(enabled, interval_hours, now));
            let hours = match interval_hours {
                Some(h) => h,
                None => DEFAULT_INTERVAL_HOURS as int,
            };
            &&& state_of(set) == if enabled {
                SchedulerState::Armed
            } else {
                SchedulerState::Idle
            }
            &&& !set.is_running
            &&& set.current_task_id is None
            &&& set.interval_hours == hours
            &&& set.next_run == Some(next_run_after(now, hours))
            &&& set.last_run == c.last_run
        }),
{
}

/// The writes of a pass leave the state of the scheduler record as it is:
/// naming the task in flight, clearing it, and recording the run change
/// neither the enablement nor the running flag. While a source is in
/// flight the record names its task, and once the pass is closed it names
/// none.
pub proof fn lemma_pass_writes_keep_state(
    c: ScheduledTaskConfigView,
    task_id: Seq<char>,
    interval_hours: int,
    now: int,
)
    ensures
        state_of(apply_config_update(c, mark_task_update(task_id, now))) == state_of(c),
        apply_config_update(c, mark_task_update(task_id, now)).current_task_id == Some(task_id),
        state_of(apply_config_update(c, clear_task_update(now))) == state_of(c),
        apply_config_update(c, clear_task_update(now)).current_task_id is None,
        state_of(apply_config_update(c, pass_done_update(now, interval_hours))) == state_of(c),
        apply_config_update(c, pass_done_update(now, interval_hours)).last_run == Some(now),
        apply_config_update(c, pass_done_update(now, interval_hours)).next_run == Some(
            next_run_after(now, interval_hours),
        ),
        apply_config_update(c, pass_done_update(now, interval_hours)).current_task_id is None,
        state_of(apply_config_update(c, touch_update(now))) == state_of(c),
{
}

/// The next run lies one interval after `now` wherever that time can be
/// told by the clock.
pub proof fn lemma_next_run_in_range(now: int, interval_hours: int)
    requires
        i64::MIN <= now + interval_hours * 3_600_000 <= i64::MAX,
    ensures
        next_run_after(now, interval_hours) == now + interval_hours * 3_600_000,
{
}

impl ConfigUpdate {
    /// A write that sets nothing but the time of writing.
    pub fn touch(now: i64) -> (u: ConfigUpdate)
        ensures
            u@ == touch_update(now as int),
    {
        ConfigUpdate {
            enabled: None,
            interval_hours: None,
            last_run: None,
            next_run: None,
            reset_progress: false,
            is_running: None,
            current_task_id: None,
            updated_at: now,
        }
    }

    /// The write of a reconfiguration. Without an interval the default of
    /// twelve hours is taken.
    pub fn reconfigure(enabled: bool, interval_hours: Option<i32>, now: i64) -> (u: ConfigUpdate)
        ensures
            u@ == reconfigure_update(enabled, opt_count(interval_hours), now as int),
    {
        let hours: i32 = match interval_hours {
            Some(h) => h,
            None => DEFAULT_INTERVAL_HOURS,
        };
        ConfigUpdate {
            enabled: Some(enabled),
            interval_hours: Some(hours),
            last_run: None,
            next_run: Some(next_run_time(now, hours)),
            reset_progress: true,
            is_running: Some(false),
            current_task_id: Some(None),
            updated_at: now,
        }
    }

    /// The write that marks the scheduler as started under `task_id`.
    pub fn launch(task_id: &str, now: i64) -> (u: ConfigUpdate)
        ensures
            u@ == launch_update(task_id@, now as int),
    {
        ConfigUpdate {
            enabled: Some(true),
            interval_hours: None,
            last_run: None,
            next_run: None,
            reset_progress: false,
            is_running: Some(true),
            current_task_id: Some(Some(String::from_str(task_id))),
            updated_at: now,
        }
    }

    /// The write that stops the scheduler.
    pub fn halt(now: i64) -> (u: ConfigUpdate)
        ensures
            u@ == halt_update(now as int),
    {
        ConfigUpdate {
            enabled: Some(false),
            interval_hours: None,
            last_run: None,
            next_run: None,
            reset_progress: false,
            is_running: Some(false),
            current_task_id: Some(None),
            updated_at: now,
        }
    }

    /// The write that names the source execution in flight.
    pub fn mark_task(task_id: &str, now: i64) -> (u: ConfigUpdate)
        ensures
            u@ == mark_task_update(task_id@, now as int),
    {
        ConfigUpdate {
            enabled: None,
            interval_hours: None,
            last_run: None,
            next_run: None,
            reset_progress: false,
            is_running: None,
            current_task_id: Some(Some(String::from_str(task_id))),
            updated_at: now,
        }
    }

    /// The write that says no source execution is in flight.
    pub fn clear_task(now: i64) -> (u: ConfigUpdate)
        ensures
            u@ == clear_task_update(now as int),
    {
        ConfigUpdate {
            enabled: None,
            interval_hours: None,
            last_run: None,
            next_run: None,
            reset_progress: false,
            is_running: None,
            current_task_id: Some(None),
            updated_at: now,
        }
    }

    /// The write that closes a scheduled pass.
    pub fn pass_done(now: i64, interval_hours: i32) -> (u: ConfigUpdate)
        ensures
            u@ == pass_done_update(now as int, interval_hours as int),
    {
        ConfigUpdate {
            enabled: None,
            interval_hours: None,
            last_run: Some(now),
            next_run: Some(next_run_time(now, interval_hours)),
            reset_progress: false,
            is_running: None,
            current_task_id: Some(None),
            updated_at: now,
        }
    }
}

/// Status of a log row whose source is being collected.
pub open spec fn status_running() -> Seq<char> {
    "running"@
}

/// The message of a row that has just started.
pub open spec fn start_message(name: Seq<char>) -> Seq<char> {
    "开始采集 "@ + name
}

/// The message of a row that completed with `count` items.
pub open spec fn success_message(count: int) -> Seq<char> {
    "采集完成，获取 "@ + signed_decimal(count) + " 个视频"@
}

/// The message of a row that failed with `error`.
pub open spec fn failure_message(error: Seq<char>) -> Seq<char> {
    "采集失败: "@ + error
}

/// What a collector reports for one source: the number of items collected, or
/// the reason why it failed.
pub open spec fn outcome_view(outcome: Result<i32, String>) -> Result<int, Seq<char>> {
    match outcome {
        Ok(n) => Ok(n as int),
        Err(e) => Err(e@),
    }
}

/// The row written when the collection of a source starts.
pub open spec fn running_log(
    task_id: Seq<char>,
    collection_id: Seq<char>,
    name: Seq<char>,
    now: int,
) -> TaskExecutionLogView {
    TaskExecutionLogView {
        task_id,
        collection_id,
        collection_name: name,
        status: status_running(),
        started_at: now,
        completed_at: None,
        message: Some(start_message(name)),
        videos_collected: None,
        errors: None,
    }
}

/// The write that closes a row according to what the collector reported.
pub open spec fn outcome_update(outcome: Result<int, Seq<char>>, now: int) -> LogUpdateView {
    match outcome {
        Ok(n) => LogUpdateView {
            status: crate::models::status_completed(),
            completed_at: now,
            message: success_message(n),
            videos_collected: Some(n),
            errors: None,
        },
        Err(e) => LogUpdateView {
            status: crate::models::status_failed(),
            completed_at: now,
            message: failure_message(e),
            videos_collected: None,
            errors: Some(e),
        },
    }
}

/// A row after a closing write, whatever its status was.
pub open spec fn apply_log_update(
    row: TaskExecutionLogView,
    u: LogUpdateView,
) -> TaskExecutionLogView {
    TaskExecutionLogView {
        status: u.status,
        completed_at: Some(u.completed_at),
        message: Some(u.message),
        videos_collected: match u.videos_collected {
            Some(n) => Some(n),
            None => row.videos_collected,
        },
        errors: match u.errors {
            Some(e) => Some(e),
            None => row.errors,
        },
        ..row
    }
}

/// A row after an attempt to close it: only a running row takes the write, a
/// row that has reached its end stays as it is.
pub open spec fn close_log(row: TaskExecutionLogView, u: LogUpdateView) -> TaskExecutionLogView {
    if row.status == status_running() {
        apply_log_update(row, u)
    } else {
        row
    }
}

/// A row is closed once: the write that closes it leaves it completed or
/// failed, and no later write changes a row that is no longer running.
pub proof fn lemma_row_is_closed_once(
    row: TaskExecutionLogView,
    outcome: Result<int, Seq<char>>,
    now: int,
    later: LogUpdateView,
)
    requires
        row.status == status_running(),
    ensures
        close_log(row, outcome_update(outcome, now)).status != status_running(),
        close_log(row, outcome_update(outcome, now)).completed_at == Some(now),
        close_log(row, outcome_update(outcome, now)).task_id == row.task_id,
        close_log(row, outcome_update(outcome, now)).started_at == row.started_at,
        close_log(close_log(row, outcome_update(outcome, now)), later) == close_log(
            row,
            outcome_update(outcome, now),
        ),
{
    reveal_strlit("running");
    reveal_strlit("completed");
    reveal_strlit("failed");
    assert("running"@.len() == 7);
    assert("completed"@.len() == 9);
    assert("failed"@.len() == 6);
}

impl LogUpdate {
    /// The write that closes a row according to what the collector reported.
    pub fn from_outcome(outcome: &Result<i32, String>, now: i64) -> (u: LogUpdate)
        ensures
            u@ == outcome_update(outcome_view(*outcome), now as int),
    {
        match outcome {
            Ok(n) => {
                let mut message = joined(
                    "采集完成，获取 ",
                    signed_decimal_text(*n as i64).as_str(),
                );
                message.append(" 个视频");
                LogUpdate {
                    status: String::from_str("completed"),
                    completed_at: now,
                    message,
                    videos_collected: Some(*n),
                    errors: None,
                }
            },
            Err(e) => LogUpdate {
                status: String::from_str("failed"),
                completed_at: now,
                message: joined("采集失败: ", e.as_str()),
                videos_collected: None,
                errors: Some(e.clone()),
            },
        }
    }
}

impl TaskExecutionLog {
    /// The row written when the collection of a source starts.
    pub fn running(task_id: &str, collection_id: &str, name: &str, now: i64) -> (row:
        TaskExecutionLog)
        ensures
            row@ == running_log(task_id@, collection_id@, name@, now as int),
    {
        TaskExecutionLog {
            task_id: String::from_str(task_id),
            collection_id: String::from_str(collection_id),
            collection_name: String::from_str(name),
            status: String::from_str("running"),
            started_at: now,
            completed_at: None,
            message: Some(joined("开始采集 ", name)),
            videos_collected: None,
            errors: None,
        }
    }

    /// Whether the row is still open.
    pub fn is_running(&self) -> (open: bool)
        ensures
            open == (self@.status == status_running()),
    {
        str_equal(self.status.as_str(), "running")
    }

    /// Tries to close the row. A row that is not running is left untouched.
    pub fn close(&mut self, u: &LogUpdate)
        ensures
            final(self)@ == close_log(old(self)@, u@),
    {
        if self.is_running() {
            self.status = u.status.clone();
            self.completed_at = Some(u.completed_at);
            self.message = Some(u.message.clone());
            if let Some(n) = u.videos_collected {
                self.videos_collected = Some(n);
            }
            if let Some(e) = &u.errors {
                self.errors = Some(e.clone());
            }
        }
    }
}

impl ScheduledTaskConfig {
    /// The record that initialisation creates when none exists.
    pub fn initial(now: i64) -> (c: ScheduledTaskConfig)
        ensures
            c@ == initial_config(now as int),
    {
        let c = ScheduledTaskConfig {
            enabled: false,
            interval_hours: DEFAULT_INTERVAL_HOURS,
            last_run: None,
            next_run: Some(next_run_time(now, DEFAULT_INTERVAL_HOURS)),
            running_collections: Vec::new(),
            current_collection_index: 0,
            is_running: false,
            current_task_id: None,
            created_at: now,
            updated_at: now,
        };
        assert(c@.running_collections =~= Seq::empty());
        c
    }

    /// The state that the record is in.
    pub fn state(&self) -> (s: SchedulerState)
        ensures
            s == state_of(self@),
    {
        if self.is_running {
            SchedulerState::Running
        } else if self.enabled {
            SchedulerState::Armed
        } else {
            SchedulerState::Idle
        }
    }

    /// Carries out a partial write on the record.
    pub fn apply(&mut self, u: &ConfigUpdate)
        ensures
            final(self)@ == apply_config_update(old(self)@, u@),
    {
        if let Some(v) = u.enabled {
            self.enabled = v;
        }
        if let Some(v) = u.interval_hours {
            self.interval_hours = v;
        }
        if let Some(v) = u.last_run {
            self.last_run = Some(v);
        }
        if let Some(v) = u.next_run {
            self.next_run = Some(v);
        }
        if u.reset_progress {
            self.running_collections = Vec::new();
            self.current_collection_index = 0;
        }
        if let Some(v) = u.is_running {
            self.is_running = v;
        }
        if let Some(v) = &u.current_task_id {
            self.current_task_id = clone_opt_text(v);
        }
        self.updated_at = u.updated_at;
        assert(final(self)@.running_collections =~= apply_config_update(
            old(self)@,
            u@,
        ).running_collections);
    }

    /// Whether two records hold the same values.
    pub fn same_as(&self, other: &ScheduledTaskConfig) -> (same: bool)
        ensures
            same == (self@ == other@),
    {
        self.enabled == other.enabled && self.interval_hours == other.interval_hours
            && self.last_run == other.last_run && self.next_run == other.next_run && texts_equal(
            &self.running_collections,
            &other.running_collections,
        ) && self.current_collection_index == other.current_collection_index && self.is_running
            == other.is_running && opt_text_equal(&self.current_task_id, &other.current_task_id)
            && self.created_at == other.created_at && self.updated_at == other.updated_at
    }
}

} // verus!
