//! What the scheduler reports about itself: its settings, the task in
//! flight, and the latest rows of its log.

use vstd::prelude::*;
use crate::models::{opt_count, views};
use crate::recent::{is_latest_listing, latest_positions, listing_len};
use crate::scheduled_task::{
    ScheduledTaskConfig, ScheduledTaskConfigView, TaskExecutionLog, TaskExecutionLogView,
    DEFAULT_LOG_LIMIT, STATUS_LOG_LIMIT,
};
use crate::search::{first_where, lemma_first_where_skips};
use crate::task_manager::{ScheduledTaskManager, ScheduledTaskManagerView};
use crate::text::{clone_opt_text, opt_text, signed_decimal, signed_decimal_text, str_equal};

verus! {

/// One row of the log as a status report lists it, with times written out in
/// milliseconds.
#[derive(Debug)]
pub struct LogSummary {
    pub task_id: String,
    pub collection_name: String,
    pub status: String,
    pub started_at: String,
    pub completed_at: Option<String>,
    pub videos_collected: Option<i32>,
    pub message: Option<String>,
}

/// What a `LogSummary` holds, with texts as sequences of characters and
/// numbers as integers.
pub struct LogSummaryView {
    pub task_id: Seq<char>,
    pub collection_name: Seq<char>,
    pub status: Seq<char>,
    pub started_at: Seq<char>,
    pub completed_at: Option<Seq<char>>,
    pub videos_collected: Option<int>,
    pub message: Option<Seq<char>>,
}

impl View for LogSummary {
    type V = LogSummaryView;

    open spec fn view(&self) -> LogSummaryView {
        LogSummaryView {
            task_id: self.task_id@,
            collection_name: self.collection_name@,
            status: self.status@,
            started_at: self.started_at@,
            completed_at: opt_text(self.completed_at),
            videos_collected: opt_count(self.videos_collected),
            message: opt_text(self.message),
        }
    }
}

impl Clone for LogSummary {
    fn clone(&self) -> (copy: Self)
        ensures
            copy@ == self@,
    {
        LogSummary {
            task_id: self.task_id.clone(),
            collection_name: self.collection_name.clone(),
            status: self.status.clone(),
            started_at: self.started_at.clone(),
            completed_at: clone_opt_text(&self.completed_at),
            videos_collected: self.videos_collected,
            message: clone_opt_text(&self.message),
        }
    }
}


/// The state of the scheduler as it is reported.
#[derive(Debug)]
pub struct TaskStatus {
    /// Whether the scheduler is enabled; absent without a scheduler record.
    pub enabled: Option<bool>,
    /// The interval between passes; absent without a scheduler record.
    pub interval_hours: Option<i32>,
    /// The time of the last pass in milliseconds, or a note that none has
    /// run; absent without a scheduler record.
    pub last_run: Option<String>,
    /// The time of the next pass in milliseconds, or a note that none is
    /// set; absent without a scheduler record.
    pub next_run: Option<String>,
    /// Whether an execution is marked as in progress.
    pub is_running: bool,
    /// The task in flight, if any.
    pub current_task_id: Option<String>,
    /// The source of the task in flight, where its row was found.
    pub current_collection: Option<String>,
    /// The status of the task in flight, where its row was found.
    pub current_status: Option<String>,
    /// The start of the task in flight in milliseconds, where its row was
    /// found.
    pub task_started_at: Option<String>,
    /// The latest rows of the log, latest first.
    pub recent_logs: Vec<LogSummary>,
}

/// What a `TaskStatus` holds, with texts as sequences of characters and
/// numbers as integers.
pub struct TaskStatusView {
    pub enabled: Option<bool>,
    pub interval_hours: Option<int>,
    pub last_run: Option<Seq<char>>,
    pub next_run: Option<Seq<char>>,
    pub is_running: bool,
    pub current_task_id: Option<Seq<char>>,
    pub current_collection: Option<Seq<char>>,
    pub current_status: Option<Seq<char>>,
    pub task_started_at: Option<Seq<char>>,
    pub recent_logs: Seq<LogSummaryView>,
}

impl View for TaskStatus {
    type V = TaskStatusView;

    open spec fn view(&self) -> TaskStatusView {
        TaskStatusView {
            enabled: self.enabled,
            interval_hours: opt_count(self.interval_hours),
            last_run: opt_text(self.last_run),
            next_run: opt_text(self.next_run),
            is_running: self.is_running,
            current_task_id: opt_text(self.current_task_id),
            current_collection: opt_text(self.current_collection),
            current_status: opt_text(self.current_status),
            task_started_at: opt_text(self.task_started_at),
            recent_logs: views(self.recent_logs@),
        }
    }
}

/// A time as a report shows it: in milliseconds, or `missing` where there
/// is none.
pub open spec fn time_text(t: Option<int>, missing: Seq<char>) -> Seq<char> {
    match t {
        Some(millis) => signed_decimal(millis),
        None => missing,
    }
}

/// The note for a scheduler that has never run.
pub open spec fn never_run() -> Seq<char> {
    "从未运行"@
}

/// The note for a scheduler without a next run time.
pub open spec fn not_set() -> Seq<char> {
    "未设置"@
}

/// A row as a status report lists it.
pub open spec fn summary_of_log(row: TaskExecutionLogView) -> LogSummaryView {
    LogSummaryView {
        task_id: row.task_id,
        collection_name: row.collection_name,
        status: row.status,
        started_at: signed_decimal(row.started_at),
        completed_at: match row.completed_at {
            Some(t) => Some(signed_decimal(t)),
            None => None,
        },
        videos_collected: row.videos_collected,
        message: row.message,
    }
}

/// The row of the task in flight as far as a report uses it: none where no
/// task is in flight.
pub open spec fn reported_task(
    config: Option<ScheduledTaskConfigView>,
    current: Option<TaskExecutionLogView>,
) -> Option<TaskExecutionLogView> {
    match config {
        Some(c) => if c.current_task_id is Some {
            current
        } else {
            None
        },
        None => None,
    }
}

/// The report for a scheduler record, the row of its task in flight and
/// the latest rows of the log.
pub open spec fn task_status_of(
    config: Option<ScheduledTaskConfigView>,
    current: Option<TaskExecutionLogView>,
    recent: Seq<TaskExecutionLogView>,
) -> TaskStatusView {
    let task = reported_task(config, current);
    TaskStatusView {
        enabled: match config {
            Some(c) => Some(c.enabled),
            None => None,
        },
        interval_hours: match config {
            Some(c) => Some(c.interval_hours),
            None => None,
        },
        last_run: match config {
            Some(c) => Some(time_text(c.last_run, never_run())),
            None => None,
        },
        next_run: match config {
            Some(c) => Some(time_text(c.next_run, not_set())),
            None => None,
        },
        is_running: match config {
            Some(c) => c.is_running,
            None => false,
        },
        current_task_id: match config {
            Some(c) => c.current_task_id,
            None => None,
        },
        current_collection: match task {
            Some(row) => Some(row.collection_name),
            None => None,
        },
        current_status: match task {
            Some(row) => Some(row.status),
            None => None,
        },
        task_started_at: match task {
            Some(row) => Some(signed_decimal(row.started_at)),
            None => None,
        },
        recent_logs: recent.map_values(|row: TaskExecutionLogView| summary_of_log(row)),
    }
}

/// The number that a log query hands to the store as its limit.
pub fn log_query_limit(limit: Option<i32>) -> (n: i64)
    ensures
        n == match limit {
            Some(l) => l as int,
            None => DEFAULT_LOG_LIMIT as int,
        },
{
    match limit {
        Some(l) => l as i64,
        None => DEFAULT_LOG_LIMIT as i64,
    }
}

/// The number of rows that a store returns for a limit out of `total`
/// rows: all of them for a limit of zero, else as many as the limit says
/// without its sign.
pub open spec fn rows_for_limit(limit: int, total: nat) -> nat {
    if limit == 0 {
        total
    } else if limit > 0 {
        listing_len(total, limit as nat)
    } else {
        listing_len(total, (-limit) as nat)
    }
}

impl LogSummary {
    /// A row as a status report lists it.
    pub fn of(row: &TaskExecutionLog) -> (s: LogSummary)
        ensures
            s@ == summary_of_log(row@),
    {
        LogSummary {
            task_id: row.task_id.clone(),
            collection_name: row.collection_name.clone(),
            status: row.status.clone(),
            started_at: signed_decimal_text(row.started_at),
            completed_at: match row.completed_at {
                Some(t) => Some(signed_decimal_text(t)),
                None => None,
            },
            videos_collected: row.videos_collected,
            message: clone_opt_text(&row.message),
        }
    }
}

/// The task whose row a status report looks up: the task in flight.
pub fn reported_task_id(config: &Option<ScheduledTaskConfig>) -> (id: Option<String>)
    ensures
        opt_text(id) == match *config {
            Some(c) => c@.current_task_id,
            None => None,
        },
{
    match config {
        Some(c) => clone_opt_text(&c.current_task_id),
        None => None,
    }
}

/// Puts a status report together from the scheduler record, the row of
/// the task in flight and the latest rows of the log.
pub fn build_task_status(
    config: &Option<ScheduledTaskConfig>,
    current: &Option<TaskExecutionLog>,
    recent: &Vec<TaskExecutionLog>,
) -> (status: TaskStatus)
    ensures
        status@ == task_status_of(
            crate::task_manager::opt_config_view(*config),
            match *current {
                Some(row) => Some(row@),
                None => None,
            },
            views(recent@),
        ),
{
    let mut recent_logs: Vec<LogSummary> = Vec::new();
    let mut i: usize = 0;
    while i < recent.len()
        invariant
            i <= recent.len(),
            recent_logs@.len() == i,
            forall|k: int|
                0 <= k < i ==> #[trigger] recent_logs@[k]@ == summary_of_log(recent@[k]@),
        decreases recent.len() - i,
    {
        recent_logs.push(LogSummary::of(&recent[i]));
        i = i + 1;
    }
    assert(views(recent_logs@) =~= views(recent@).map_values(
        |row: TaskExecutionLogView| summary_of_log(row),
    ));
    match config {
        None => TaskStatus {
            enabled: None,
            interval_hours: None,
            last_run: None,
            next_run: None,
            is_running: false,
            current_task_id: None,
            current_collection: None,
            current_status: None,
            task_started_at: None,
            recent_logs,
        },
        Some(c) => {
            let last_run = match c.last_run {
                Some(t) => signed_decimal_text(t),
                None => String::from_str("从未运行"),
            };
            let next_run = match c.next_run {
                Some(t) => signed_decimal_text(t),
                None => String::from_str("未设置"),
            };
            let in_flight = c.current_task_id.is_some();
            let (current_collection, current_status, task_started_at) = match current {
                Some(row) => if in_flight {
                    (
                        Some(row.collection_name.clone()),
                        Some(row.status.clone()),
                        Some(signed_decimal_text(row.started_at)),
                    )
                } else {
                    (None, None, None)
                },
                None => (None, None, None),
            };
            TaskStatus {
                enabled: Some(c.enabled),
                interval_hours: Some(c.interval_hours),
                last_run: Some(last_run),
                next_run: Some(next_run),
                is_running: c.is_running,
                current_task_id: clone_opt_text(&c.current_task_id),
                current_collection,
                current_status,
                task_started_at,
                recent_logs,
            }
        },
    }
}

/// The start times of the rows of a log, in the order of the rows.
pub open spec fn started_times(logs: Seq<TaskExecutionLogView>) -> Seq<int> {
    logs.map_values(|row: TaskExecutionLogView| row.started_at)
}

/// Whether `rows` are the latest `count` rows of `logs`, latest first, or
/// all of them where there are fewer.
pub open spec fn is_latest_rows(
    logs: Seq<TaskExecutionLogView>,
    count: nat,
    rows: Seq<TaskExecutionLogView>,
) -> bool {
    exists|picked: Seq<int>|
        picked.len() == listing_len(logs.len(), count) && #[trigger] is_latest_listing(
            started_times(logs),
            picked,
        ) && rows == picked.map_values(|p: int| logs[p])
}

/// The condition of being the row with the given task identifier.
pub open spec fn has_task_id(id: Seq<char>) -> spec_fn(TaskExecutionLogView) -> bool {
    |row: TaskExecutionLogView| row.task_id == id
}

/// The row that a lookup by task identifier finds: the first with that
/// identifier, if there is one.
pub open spec fn row_with_task_id(logs: Seq<TaskExecutionLogView>, id: Seq<char>) -> Option<
    TaskExecutionLogView,
> {
    let i = first_where(logs, has_task_id(id), 0);
    if i < logs.len() {
        Some(logs[i])
    } else {
        None
    }
}

/// The row of the task in flight, where there is one and its row exists.
pub open spec fn current_row(m: ScheduledTaskManagerView) -> Option<TaskExecutionLogView> {
    match m.config {
        Some(c) => match c.current_task_id {
            Some(id) => row_with_task_id(m.logs, id),
            None => None,
        },
        None => None,
    }
}

impl ScheduledTaskManager {
    /// The latest `count` rows of the log, latest first.
    pub fn latest_logs(&self, count: usize) -> (rows: Vec<TaskExecutionLog>)
        ensures
            is_latest_rows(self@.logs, count as nat, views(rows@)),
    {
        let mut started: Vec<i64> = Vec::new();
        let mut i: usize = 0;
        while i < self.logs.len()
            invariant
                i <= self.logs.len(),
                started@.len() == i,
                forall|k: int| 0 <= k < i ==> #[trigger] started@[k] == self.logs@[k].started_at,
            decreases self.logs.len() - i,
        {
            started.push(self.logs[i].started_at);
            i = i + 1;
        }
        assert(started@.map_values(|t: i64| t as int) =~= started_times(self@.logs));
        let positions = latest_positions(&started, count);
        let ghost picked = positions@.map_values(|p: usize| p as int);
        let mut rows: Vec<TaskExecutionLog> = Vec::new();
        let mut k: usize = 0;
        while k < positions.len()
            invariant
                k <= positions.len(),
                rows@.len() == k,
                picked == positions@.map_values(|p: usize| p as int),
                is_latest_listing(started_times(self@.logs), picked),
                forall|j: int|
                    0 <= j < k ==> #[trigger] rows@[j]@ == self@.logs[positions@[j] as int],
            decreases positions.len() - k,
        {
            assert(0 <= picked[k as int] < started_times(self@.logs).len());
            rows.push(self.logs[positions[k]].clone());
            k = k + 1;
        }
        assert(views(rows@) =~= picked.map_values(|p: int| self@.logs[p]));
        rows
    }

    /// The latest rows of the log, latest first. Without a limit fifty rows
    /// are returned; a limit of zero returns every row, and a negative limit
    /// counts as the same limit without its sign.
    pub fn get_task_logs(&self, limit: Option<i32>) -> (rows: Vec<TaskExecutionLog>)
        ensures
            is_latest_rows(
                self@.logs,
                rows_for_limit(
                    match limit {
                        Some(l) => l as int,
                        None => DEFAULT_LOG_LIMIT as int,
                    },
                    self@.logs.len(),
                ),
                views(rows@),
            ),
    {
        let wanted = log_query_limit(limit);
        let total = self.logs.len();
        let magnitude: u64 = if wanted < 0 {
            (0 - wanted) as u64
        } else {
            wanted as u64
        };
        let count: usize = if wanted == 0 || magnitude >= total as u64 {
            total
        } else {
            magnitude as usize
        };
        let rows = self.latest_logs(count);
        assert(listing_len(total as nat, count as nat) == listing_len(
            total as nat,
            rows_for_limit(wanted as int, total as nat),
        ));
        rows
    }

    /// The first row with the given task identifier.
    pub fn find_log(&self, task_id: &str) -> (row: Option<TaskExecutionLog>)
        ensures
            match row {
                Some(found) => row_with_task_id(self@.logs, task_id@) == Some(found@),
                None => row_with_task_id(self@.logs, task_id@) is None,
            },
    {
        let ghost logs = self@.logs;
        let mut i: usize = 0;
        while i < self.logs.len()
            invariant
                i <= self.logs.len(),
                logs == views(self.logs@),
                forall|j: int| 0 <= j < i ==> !has_task_id(task_id@)(#[trigger] logs[j]),
            decreases self.logs.len() - i,
        {
            if str_equal(self.logs[i].task_id.as_str(), task_id) {
                proof {
                    assert(has_task_id(task_id@)(logs[i as int]));
                    lemma_first_where_skips(logs, has_task_id(task_id@), 0, i as int);
                }
                return Some(self.logs[i].clone());
            }
            i = i + 1;
        }
        proof {
            lemma_first_where_skips(logs, has_task_id(task_id@), 0, logs.len() as int);
        }
        None
    }

    /// Reports the state of the scheduler: its settings, the task in flight
    /// with its row, and the ten latest rows of the log.
    pub fn get_task_status(&self) -> (status: TaskStatus)
        ensures
            exists|recent: Seq<TaskExecutionLogView>| #[trigger]
                is_latest_rows(self@.logs, STATUS_LOG_LIMIT as nat, recent) && status@
                    == task_status_of(self@.config, current_row(self@), recent),
    {
        let config = self.get_config();
        let current = match reported_task_id(&config) {
            Some(id) => self.find_log(id.as_str()),
            None => None,
        };
        let recent = self.latest_logs(STATUS_LOG_LIMIT as usize);
        let status = build_task_status(&config, &current, &recent);
        proof {
            let shown = match current {
                Some(row) => Some(row@),
                None => None,
            };
            assert(shown == current_row(self@));
            assert(is_latest_rows(self@.logs, STATUS_LOG_LIMIT as nat, views(recent@)));
        }
        status
    }
}

} // verus!
