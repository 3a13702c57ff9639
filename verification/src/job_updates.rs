//! How a webhook notification changes the record it is about.
//!
//! A notification is merged into the stored record: the fields it carries
//! replace the stored ones, the fields it leaves out stay. The progress is
//! held within 0 and 100. The time of completion is written once, by the
//! first notification that reports a terminal status, so that a
//! notification that arrives again changes nothing but the time of writing.

use vstd::prelude::*;
use crate::models::{
    is_terminal_status, opt_count, opt_time, status_is_terminal, BatchProcessingJob,
    BatchProcessingJobView, ProcessingJob, ProcessingJobView, WebhookNotification,
    WebhookNotificationView,
};
use crate::text::{clone_opt_text, opt_text};

verus! {

/// The partial write that a notification asks for on a job: status, progress
/// and time of writing always, the other fields only where they are present.
#[derive(Debug)]
pub struct JobUpdate {
    pub status: String,
    /// The progress to write, which a record holds within 0 and 100.
    pub progress: i32,
    pub updated_at: i64,
    pub result: Option<String>,
    pub error: Option<String>,
    /// The time of completion, to be written only where the record holds
    /// none yet.
    pub completed_at: Option<i64>,
}

/// What a `JobUpdate` holds, with texts as sequences of characters and
/// numbers as integers.
pub struct JobUpdateView {
    pub status: Seq<char>,
    pub progress: int,
    pub updated_at: int,
    pub result: Option<Seq<char>>,
    pub error: Option<Seq<char>>,
    pub completed_at: Option<int>,
}

impl View for JobUpdate {
    type V = JobUpdateView;

    open spec fn view(&self) -> JobUpdateView {
        JobUpdateView {
            status: self.status@,
            progress: self.progress as int,
            updated_at: self.updated_at as int,
            result: opt_text(self.result),
            error: opt_text(self.error),
            completed_at: opt_time(self.completed_at),
        }
    }
}

impl Clone for JobUpdate {
    fn clone(&self) -> (copy: Self)
        ensures
            copy@ == self@,
    {
        JobUpdate {
            status: self.status.clone(),
            progress: self.progress,
            updated_at: self.updated_at,
            result: clone_opt_text(&self.result),
            error: clone_opt_text(&self.error),
            completed_at: self.completed_at,
        }
    }
}

/// The partial write that a notification asks for on a batch.
#[derive(Debug)]
pub struct BatchUpdate {
    pub status: String,
    /// The progress to write, which a record holds within 0 and 100.
    pub progress: i32,
    pub updated_at: i64,
    pub completed_files: Option<i32>,
    pub failed_files: Option<i32>,
    /// The time of completion, to be written only where the record holds
    /// none yet.
    pub completed_at: Option<i64>,
}

/// What a `BatchUpdate` holds, with texts as sequences of characters and
/// numbers as integers.
pub struct BatchUpdateView {
    pub status: Seq<char>,
    pub progress: int,
    pub updated_at: int,
    pub completed_files: Option<int>,
    pub failed_files: Option<int>,
    pub completed_at: Option<int>,
}

impl View for BatchUpdate {
    type V = BatchUpdateView;

    open spec fn view(&self) -> BatchUpdateView {
        BatchUpdateView {
            status: self.status@,
            progress: self.progress as int,
            updated_at: self.updated_at as int,
            completed_files: opt_count(self.completed_files),
            failed_files: opt_count(self.failed_files),
            completed_at: opt_time(self.completed_at),
        }
    }
}

impl Clone for BatchUpdate {
    fn clone(&self) -> (copy: Self)
        ensures
            copy@ == self@,
    {
        BatchUpdate {
            status: self.status.clone(),
            progress: self.progress,
            updated_at: self.updated_at,
            completed_files: self.completed_files,
            failed_files: self.failed_files,
            completed_at: self.completed_at,
        }
    }
}


/// A progress as a record holds it: within 0 and 100, a report beyond
/// either end held at that end.
pub open spec fn held_progress(progress: int) -> int {
    if progress < 0 {
        0
    } else if progress > 100 {
        100
    } else {
        progress
    }
}

/// Holds a reported progress within 0 and 100.
pub fn hold_progress(progress: i32) -> (held: i32)
    ensures
        held == held_progress(progress as int),
        0 <= held <= 100,
{
    if progress < 0 {
        0
    } else if progress > 100 {
        100
    } else {
        progress
    }
}

/// The write that a notification asks for on a job, when it arrives at
/// `now`. The progress is held within 0 and 100. With a terminal status
/// the write carries `now` as the time of completion, which a record takes
/// only where it holds none yet.
pub open spec fn job_update_of(n: WebhookNotificationView, now: int) -> JobUpdateView {
    JobUpdateView {
        status: n.status,
        progress: held_progress(n.progress),
        updated_at: now,
        result: n.result,
        error: n.error,
        completed_at: if is_terminal_status(n.status) {
            Some(now)
        } else {
            None
        },
    }
}

/// The write that a notification asks for on a batch, when it arrives at
/// `now`, with progress and time of completion as for a job.
pub open spec fn batch_update_of(n: WebhookNotificationView, now: int) -> BatchUpdateView {
    BatchUpdateView {
        status: n.status,
        progress: held_progress(n.progress),
        updated_at: now,
        completed_files: n.completed_files,
        failed_files: n.failed_files,
        completed_at: if is_terminal_status(n.status) {
            Some(now)
        } else {
            None
        },
    }
}

/// The time of completion of a record after a write: the one it holds, or
/// where it holds none, the one that the write carries.
pub open spec fn completion_after(held: Option<int>, carried: Option<int>) -> Option<int> {
    match held {
        Some(t) => Some(t),
        None => carried,
    }
}

/// A job after a partial write. Status and time of writing are replaced,
/// the progress is replaced and held within 0 and 100, result and error are
/// replaced where the write carries them, and the time of completion is
/// taken only where the job holds none.
pub open spec fn apply_job_update(job: ProcessingJobView, u: JobUpdateView) -> ProcessingJobView {
    ProcessingJobView {
        status: u.status,
        progress: held_progress(u.progress),
        updated_at: u.updated_at,
        result: match u.result {
            Some(r) => Some(r),
            None => job.result,
        },
        error: match u.error {
            Some(e) => Some(e),
            None => job.error,
        },
        completed_at: completion_after(job.completed_at, u.completed_at),
        ..job
    }
}

/// A batch after a partial write, with progress and time of completion as
/// for a job.
pub open spec fn apply_batch_update(
    batch: BatchProcessingJobView,
    u: BatchUpdateView,
) -> BatchProcessingJobView {
    BatchProcessingJobView {
        status: u.status,
        progress: held_progress(u.progress),
        updated_at: u.updated_at,
        completed_files: match u.completed_files {
            Some(n) => n,
            None => batch.completed_files,
        },
        failed_files: match u.failed_files {
            Some(n) => n,
            None => batch.failed_files,
        },
        completed_at: completion_after(batch.completed_at, u.completed_at),
        ..batch
    }
}

impl JobUpdate {
    /// The write that a notification asks for on a job.
    pub fn from_notification(n: &WebhookNotification, now: i64) -> (u: JobUpdate)
        ensures
            u@ == job_update_of(n@, now as int),
    {
        let terminal = status_is_terminal(n.status.as_str());
        JobUpdate {
            status: n.status.clone(),
            progress: hold_progress(n.progress),
            updated_at: now,
            result: clone_opt_text(&n.result),
            error: clone_opt_text(&n.error),
            completed_at: if terminal {
                Some(now)
            } else {
                None
            },
        }
    }
}

impl BatchUpdate {
    /// The write that a notification asks for on a batch.
    pub fn from_notification(n: &WebhookNotification, now: i64) -> (u: BatchUpdate)
        ensures
            u@ == batch_update_of(n@, now as int),
    {
        let terminal = status_is_terminal(n.status.as_str());
        BatchUpdate {
            status: n.status.clone(),
            progress: hold_progress(n.progress),
            updated_at: now,
            completed_files: n.completed_files,
            failed_files: n.failed_files,
            completed_at: if terminal {
                Some(now)
            } else {
                None
            },
        }
    }
}

impl ProcessingJob {
    /// Carries out a partial write on the job.
    pub fn apply(&mut self, u: &JobUpdate)
        ensures
            final(self)@ == apply_job_update(old(self)@, u@),
            0 <= final(self)@.progress <= 100,
    {
        self.status = u.status.clone();
        self.progress = hold_progress(u.progress);
        self.updated_at = u.updated_at;
        if let Some(r) = &u.result {
            self.result = Some(r.clone());
        }
        if let Some(e) = &u.error {
            self.error = Some(e.clone());
        }
        if self.completed_at.is_none() {
            self.completed_at = u.completed_at;
        }
    }
}

impl BatchProcessingJob {
    /// Carries out a partial write on the batch.
    pub fn apply(&mut self, u: &BatchUpdate)
        ensures
            final(self)@ == apply_batch_update(old(self)@, u@),
            0 <= final(self)@.progress <= 100,
    {
        self.status = u.status.clone();
        self.progress = hold_progress(u.progress);
        self.updated_at = u.updated_at;
        if let Some(n) = u.completed_files {
            self.completed_files = n;
        }
        if let Some(n) = u.failed_files {
            self.failed_files = n;
        }
        if self.completed_at.is_none() {
            self.completed_at = u.completed_at;
        }
    }
}

/// A job that differs from another in nothing but the time of writing.
pub open spec fn job_rewritten(job: ProcessingJobView, at: int) -> ProcessingJobView {
    ProcessingJobView { updated_at: at, ..job }
}

/// A batch that differs from another in nothing but the time of writing.
pub open spec fn batch_rewritten(batch: BatchProcessingJobView, at: int) -> BatchProcessingJobView {
    BatchProcessingJobView { updated_at: at, ..batch }
}

/// Applying a notification a second time changes nothing but the time of
/// writing: status, progress, result, error and the time of completion are
/// those that the first application left.
pub proof fn lemma_job_update_applied_twice(
    job: ProcessingJobView,
    n: WebhookNotificationView,
    first: int,
    second: int,
)
    ensures
        ({
            let once = apply_job_update(job, job_update_of(n, first));
            let twice = apply_job_update(once, job_update_of(n, second));
            &&& twice == job_rewritten(once, second)
            &&& twice.status == once.status
            &&& twice.progress == once.progress
            &&& twice.result == once.result
            &&& twice.error == once.error
            &&& twice.completed_at == once.completed_at
            &&& first == second ==> twice == once
        }),
{
}

/// Applying a notification to a batch a second time changes nothing but
/// the time of writing.
pub proof fn lemma_batch_update_applied_twice(
    batch: BatchProcessingJobView,
    n: WebhookNotificationView,
    first: int,
    second: int,
)
    ensures
        ({
            let once = apply_batch_update(batch, batch_update_of(n, first));
            let twice = apply_batch_update(once, batch_update_of(n, second));
            &&& twice == batch_rewritten(once, second)
            &&& twice.status == once.status
            &&& twice.progress == once.progress
            &&& twice.completed_files == once.completed_files
            &&& twice.failed_files == once.failed_files
            &&& twice.completed_at == once.completed_at
            &&& first == second ==> twice == once
        }),
{
}

/// The time of completion is written once: a record that holds none takes
/// the time of the first application that reports a terminal status, and a
/// record that holds one keeps it whatever is reported later. A report
/// with any other status leaves it as it was.
pub proof fn lemma_completion_is_stamped_once(
    job: ProcessingJobView,
    batch: BatchProcessingJobView,
    n: WebhookNotificationView,
    now: int,
)
    ensures
        apply_job_update(job, job_update_of(n, now)).completed_at == match job.completed_at {
            Some(t) => Some(t),
            None => if is_terminal_status(n.status) {
                Some(now)
            } else {
                None
            },
        },
        apply_batch_update(batch, batch_update_of(n, now)).completed_at
            == match batch.completed_at {
            Some(t) => Some(t),
            None => if is_terminal_status(n.status) {
                Some(now)
            } else {
                None
            },
        },
        apply_job_update(job, job_update_of(n, now)).job_id == job.job_id,
        apply_job_update(job, job_update_of(n, now)).created_at == job.created_at,
        apply_batch_update(batch, batch_update_of(n, now)).batch_id == batch.batch_id,
        apply_batch_update(batch, batch_update_of(n, now)).total_files == batch.total_files,
{
}

/// After every write the progress of a record lies within 0 and 100,
/// whatever the write carries and whatever the record held.
pub proof fn lemma_progress_stays_in_range(
    job: ProcessingJobView,
    batch: BatchProcessingJobView,
    ju: JobUpdateView,
    bu: BatchUpdateView,
)
    ensures
        0 <= apply_job_update(job, ju).progress <= 100,
        0 <= apply_batch_update(batch, bu).progress <= 100,
        0 <= ju.progress <= 100 ==> apply_job_update(job, ju).progress == ju.progress,
        0 <= bu.progress <= 100 ==> apply_batch_update(batch, bu).progress == bu.progress,
{
}

} // verus!
