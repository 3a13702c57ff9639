//! The orchestrator over stores held in memory: jobs, batches, the registry
//! of worker servers and the audit trail of notifications as plain lists,
//! with every orchestrator operation carried out on them.
//!
//! A store answers a lookup by a field's value with the first record that
//! has it, and a write reaches that record only.

use vstd::prelude::*;
use crate::dispatch::{
    accepted_view, batch_request_error, batch_response, dispatched_batch, dispatched_job,
    found_batch, found_job, job_request_error, job_response, reply_failure, BatchDispatch,
    JobDispatch, WorkerReply,
};
use crate::clock::now_millis;
use crate::dto::{
    BatchProcessingJobResponse, CreateBatchProcessingJobRequest,
    CreateBatchProcessingJobRequestView, CreateProcessingJobRequest,
    CreateProcessingJobRequestView, ProcessingJobResponse,
};
use crate::error::{Missing, RequiredField, ServiceError};
use crate::job_updates::{
    apply_batch_update, apply_job_update, batch_rewritten, batch_update_of, job_rewritten,
    job_update_of, BatchUpdate, BatchUpdateView, JobUpdate, JobUpdateView,
};
use crate::models::{
    views, BatchProcessingJob, BatchProcessingJobView, ProcessingJob, ProcessingJobView,
    ProcessingServerConfig, ProcessingServerConfigView, WebhookNotification,
    WebhookNotificationView,
};
use crate::search::{first_where, lemma_first_where_after_update, lemma_first_where_skips};
use crate::signature::{accepts, verify, SIGNATURE_LEN};
use crate::text::{opt_text, str_equal};
use crate::webhook::{
    authorize_webhook, batch_secret, check_notification, job_secret, names_one_target,
    plan_webhook, secret_source, webhook_authorized, SecretSource,
};

verus! {

/// The stores of the orchestrator.
pub struct ProcessingService {
    pub jobs: Vec<ProcessingJob>,
    pub batches: Vec<BatchProcessingJob>,
    pub servers: Vec<ProcessingServerConfig>,
    pub notifications: Vec<WebhookNotification>,
}

/// What a `ProcessingService` holds, with texts as sequences of characters and
/// numbers as integers.
pub struct ProcessingServiceView {
    pub jobs: Seq<ProcessingJobView>,
    pub batches: Seq<BatchProcessingJobView>,
    pub servers: Seq<ProcessingServerConfigView>,
    pub notifications: Seq<WebhookNotificationView>,
}

impl View for ProcessingService {
    type V = ProcessingServiceView;

    open spec fn view(&self) -> ProcessingServiceView {
        ProcessingServiceView {
            jobs: views(self.jobs@),
            batches: views(self.batches@),
            servers: views(self.servers@),
            notifications: views(self.notifications@),
        }
    }
}

/// The condition of being the job with the given identifier.
pub open spec fn has_job_id(id: Seq<char>) -> spec_fn(ProcessingJobView) -> bool {
    |job: ProcessingJobView| job.job_id == id
}

/// The condition of being the batch with the given identifier.
pub open spec fn has_batch_id(id: Seq<char>) -> spec_fn(BatchProcessingJobView) -> bool {
    |batch: BatchProcessingJobView| batch.batch_id == id
}

/// The condition of being an enabled server.
pub open spec fn is_enabled() -> spec_fn(ProcessingServerConfigView) -> bool {
    |server: ProcessingServerConfigView| server.status == 1
}

/// The job that a lookup by identifier finds: the first with that
/// identifier, if there is one.
pub open spec fn job_with_id(jobs: Seq<ProcessingJobView>, id: Seq<char>) -> Option<
    ProcessingJobView,
> {
    let i = first_where(jobs, has_job_id(id), 0);
    if i < jobs.len() {
        Some(jobs[i])
    } else {
        None
    }
}

/// The batch that a lookup by identifier finds.
pub open spec fn batch_with_id(batches: Seq<BatchProcessingJobView>, id: Seq<char>) -> Option<
    BatchProcessingJobView,
> {
    let i = first_where(batches, has_batch_id(id), 0);
    if i < batches.len() {
        Some(batches[i])
    } else {
        None
    }
}

/// The server that a dispatch picks: the first enabled one, if there is one.
pub open spec fn active_server(servers: Seq<ProcessingServerConfigView>) -> Option<
    ProcessingServerConfigView,
> {
    let i = first_where(servers, is_enabled(), 0);
    if i < servers.len() {
        Some(servers[i])
    } else {
        None
    }
}

/// The jobs after a partial write to the job with the given identifier.
/// Where no job has it, nothing changes.
pub open spec fn update_job(
    jobs: Seq<ProcessingJobView>,
    id: Seq<char>,
    u: JobUpdateView,
) -> Seq<ProcessingJobView> {
    let i = first_where(jobs, has_job_id(id), 0);
    if i < jobs.len() {
        jobs.update(i, apply_job_update(jobs[i], u))
    } else {
        jobs
    }
}

/// The batches after a partial write to the batch with the given
/// identifier. Where no batch has it, nothing changes.
pub open spec fn update_batch(
    batches: Seq<BatchProcessingJobView>,
    id: Seq<char>,
    u: BatchUpdateView,
) -> Seq<BatchProcessingJobView> {
    let i = first_where(batches, has_batch_id(id), 0);
    if i < batches.len() {
        batches.update(i, apply_batch_update(batches[i], u))
    } else {
        batches
    }
}

/// The stores after a notification has arrived at `now`. One that names
/// exactly one record is added to the audit trail, and the job or batch
/// that it names is updated. One that names both a job and a batch, or
/// neither, leaves every store as it was: it enters no audit trail and
/// changes no record.
pub open spec fn after_notification(
    s: ProcessingServiceView,
    n: WebhookNotificationView,
    now: int,
) -> ProcessingServiceView {
    if names_one_target(n) {
        ProcessingServiceView {
            jobs: match n.job_id {
                Some(id) => update_job(s.jobs, id, job_update_of(n, now)),
                None => s.jobs,
            },
            batches: match n.batch_id {
                Some(id) => update_batch(s.batches, id, batch_update_of(n, now)),
                None => s.batches,
            },
            servers: s.servers,
            notifications: s.notifications.push(n),
        }
    } else {
        s
    }
}

/// Whether `r` is the answer to a notification: taken in where it names
/// exactly one record, refused as invalid where it does not.
pub open spec fn notification_answer(
    n: WebhookNotificationView,
    r: Result<(), ServiceError>,
) -> bool {
    if names_one_target(n) {
        r is Ok
    } else {
        r matches Err(ServiceError::ValidationError(RequiredField::NotificationTarget))
    }
}

/// The secret that applies to a notification: that of the job it names,
/// else that of the batch it names, where the record exists and has one.
pub open spec fn secret_for(s: ProcessingServiceView, n: WebhookNotificationView) -> Option<
    Seq<char>,
> {
    match n.job_id {
        Some(id) => match job_with_id(s.jobs, id) {
            Some(job) => job.webhook_secret,
            None => None,
        },
        None => match n.batch_id {
            Some(id) => match batch_with_id(s.batches, id) {
                Some(batch) => batch.webhook_secret,
                None => None,
            },
            None => None,
        },
    }
}

/// What the dispatch of a job at `now` makes of the stores `before`, with
/// the worker replying `reply`.
///
/// A request with an empty field is refused, and so is any request while
/// no server is enabled; a refusal by the worker ends the dispatch as well.
/// In each of these cases the stores stay as they were. Else the job is
/// recorded as pending and its view is returned.
pub open spec fn job_creation(
    before: ProcessingServiceView,
    after: ProcessingServiceView,
    r: Result<ProcessingJobResponse, ServiceError>,
    request: CreateProcessingJobRequestView,
    reply: WorkerReply<ProcessingJobResponse>,
    now: int,
) -> bool {
    match job_request_error(request) {
        Some(field) => r matches Err(ServiceError::ValidationError(f)) && f == field && after
            == before,
        None => match active_server(before.servers) {
            None => r matches Err(ServiceError::NoActiveServer) && after == before,
            Some(_) => match accepted_view(reply) {
                None => r is Err && reply_failure(reply, r->Err_0) && after == before,
                Some(accepted) => r matches Ok(view) && view@ == job_response(
                    dispatched_job(request, accepted@, now),
                ) && after == (ProcessingServiceView {
                    jobs: before.jobs.push(dispatched_job(request, accepted@, now)),
                    ..before
                }),
            },
        },
    }
}

/// What the dispatch of a batch at `now` makes of the stores `before`,
/// with the worker replying `reply`. The stores change only where the
/// batch is recorded.
pub open spec fn batch_creation(
    before: ProcessingServiceView,
    after: ProcessingServiceView,
    r: Result<BatchProcessingJobResponse, ServiceError>,
    request: CreateBatchProcessingJobRequestView,
    reply: WorkerReply<BatchProcessingJobResponse>,
    now: int,
) -> bool {
    match batch_request_error(request) {
        Some(field) => r matches Err(ServiceError::ValidationError(f)) && f == field && after
            == before,
        None => match active_server(before.servers) {
            None => r matches Err(ServiceError::NoActiveServer) && after == before,
            Some(_) => match accepted_view(reply) {
                None => r is Err && reply_failure(reply, r->Err_0) && after == before,
                Some(accepted) => r matches Ok(view) && view@ == batch_response(
                    dispatched_batch(request, accepted@, now),
                ) && after == (ProcessingServiceView {
                    batches: before.batches.push(dispatched_batch(request, accepted@, now)),
                    ..before
                }),
            },
        },
    }
}

/// What the receipt of a webhook at `now` makes of the stores `before`: a
/// notification that does not name exactly one record is refused as
/// invalid, a webhook whose signature fails under the secret that applies
/// is refused as unauthorized, and neither changes anything; every other
/// webhook is taken in.
pub open spec fn webhook_receipt(
    before: ProcessingServiceView,
    after: ProcessingServiceView,
    r: Result<(), ServiceError>,
    n: WebhookNotificationView,
    signature: Seq<char>,
    payload: Seq<char>,
    now: int,
) -> bool {
    if !names_one_target(n) {
        r matches Err(ServiceError::ValidationError(RequiredField::NotificationTarget)) && after
            == before
    } else if webhook_authorized(secret_for(before, n), signature, payload) {
        r is Ok && after == after_notification(before, n, now)
    } else {
        r matches Err(ServiceError::Unauthorized) && after == before
    }
}

impl ProcessingService {
    /// An orchestrator over the given stores.
    pub fn new(
        jobs: Vec<ProcessingJob>,
        batches: Vec<BatchProcessingJob>,
        servers: Vec<ProcessingServerConfig>,
        notifications: Vec<WebhookNotification>,
    ) -> (service: ProcessingService)
        ensures
            service.jobs == jobs,
            service.batches == batches,
            service.servers == servers,
            service.notifications == notifications,
    {
        ProcessingService { jobs, batches, servers, notifications }
    }

    /// The position of the first job with the given identifier.
    pub fn find_job(&self, job_id: &str) -> (found: Option<usize>)
        ensures
            match found {
                Some(i) => i < self@.jobs.len() && i == first_where(
                    self@.jobs,
                    has_job_id(job_id@),
                    0,
                ),
                None => first_where(self@.jobs, has_job_id(job_id@), 0) == self@.jobs.len(),
            },
    {
        let ghost jobs = self@.jobs;
        let mut i: usize = 0;
        while i < self.jobs.len()
            invariant
                i <= self.jobs.len(),
                jobs == views(self.jobs@),
                forall|j: int| 0 <= j < i ==> !has_job_id(job_id@)(#[trigger] jobs[j]),
            decreases self.jobs.len() - i,
        {
            if str_equal(self.jobs[i].job_id.as_str(), job_id) {
                proof {
                    assert(has_job_id(job_id@)(jobs[i as int]));
                    lemma_first_where_skips(jobs, has_job_id(job_id@), 0, i as int);
                }
                return Some(i);
            }
            i = i + 1;
        }
        proof {
            lemma_first_where_skips(jobs, has_job_id(job_id@), 0, jobs.len() as int);
        }
        None
    }

    /// The position of the first batch with the given identifier.
    pub fn find_batch(&self, batch_id: &str) -> (found: Option<usize>)
        ensures
            match found {
                Some(i) => i < self@.batches.len() && i == first_where(
                    self@.batches,
                    has_batch_id(batch_id@),
                    0,
                ),
                None => first_where(self@.batches, has_batch_id(batch_id@), 0)
                    == self@.batches.len(),
            },
    {
        let ghost batches = self@.batches;
        let mut i: usize = 0;
        while i < self.batches.len()
            invariant
                i <= self.batches.len(),
                batches == views(self.batches@),
                forall|j: int| 0 <= j < i ==> !has_batch_id(batch_id@)(#[trigger] batches[j]),
            decreases self.batches.len() - i,
        {
            if str_equal(self.batches[i].batch_id.as_str(), batch_id) {
                proof {
                    assert(has_batch_id(batch_id@)(batches[i as int]));
                    lemma_first_where_skips(batches, has_batch_id(batch_id@), 0, i as int);
                }
                return Some(i);
            }
            i = i + 1;
        }
        proof {
            lemma_first_where_skips(batches, has_batch_id(batch_id@), 0, batches.len() as int);
        }
        None
    }

    /// The server that takes the next dispatch: the first enabled one.
    pub fn get_active_processing_server(&self) -> (server: Option<ProcessingServerConfig>)
        ensures
            match server {
                Some(s) => active_server(self@.servers) == Some(s@),
                None => active_server(self@.servers) is None,
            },
    {
        let ghost servers = self@.servers;
        let mut i: usize = 0;
        while i < self.servers.len()
            invariant
                i <= self.servers.len(),
                servers == views(self.servers@),
                forall|j: int| 0 <= j < i ==> !is_enabled()(#[trigger] servers[j]),
            decreases self.servers.len() - i,
        {
            if self.servers[i].status == 1 {
                proof {
                    assert(is_enabled()(servers[i as int]));
                    lemma_first_where_skips(servers, is_enabled(), 0, i as int);
                }
                return Some(self.servers[i].clone());
            }
            i = i + 1;
        }
        proof {
            lemma_first_where_skips(servers, is_enabled(), 0, servers.len() as int);
        }
        None
    }

    /// Looks a job up by its identifier.
    pub fn get_processing_job(&self, job_id: &str) -> (r: Result<
        ProcessingJobResponse,
        ServiceError,
    >)
        ensures
            match job_with_id(self@.jobs, job_id@) {
                Some(job) => r matches Ok(view) && view@ == job_response(job),
                None => r matches Err(ServiceError::NotFound(Missing::Job)),
            },
    {
        let found = match self.find_job(job_id) {
            Some(i) => Some(self.jobs[i].clone()),
            None => None,
        };
        found_job(Ok(found))
    }

    /// Looks a batch up by its identifier.
    pub fn get_batch_processing_job(&self, batch_id: &str) -> (r: Result<
        BatchProcessingJobResponse,
        ServiceError,
    >)
        ensures
            match batch_with_id(self@.batches, batch_id@) {
                Some(batch) => r matches Ok(view) && view@ == batch_response(batch),
                None => r matches Err(ServiceError::NotFound(Missing::Batch)),
            },
    {
        let found = match self.find_batch(batch_id) {
            Some(i) => Some(self.batches[i].clone()),
            None => None,
        };
        found_batch(Ok(found))
    }

    /// Carries out a partial write on the job with the given identifier.
    pub fn update_processing_job_status(&mut self, job_id: &str, u: &JobUpdate)
        ensures
            final(self)@ == (ProcessingServiceView {
                jobs: update_job(old(self)@.jobs, job_id@, u@),
                ..old(self)@
            }),
    {
        match self.find_job(job_id) {
            Some(i) => {
                let mut job = self.jobs[i].clone();
                job.apply(u);
                self.jobs.set(i, job);
                assert(views(self.jobs@) =~= update_job(old(self)@.jobs, job_id@, u@));
            },
            None => {},
        }
    }

    /// Carries out a partial write on the batch with the given identifier.
    pub fn update_batch_processing_job_status(&mut self, batch_id: &str, u: &BatchUpdate)
        ensures
            final(self)@ == (ProcessingServiceView {
                batches: update_batch(old(self)@.batches, batch_id@, u@),
                ..old(self)@
            }),
    {
        match self.find_batch(batch_id) {
            Some(i) => {
                let mut batch = self.batches[i].clone();
                batch.apply(u);
                self.batches.set(i, batch);
                assert(views(self.batches@) =~= update_batch(old(self)@.batches, batch_id@, u@));
            },
            None => {},
        }
    }
    /// Dispatches a job, given what the worker replies when it is called,
    /// and keeps a record of it.
    ///
    /// A request with an empty field is refused, and so is any request
    /// while no server is enabled; a refusal by the worker ends the dispatch
    /// as well. In each of these cases the stores stay as they were. Else
    /// the job is recorded as pending and its view is returned.
    pub fn create_processing_job_at(
        &mut self,
        request: CreateProcessingJobRequest,
        reply: WorkerReply<ProcessingJobResponse>,
        now: i64,
    ) -> (r: Result<ProcessingJobResponse, ServiceError>)
        ensures
            job_creation(old(self)@, final(self)@, r, request@, reply, now as int),
            progress_in_range(old(self)@) ==> progress_in_range(final(self)@),
    {
        let dispatch = match JobDispatch::begin(request) {
            Ok(dispatch) => dispatch,
            Err(e) => {
                return Err(e);
            },
        };
        let call = match dispatch.on_server_lookup(Ok(self.get_active_processing_server())) {
            Ok(call) => call,
            Err(e) => {
                return Err(e);
            },
        };
        let insert = match call.on_reply(reply, now) {
            Ok(insert) => insert,
            Err(e) => {
                return Err(e);
            },
        };
        self.jobs.push(insert.job.clone());
        assert(views(self.jobs@) =~= old(self)@.jobs.push(insert.job@));
        proof {
            if progress_in_range(old(self)@) {
                lemma_job_record_keeps_progress_in_range(old(self)@, insert.job@);
            }
        }
        insert.on_inserted(Ok(()))
    }

    /// Dispatches a batch, given what the worker replies when it is called,
    /// and keeps a record of it. The stores change only where the batch is
    /// recorded.
    pub fn create_batch_processing_job_at(
        &mut self,
        request: CreateBatchProcessingJobRequest,
        reply: WorkerReply<BatchProcessingJobResponse>,
        now: i64,
    ) -> (r: Result<BatchProcessingJobResponse, ServiceError>)
        ensures
            batch_creation(old(self)@, final(self)@, r, request@, reply, now as int),
            progress_in_range(old(self)@) ==> progress_in_range(final(self)@),
    {
        let dispatch = match BatchDispatch::begin(request) {
            Ok(dispatch) => dispatch,
            Err(e) => {
                return Err(e);
            },
        };
        let call = match dispatch.on_server_lookup(Ok(self.get_active_processing_server())) {
            Ok(call) => call,
            Err(e) => {
                return Err(e);
            },
        };
        let insert = match call.on_reply(reply, now) {
            Ok(insert) => insert,
            Err(e) => {
                return Err(e);
            },
        };
        self.batches.push(insert.batch.clone());
        assert(views(self.batches@) =~= old(self)@.batches.push(insert.batch@));
        proof {
            if progress_in_range(old(self)@) {
                lemma_batch_record_keeps_progress_in_range(old(self)@, insert.batch@);
            }
        }
        insert.on_inserted(Ok(()))
    }

    /// Takes a notification in at `now`: it is added to the audit trail,
    /// then merged into the job or batch that it names. A notification that
    /// names both a job and a batch, or neither, is refused as invalid: it
    /// enters no audit trail and changes no record.
    pub fn handle_webhook_notification_at(
        &mut self,
        notification: WebhookNotification,
        now: i64,
    ) -> (r: Result<(), ServiceError>)
        ensures
            notification_answer(notification@, r),
            final(self)@ == after_notification(old(self)@, notification@, now as int),
            !names_one_target(notification@) ==> final(self)@ == old(self)@,
            progress_in_range(old(self)@) ==> progress_in_range(final(self)@),
    {
        proof {
            if progress_in_range(old(self)@) {
                lemma_notification_keeps_progress_in_range(
                    old(self)@,
                    notification@,
                    now as int,
                );
            }
        }
        let plan = match plan_webhook(notification, now) {
            Ok(plan) => plan,
            Err(e) => {
                return Err(e);
            },
        };
        self.notifications.push(plan.audit);
        assert(views(self.notifications@) =~= old(self)@.notifications.push(notification@));
        if let Some(write) = &plan.job {
            self.update_processing_job_status(write.job_id.as_str(), &write.update);
        }
        if let Some(write) = &plan.batch {
            self.update_batch_processing_job_status(write.batch_id.as_str(), &write.update);
        }
        Ok(())
    }

    /// Checks a webhook signature against a payload under a secret.
    pub fn verify_webhook_signature(
        &self,
        webhook_secret: &str,
        signature: &str,
        payload: &str,
    ) -> (r: Result<bool, ServiceError>)
        ensures
            r matches Ok(valid) && valid == accepts(webhook_secret@, signature@, payload@) && (
            valid ==> signature@.len() == SIGNATURE_LEN),
    {
        Ok(verify(webhook_secret, signature, payload))
    }

    /// The secret that applies to a notification.
    pub fn webhook_secret_for(&self, notification: &WebhookNotification) -> (secret: Option<
        String,
    >)
        ensures
            opt_text(secret) == secret_for(self@, notification@),
    {
        match secret_source(notification) {
            SecretSource::Job(id) => {
                let found: Result<Option<ProcessingJob>, String> = Ok(
                    match self.find_job(id.as_str()) {
                        Some(i) => Some(self.jobs[i].clone()),
                        None => None,
                    },
                );
                match job_secret(&found) {
                    Ok(secret) => secret,
                    Err(_) => None,
                }
            },
            SecretSource::Batch(id) => {
                let found: Result<Option<BatchProcessingJob>, String> = Ok(
                    match self.find_batch(id.as_str()) {
                        Some(i) => Some(self.batches[i].clone()),
                        None => None,
                    },
                );
                match batch_secret(&found) {
                    Ok(secret) => secret,
                    Err(_) => None,
                }
            },
            SecretSource::Nowhere => None,
        }
    }

    /// Receives a webhook at `now`. `payload` is the text that was signed.
    ///
    /// A notification that does not name exactly one record is refused as
    /// invalid. Where the record that the notification names holds a secret,
    /// the signature must match the payload under it: a webhook that fails
    /// this, and so every webhook whose signature has not the length of a
    /// signature, is refused as unauthorized. A refusal leaves the stores as
    /// they were. Every other webhook is taken in.
    pub fn handle_webhook_at(
        &mut self,
        notification: WebhookNotification,
        signature: &str,
        payload: &str,
        now: i64,
    ) -> (r: Result<(), ServiceError>)
        ensures
            webhook_receipt(
                old(self)@,
                final(self)@,
                r,
                notification@,
                signature@,
                payload@,
                now as int,
            ),
            (secret_for(old(self)@, notification@) is Some && signature@.len() != SIGNATURE_LEN)
                ==> (r is Err && final(self)@ == old(self)@),
            progress_in_range(old(self)@) ==> progress_in_range(final(self)@),
    {
        match check_notification(&notification) {
            Ok(()) => {},
            Err(e) => {
                return Err(e);
            },
        }
        let secret = self.webhook_secret_for(&notification);
        match authorize_webhook(&secret, signature, payload) {
            Ok(()) => self.handle_webhook_notification_at(notification, now),
            Err(e) => Err(e),
        }
    }

    /// Dispatches a job at the time that the clock shows, given what the
    /// worker replies when it is called. A request that is refused, for an
    /// empty field or for want of an enabled server, changes no store.
    pub fn create_processing_job(
        &mut self,
        request: CreateProcessingJobRequest,
        reply: WorkerReply<ProcessingJobResponse>,
    ) -> (r: Result<ProcessingJobResponse, ServiceError>)
        ensures
            exists|now: int|
                i64::MIN <= now <= i64::MAX && #[trigger] job_creation(
                    old(self)@,
                    final(self)@,
                    r,
                    request@,
                    reply,
                    now,
                ),
            progress_in_range(old(self)@) ==> progress_in_range(final(self)@),
    {
        let now = now_millis();
        let r = self.create_processing_job_at(request, reply, now);
        assert(job_creation(old(self)@, final(self)@, r, request@, reply, now as int));
        r
    }

    /// Dispatches a batch at the time that the clock shows, given what the
    /// worker replies when it is called.
    pub fn create_batch_processing_job(
        &mut self,
        request: CreateBatchProcessingJobRequest,
        reply: WorkerReply<BatchProcessingJobResponse>,
    ) -> (r: Result<BatchProcessingJobResponse, ServiceError>)
        ensures
            exists|now: int|
                i64::MIN <= now <= i64::MAX && #[trigger] batch_creation(
                    old(self)@,
                    final(self)@,
                    r,
                    request@,
                    reply,
                    now,
                ),
            progress_in_range(old(self)@) ==> progress_in_range(final(self)@),
    {
        let now = now_millis();
        let r = self.create_batch_processing_job_at(request, reply, now);
        assert(batch_creation(old(self)@, final(self)@, r, request@, reply, now as int));
        r
    }

    /// Takes a notification in at the time that the clock shows. A
    /// notification that names both a job and a batch, or neither, is
    /// refused as invalid and changes nothing.
    pub fn handle_webhook_notification(&mut self, notification: WebhookNotification) -> (r: Result<
        (),
        ServiceError,
    >)
        ensures
            notification_answer(notification@, r),
            !names_one_target(notification@) ==> final(self)@ == old(self)@,
            exists|now: int|
                i64::MIN <= now <= i64::MAX && final(self)@ == #[trigger] after_notification(
                    old(self)@,
                    notification@,
                    now,
                ),
            progress_in_range(old(self)@) ==> progress_in_range(final(self)@),
    {
        let now = now_millis();
        let r = self.handle_webhook_notification_at(notification, now);
        assert(final(self)@ == after_notification(old(self)@, notification@, now as int));
        r
    }

    /// Receives a webhook at the time that the clock shows. `payload` is
    /// the text that was signed.
    pub fn handle_webhook(
        &mut self,
        notification: WebhookNotification,
        signature: &str,
        payload: &str,
    ) -> (r: Result<(), ServiceError>)
        ensures
            exists|now: int|
                i64::MIN <= now <= i64::MAX && #[trigger] webhook_receipt(
                    old(self)@,
                    final(self)@,
                    r,
                    notification@,
                    signature@,
                    payload@,
                    now,
                ),
            (secret_for(old(self)@, notification@) is Some && signature@.len() != SIGNATURE_LEN)
                ==> (r is Err && final(self)@ == old(self)@),
            progress_in_range(old(self)@) ==> progress_in_range(final(self)@),
    {
        let now = now_millis();
        let r = self.handle_webhook_at(notification, signature, payload, now);
        assert(webhook_receipt(
            old(self)@,
            final(self)@,
            r,
            notification@,
            signature@,
            payload@,
            now as int,
        ));
        r
    }
}

/// A write to a job leaves its identifier as it was, so a second write
/// under the same identifier reaches the same job.
pub proof fn lemma_update_job_keeps_target(
    jobs: Seq<ProcessingJobView>,
    id: Seq<char>,
    u: JobUpdateView,
)
    ensures
        first_where(update_job(jobs, id, u), has_job_id(id), 0) == first_where(
            jobs,
            has_job_id(id),
            0,
        ),
        update_job(jobs, id, u).len() == jobs.len(),
{
    let i = first_where(jobs, has_job_id(id), 0);
    crate::search::lemma_first_where_is_first(jobs, has_job_id(id), 0);
    if i < jobs.len() {
        lemma_first_where_after_update(
            jobs,
            has_job_id(id),
            i,
            apply_job_update(jobs[i], u),
            0,
        );
    }
}

/// Whether the jobs `after` differ from the jobs `before` in nothing but
/// times of writing.
pub open spec fn jobs_only_rewritten(
    before: Seq<ProcessingJobView>,
    after: Seq<ProcessingJobView>,
) -> bool {
    after.len() == before.len() && forall|i: int|
        0 <= i < before.len() ==> #[trigger] after[i] == job_rewritten(
            before[i],
            after[i].updated_at,
        )
}

/// Whether the batches `after` differ from the batches `before` in nothing
/// but times of writing.
pub open spec fn batches_only_rewritten(
    before: Seq<BatchProcessingJobView>,
    after: Seq<BatchProcessingJobView>,
) -> bool {
    after.len() == before.len() && forall|i: int|
        0 <= i < before.len() ==> #[trigger] after[i] == batch_rewritten(
            before[i],
            after[i].updated_at,
        )
}

/// Writing the same notification to the jobs twice changes nothing but the
/// time of writing of the job it names: status, progress, result, error
/// and time of completion of every job are those that the first write left.
pub proof fn lemma_notification_applied_twice(
    jobs: Seq<ProcessingJobView>,
    n: WebhookNotificationView,
    id: Seq<char>,
    first: int,
    second: int,
)
    ensures
        jobs_only_rewritten(
            update_job(jobs, id, job_update_of(n, first)),
            update_job(update_job(jobs, id, job_update_of(n, first)), id, job_update_of(n, second)),
        ),
        first == second ==> update_job(
            update_job(jobs, id, job_update_of(n, first)),
            id,
            job_update_of(n, second),
        ) == update_job(jobs, id, job_update_of(n, first)),
{
    let once = update_job(jobs, id, job_update_of(n, first));
    let twice = update_job(once, id, job_update_of(n, second));
    lemma_update_job_keeps_target(jobs, id, job_update_of(n, first));
    let i = first_where(jobs, has_job_id(id), 0);
    crate::search::lemma_first_where_is_first(jobs, has_job_id(id), 0);
    if i < jobs.len() {
        crate::job_updates::lemma_job_update_applied_twice(jobs[i], n, first, second);
        assert(twice[i] == job_rewritten(once[i], second));
        assert forall|k: int| 0 <= k < once.len() implies #[trigger] twice[k] == job_rewritten(
            once[k],
            twice[k].updated_at,
        ) by {
            if k != i {
                assert(twice[k] == once[k]);
            }
        }
        if first == second {
            assert(twice =~= once);
        }
    } else {
        assert(twice =~= once);
    }
}

/// A write to a batch leaves its identifier as it was, so a second write
/// under the same identifier reaches the same batch.
pub proof fn lemma_update_batch_keeps_target(
    batches: Seq<BatchProcessingJobView>,
    id: Seq<char>,
    u: BatchUpdateView,
)
    ensures
        first_where(update_batch(batches, id, u), has_batch_id(id), 0) == first_where(
            batches,
            has_batch_id(id),
            0,
        ),
        update_batch(batches, id, u).len() == batches.len(),
{
    let i = first_where(batches, has_batch_id(id), 0);
    crate::search::lemma_first_where_is_first(batches, has_batch_id(id), 0);
    if i < batches.len() {
        lemma_first_where_after_update(
            batches,
            has_batch_id(id),
            i,
            apply_batch_update(batches[i], u),
            0,
        );
    }
}

/// Writing the same notification to the batches twice changes nothing but
/// the time of writing of the batch it names.
pub proof fn lemma_batch_notification_applied_twice(
    batches: Seq<BatchProcessingJobView>,
    n: WebhookNotificationView,
    id: Seq<char>,
    first: int,
    second: int,
)
    ensures
        batches_only_rewritten(
            update_batch(batches, id, batch_update_of(n, first)),
            update_batch(
                update_batch(batches, id, batch_update_of(n, first)),
                id,
                batch_update_of(n, second),
            ),
        ),
        first == second ==> update_batch(
            update_batch(batches, id, batch_update_of(n, first)),
            id,
            batch_update_of(n, second),
        ) == update_batch(batches, id, batch_update_of(n, first)),
{
    let once = update_batch(batches, id, batch_update_of(n, first));
    let twice = update_batch(once, id, batch_update_of(n, second));
    lemma_update_batch_keeps_target(batches, id, batch_update_of(n, first));
    let i = first_where(batches, has_batch_id(id), 0);
    crate::search::lemma_first_where_is_first(batches, has_batch_id(id), 0);
    if i < batches.len() {
        crate::job_updates::lemma_batch_update_applied_twice(batches[i], n, first, second);
        assert(twice[i] == batch_rewritten(once[i], second));
        assert forall|k: int| 0 <= k < once.len() implies #[trigger] twice[k] == batch_rewritten(
            once[k],
            twice[k].updated_at,
        ) by {
            if k != i {
                assert(twice[k] == once[k]);
            }
        }
        if first == second {
            assert(twice =~= once);
        }
    } else {
        assert(twice =~= once);
    }
}

/// Taking the same notification in twice leaves every job and every batch
/// as the first arrival left it, but for the time of writing: status,
/// progress, result, error, counters and time of completion stay. The audit
/// trail holds a notification that names exactly one record once for each
/// arrival, and any other not at all.
pub proof fn lemma_webhook_taken_in_twice(
    s: ProcessingServiceView,
    n: WebhookNotificationView,
    first: int,
    second: int,
)
    ensures
        ({
            let once = after_notification(s, n, first);
            let twice = after_notification(once, n, second);
            &&& jobs_only_rewritten(once.jobs, twice.jobs)
            &&& batches_only_rewritten(once.batches, twice.batches)
            &&& forall|i: int|
                0 <= i < once.jobs.len() ==> (#[trigger] twice.jobs[i]).status
                    == once.jobs[i].status && twice.jobs[i].progress == once.jobs[i].progress
                    && twice.jobs[i].result == once.jobs[i].result && twice.jobs[i].error
                    == once.jobs[i].error && twice.jobs[i].completed_at
                    == once.jobs[i].completed_at
            &&& twice.servers == s.servers
            &&& twice.notifications == if names_one_target(n) {
                s.notifications.push(n).push(n)
            } else {
                s.notifications
            }
            &&& first == second ==> twice.jobs == once.jobs && twice.batches == once.batches
        }),
{
    let once = after_notification(s, n, first);
    let twice = after_notification(once, n, second);
    if names_one_target(n) {
        match n.job_id {
            Some(id) => {
                lemma_notification_applied_twice(s.jobs, n, id, first, second);
            },
            None => {},
        }
        match n.batch_id {
            Some(id) => {
                lemma_batch_notification_applied_twice(s.batches, n, id, first, second);
            },
            None => {},
        }
    }
    assert forall|i: int| 0 <= i < once.jobs.len() implies #[trigger] twice.jobs[i]
        == job_rewritten(once.jobs[i], twice.jobs[i].updated_at) by {}
    assert forall|i: int| 0 <= i < once.batches.len() implies #[trigger] twice.batches[i]
        == batch_rewritten(once.batches[i], twice.batches[i].updated_at) by {}
    assert forall|i: int| 0 <= i < once.jobs.len() implies (#[trigger] twice.jobs[i]).status
        == once.jobs[i].status && twice.jobs[i].progress == once.jobs[i].progress
        && twice.jobs[i].result == once.jobs[i].result && twice.jobs[i].error
        == once.jobs[i].error && twice.jobs[i].completed_at == once.jobs[i].completed_at by {
        assert(twice.jobs[i] == job_rewritten(once.jobs[i], twice.jobs[i].updated_at));
    }
}

/// A notification that names both a job and a batch, or neither, changes
/// no store: it enters no audit trail, and no job or batch changes because
/// of it.
pub proof fn lemma_invalid_notification_changes_nothing(
    s: ProcessingServiceView,
    n: WebhookNotificationView,
    r: Result<(), ServiceError>,
    now: int,
)
    requires
        n.job_id is Some == n.batch_id is Some,
    ensures
        after_notification(s, n, now) == s,
        notification_answer(n, r) ==> r matches Err(
            ServiceError::ValidationError(RequiredField::NotificationTarget),
        ),
{
}

/// Whether the progress of every job and batch lies within 0 and 100.
pub open spec fn progress_in_range(s: ProcessingServiceView) -> bool {
    &&& forall|i: int| 0 <= i < s.jobs.len() ==> 0 <= (#[trigger] s.jobs[i]).progress <= 100
    &&& forall|i: int|
        0 <= i < s.batches.len() ==> 0 <= (#[trigger] s.batches[i]).progress <= 100
}

/// Stores in which every progress lies within 0 and 100 stay so when a
/// notification is taken in, whatever progress it reports.
pub proof fn lemma_notification_keeps_progress_in_range(
    s: ProcessingServiceView,
    n: WebhookNotificationView,
    now: int,
)
    requires
        progress_in_range(s),
    ensures
        progress_in_range(after_notification(s, n, now)),
{
    let after = after_notification(s, n, now);
    assert forall|i: int|
        0 <= i < after.jobs.len() implies 0 <= (#[trigger] after.jobs[i]).progress <= 100 by {
        match n.job_id {
            Some(id) => {
                let k = first_where(s.jobs, has_job_id(id), 0);
                crate::search::lemma_first_where_is_first(s.jobs, has_job_id(id), 0);
                if k < s.jobs.len() && i != k {
                    assert(after.jobs[i] == s.jobs[i]);
                }
                if !(k < s.jobs.len()) {
                    assert(after.jobs[i] == s.jobs[i]);
                }
            },
            None => {
                assert(after.jobs[i] == s.jobs[i]);
            },
        }
    }
    assert forall|i: int|
        0 <= i < after.batches.len() implies 0 <= (#[trigger] after.batches[i]).progress
        <= 100 by {
        match n.batch_id {
            Some(id) => {
                let k = first_where(s.batches, has_batch_id(id), 0);
                crate::search::lemma_first_where_is_first(s.batches, has_batch_id(id), 0);
                if k < s.batches.len() && i != k {
                    assert(after.batches[i] == s.batches[i]);
                }
                if !(k < s.batches.len()) {
                    assert(after.batches[i] == s.batches[i]);
                }
            },
            None => {
                assert(after.batches[i] == s.batches[i]);
            },
        }
    }
}

/// Recording a dispatched job keeps every progress within 0 and 100: a
/// record starts with no progress.
pub proof fn lemma_job_record_keeps_progress_in_range(
    s: ProcessingServiceView,
    job: ProcessingJobView,
)
    requires
        progress_in_range(s),
        job.progress == 0,
    ensures
        progress_in_range(ProcessingServiceView { jobs: s.jobs.push(job), ..s }),
{
    let with_job = ProcessingServiceView { jobs: s.jobs.push(job), ..s };
    assert forall|i: int|
        0 <= i < with_job.jobs.len() implies 0 <= (#[trigger] with_job.jobs[i]).progress
        <= 100 by {
        if i < s.jobs.len() {
            assert(with_job.jobs[i] == s.jobs[i]);
        }
    }
}

/// Recording a dispatched batch keeps every progress within 0 and 100.
pub proof fn lemma_batch_record_keeps_progress_in_range(
    s: ProcessingServiceView,
    batch: BatchProcessingJobView,
)
    requires
        progress_in_range(s),
        batch.progress == 0,
    ensures
        progress_in_range(ProcessingServiceView { batches: s.batches.push(batch), ..s }),
{
    let with_batch = ProcessingServiceView { batches: s.batches.push(batch), ..s };
    assert forall|i: int|
        0 <= i < with_batch.batches.len() implies 0 <= (#[trigger] with_batch.batches[i]).progress
        <= 100 by {
        if i < s.batches.len() {
            assert(with_batch.batches[i] == s.batches[i]);
        }
    }
}

} // verus!
