//! Handing work to a worker server, step by step: check the request, pick a
//! server, call it, keep a record of what it accepted.
//!
//! Each step takes what the store or the worker answered. A step that fails
//! ends the dispatch, so that a request that is refused early reaches neither
//! the worker nor the store.

use vstd::prelude::*;
use crate::dto::{
    BatchProcessingJobResponse, BatchProcessingJobResponseView, CreateBatchProcessingJobRequest,
    CreateBatchProcessingJobRequestView, CreateProcessingJobRequest,
    CreateProcessingJobRequestView, ProcessingJobResponse, ProcessingJobResponseView,
};
use crate::error::{
    persisted, store_failure, Missing, RemoteFailure, RequiredField, ServiceError,
};
use crate::models::{
    status_pending, views, BatchProcessingJob, BatchProcessingJobView, ProcessingJob,
    ProcessingJobView, ProcessingServerConfig,
};
use crate::text::{clone_opt_text, clone_texts, joined, opt_text, texts};

verus! {

/// The header that carries the key of the worker server.
pub const API_KEY_HEADER: &'static str = "X-API-Key";

/// The header that carries the secret of the worker server.
pub const API_SECRET_HEADER: &'static str = "X-API-Secret";

/// A value in the body of a call to a worker server.
#[derive(Debug)]
pub enum BodyValue {
    /// A text.
    Text(String),
    /// A text that may be absent.
    OptionalText(Option<String>),
    /// A list of texts.
    Texts(Vec<String>),
    /// A structured value, as JSON text.
    Json(String),
}

/// What a `BodyValue` holds, with texts as sequences of characters.
pub enum BodyValueView {
    Text(Seq<char>),
    OptionalText(Option<Seq<char>>),
    Texts(Seq<Seq<char>>),
    Json(Seq<char>),
}

impl View for BodyValue {
    type V = BodyValueView;

    open spec fn view(&self) -> BodyValueView {
        match *self {
            BodyValue::Text(t) => BodyValueView::Text(t@),
            BodyValue::OptionalText(t) => BodyValueView::OptionalText(opt_text(t)),
            BodyValue::Texts(t) => BodyValueView::Texts(texts(t@)),
            BodyValue::Json(t) => BodyValueView::Json(t@),
        }
    }
}

/// A named value in the body of a call to a worker server.
#[derive(Debug)]
pub struct BodyField {
    pub name: String,
    pub value: BodyValue,
}

/// What a `BodyField` holds, with texts as sequences of characters.
pub struct BodyFieldView {
    pub name: Seq<char>,
    pub value: BodyValueView,
}

impl View for BodyField {
    type V = BodyFieldView;

    open spec fn view(&self) -> BodyFieldView {
        BodyFieldView { name: self.name@, value: self.value@ }
    }
}

/// The body of the call that hands a job to a worker, field by field.
pub open spec fn job_body(req: CreateProcessingJobRequestView) -> Seq<BodyFieldView> {
    seq![
        BodyFieldView { name: "fileId"@, value: BodyValueView::Text(req.file_id) },
        BodyFieldView { name: "type"@, value: BodyValueView::Text(req.job_type) },
        BodyFieldView { name: "parameters"@, value: BodyValueView::Json(req.parameters) },
        BodyFieldView { name: "webhookUrl"@, value: BodyValueView::OptionalText(req.webhook_url) },
        BodyFieldView {
            name: "webhookSecret"@,
            value: BodyValueView::OptionalText(req.webhook_secret),
        },
        BodyFieldView { name: "cmsId"@, value: BodyValueView::Text(req.cms_id) },
    ]
}

/// The body of the call that hands a batch to a worker, field by field.
pub open spec fn batch_body(req: CreateBatchProcessingJobRequestView) -> Seq<BodyFieldView> {
    seq![
        BodyFieldView { name: "fileIds"@, value: BodyValueView::Texts(req.file_ids) },
        BodyFieldView { name: "processingType"@, value: BodyValueView::Text(req.processing_type) },
        BodyFieldView { name: "parameters"@, value: BodyValueView::Json(req.parameters) },
        BodyFieldView { name: "webhookUrl"@, value: BodyValueView::OptionalText(req.webhook_url) },
        BodyFieldView {
            name: "webhookSecret"@,
            value: BodyValueView::OptionalText(req.webhook_secret),
        },
        BodyFieldView { name: "cmsId"@, value: BodyValueView::Text(req.cms_id) },
    ]
}

/// What came back from a call to a worker server.
pub enum WorkerReply<T> {
    /// The call got no answer; the text is the transport's.
    Unreachable(String),
    /// The worker answered with this status code and body. `decoded` is the
    /// body read as the expected view, where it can be read as one.
    Answered { status: u16, body: String, decoded: Option<T> },
}

/// Whether a status code says that the worker accepted the work.
pub open spec fn is_success_status(code: int) -> bool {
    200 <= code < 300
}

/// Decides whether a status code says that the work was accepted.
pub fn is_success(status: u16) -> (ok: bool)
    ensures
        ok == is_success_status(status as int),
{
    200 <= status && status < 300
}

/// The field that a job request leaves empty, if any.
pub open spec fn job_request_error(req: CreateProcessingJobRequestView) -> Option<RequiredField> {
    if req.file_id.len() == 0 {
        Some(RequiredField::FileId)
    } else if req.job_type.len() == 0 {
        Some(RequiredField::JobType)
    } else {
        None
    }
}

/// The field that a batch request leaves empty, if any.
pub open spec fn batch_request_error(req: CreateBatchProcessingJobRequestView) -> Option<
    RequiredField,
> {
    if req.file_ids.len() == 0 {
        Some(RequiredField::FileIds)
    } else if req.processing_type.len() == 0 {
        Some(RequiredField::ProcessingType)
    } else {
        None
    }
}

/// The address at which a worker takes single jobs.
pub open spec fn job_endpoint(host: Seq<char>) -> Seq<char> {
    host + "/api/processing/job"@
}

/// The address at which a worker takes batches.
pub open spec fn batch_endpoint(host: Seq<char>) -> Seq<char> {
    host + "/api/processing/batch"@
}

/// The record kept of a job that a worker accepted at `now`: pending, with
/// no progress, under the identifier and file name that the worker gave it.
pub open spec fn dispatched_job(
    req: CreateProcessingJobRequestView,
    accepted: ProcessingJobResponseView,
    now: int,
) -> ProcessingJobView {
    ProcessingJobView {
        job_id: accepted.job_id,
        file_id: req.file_id,
        file_name: accepted.file_name,
        job_type: req.job_type,
        status: status_pending(),
        progress: 0,
        parameters: req.parameters,
        result: None,
        error: None,
        webhook_url: req.webhook_url,
        webhook_secret: req.webhook_secret,
        cms_id: req.cms_id,
        created_at: now,
        updated_at: now,
        completed_at: None,
    }
}

/// The number of files of a batch as its record holds it: the number itself,
/// or the largest count that the record can hold where there are more.
pub open spec fn counted_files(n: nat) -> int {
    if n <= i32::MAX {
        n as int
    } else {
        i32::MAX as int
    }
}

/// The record kept of a batch that a worker accepted at `now`: pending,
/// with no progress and no file done, counting the files of the request.
pub open spec fn dispatched_batch(
    req: CreateBatchProcessingJobRequestView,
    accepted: BatchProcessingJobResponseView,
    now: int,
) -> BatchProcessingJobView {
    BatchProcessingJobView {
        batch_id: accepted.batch_id,
        file_ids: req.file_ids,
        processing_type: req.processing_type,
        parameters: req.parameters,
        status: status_pending(),
        progress: 0,
        completed_files: 0,
        failed_files: 0,
        total_files: counted_files(req.file_ids.len()),
        webhook_url: req.webhook_url,
        webhook_secret: req.webhook_secret,
        cms_id: req.cms_id,
        created_at: now,
        updated_at: now,
        completed_at: None,
    }
}

/// The caller-visible part of a job.
pub open spec fn job_response(job: ProcessingJobView) -> ProcessingJobResponseView {
    ProcessingJobResponseView {
        job_id: job.job_id,
        file_id: job.file_id,
        file_name: job.file_name,
        job_type: job.job_type,
        status: job.status,
        progress: job.progress,
        created_at: job.created_at,
        updated_at: job.updated_at,
    }
}

/// The caller-visible part of a batch.
pub open spec fn batch_response(batch: BatchProcessingJobView) -> BatchProcessingJobResponseView {
    BatchProcessingJobResponseView {
        batch_id: batch.batch_id,
        file_ids: batch.file_ids,
        processing_type: batch.processing_type,
        status: batch.status,
        progress: batch.progress,
        completed_files: batch.completed_files,
        total_files: batch.total_files,
        created_at: batch.created_at,
        updated_at: batch.updated_at,
    }
}

/// The view that a worker sent, where it accepted the work: it answered in
/// the 2xx range with a body that reads as the expected view.
pub open spec fn accepted_view<T>(reply: WorkerReply<T>) -> Option<T> {
    match reply {
        WorkerReply::Unreachable(_) => None,
        WorkerReply::Answered { status, body, decoded } => if is_success_status(status as int) {
            decoded
        } else {
            None
        },
    }
}

/// Whether `e` is the failure that a worker's reply amounts to: no answer,
/// an answer outside the 2xx range, or a body that cannot be read.
pub open spec fn reply_failure<T>(reply: WorkerReply<T>, e: ServiceError) -> bool {
    match reply {
        WorkerReply::Unreachable(text) => e matches ServiceError::RemoteCallFailed(
            RemoteFailure::Unreachable(d),
        ) && d@ == text@,
        WorkerReply::Answered { status, body, decoded } => if !is_success_status(status as int) {
            e matches ServiceError::RemoteCallFailed(RemoteFailure::Status { code, body: b })
                && code == status && b@ == body@
        } else {
            decoded is None && (e matches ServiceError::RemoteCallFailed(
                RemoteFailure::Malformed(d),
            ) && d@ == body@)
        },
    }
}

/// Reads a worker's reply: the work was accepted only where the worker
/// answered in the 2xx range with a body that reads as the expected view.
pub fn accepted_by_worker<T>(reply: WorkerReply<T>) -> (r: Result<T, ServiceError>)
    ensures
        match accepted_view(reply) {
            Some(view) => r == Ok::<T, ServiceError>(view),
            None => r is Err && reply_failure(reply, r->Err_0),
        },
{
    match reply {
        WorkerReply::Unreachable(e) => Err(
            ServiceError::RemoteCallFailed(RemoteFailure::Unreachable(e)),
        ),
        WorkerReply::Answered { status, body, decoded } => {
            if !is_success(status) {
                Err(ServiceError::RemoteCallFailed(RemoteFailure::Status { code: status, body }))
            } else {
                match decoded {
                    None => Err(ServiceError::RemoteCallFailed(RemoteFailure::Malformed(body))),
                    Some(view) => Ok(view),
                }
            }
        },
    }
}

impl ProcessingJob {
    /// The caller-visible part of the job.
    pub fn to_response(&self) -> (r: ProcessingJobResponse)
        ensures
            r@ == job_response(self@),
    {
        ProcessingJobResponse {
            job_id: self.job_id.clone(),
            file_id: self.file_id.clone(),
            file_name: self.file_name.clone(),
            job_type: self.job_type.clone(),
            status: self.status.clone(),
            progress: self.progress,
            created_at: self.created_at,
            updated_at: self.updated_at,
        }
    }
}

impl BatchProcessingJob {
    /// The caller-visible part of the batch.
    pub fn to_response(&self) -> (r: BatchProcessingJobResponse)
        ensures
            r@ == batch_response(self@),
    {
        BatchProcessingJobResponse {
            batch_id: self.batch_id.clone(),
            file_ids: clone_texts(&self.file_ids),
            processing_type: self.processing_type.clone(),
            status: self.status.clone(),
            progress: self.progress,
            completed_files: self.completed_files,
            total_files: self.total_files,
            created_at: self.created_at,
            updated_at: self.updated_at,
        }
    }
}

/// Takes the job that a lookup by identifier found and answers the caller:
/// a lookup that found none reports the job as not found.
pub fn found_job(found: Result<Option<ProcessingJob>, String>) -> (r: Result<
    ProcessingJobResponse,
    ServiceError,
>)
    ensures
        found matches Err(e) ==> r matches Err(ServiceError::PersistenceError(d)) && d@
            == "Failed to find processing job: "@ + e@,
        found matches Ok(None) ==> r matches Err(ServiceError::NotFound(Missing::Job)),
        found matches Ok(Some(job)) ==> r matches Ok(view) && view@ == job_response(job@),
{
    match found {
        Err(e) => Err(store_failure("Failed to find processing job: ", e.as_str())),
        Ok(None) => Err(ServiceError::NotFound(Missing::Job)),
        Ok(Some(job)) => Ok(job.to_response()),
    }
}

/// Takes the batch that a lookup by identifier found and answers the
/// caller: a lookup that found none reports the batch as not found.
pub fn found_batch(found: Result<Option<BatchProcessingJob>, String>) -> (r: Result<
    BatchProcessingJobResponse,
    ServiceError,
>)
    ensures
        found matches Err(e) ==> r matches Err(ServiceError::PersistenceError(d)) && d@
            == "Failed to find batch processing job: "@ + e@,
        found matches Ok(None) ==> r matches Err(ServiceError::NotFound(Missing::Batch)),
        found matches Ok(Some(batch)) ==> r matches Ok(view) && view@ == batch_response(batch@),
{
    match found {
        Err(e) => Err(store_failure("Failed to find batch processing job: ", e.as_str())),
        Ok(None) => Err(ServiceError::NotFound(Missing::Batch)),
        Ok(Some(batch)) => Ok(batch.to_response()),
    }
}

/// A job request that passed its check. The registry is to be asked for an
/// enabled server.
pub struct JobDispatch {
    pub request: CreateProcessingJobRequest,
}

/// A job request with the server that is to take it. The worker is to be
/// called at `url`, with the server's key and secret.
pub struct JobCall {
    pub request: CreateProcessingJobRequest,
    pub server: ProcessingServerConfig,
    pub url: String,
}

/// A job that a worker accepted. Its record is to be inserted.
pub struct JobInsert {
    pub job: ProcessingJob,
}

impl JobDispatch {
    /// Checks a job request. A request without a file or without a job
    /// type is refused here, before anything else is done with it.
    pub fn begin(request: CreateProcessingJobRequest) -> (r: Result<JobDispatch, ServiceError>)
        ensures
            job_request_error(request@) matches Some(f) ==> r matches Err(
                ServiceError::ValidationError(g),
            ) && g == f,
            job_request_error(request@) is None ==> (r matches Ok(d) && d.request@ == request@),
    {
        if request.file_id.as_str().is_empty() {
            Err(ServiceError::ValidationError(RequiredField::FileId))
        } else if request.job_type.as_str().is_empty() {
            Err(ServiceError::ValidationError(RequiredField::JobType))
        } else {
            Ok(JobDispatch { request })
        }
    }

    /// Takes the registry's answer. Without an enabled server the dispatch
    /// ends.
    pub fn on_server_lookup(self, lookup: Result<Option<ProcessingServerConfig>, String>) -> (r:
        Result<JobCall, ServiceError>)
        ensures
            lookup matches Err(e) ==> r matches Err(ServiceError::PersistenceError(d)) && d@
                == "Failed to find active processing server: "@ + e@,
            lookup matches Ok(None) ==> r matches Err(ServiceError::NoActiveServer),
            lookup matches Ok(Some(server)) ==> r matches Ok(call) && call.request@
                == self.request@ && call.server@ == server@ && call.url@ == job_endpoint(
                server@.host,
            ),
    {
        match lookup {
            Err(e) => Err(
                ServiceError::PersistenceError(
                    joined("Failed to find active processing server: ", e.as_str()),
                ),
            ),
            Ok(None) => Err(ServiceError::NoActiveServer),
            Ok(Some(server)) => {
                let url = joined(server.host.as_str(), "/api/processing/job");
                Ok(JobCall { request: self.request, server, url })
            },
        }
    }
}

impl JobCall {
    /// The body of the call, field by field in the order of sending.
    pub fn body(&self) -> (fields: Vec<BodyField>)
        ensures
            views(fields@) == job_body(self.request@),
    {
        let mut fields: Vec<BodyField> = Vec::new();
        fields.push(
            BodyField {
                name: String::from_str("fileId"),
                value: BodyValue::Text(self.request.file_id.clone()),
            },
        );
        fields.push(
            BodyField {
                name: String::from_str("type"),
                value: BodyValue::Text(self.request.job_type.clone()),
            },
        );
        fields.push(
            BodyField {
                name: String::from_str("parameters"),
                value: BodyValue::Json(self.request.parameters.clone()),
            },
        );
        fields.push(
            BodyField {
                name: String::from_str("webhookUrl"),
                value: BodyValue::OptionalText(clone_opt_text(&self.request.webhook_url)),
            },
        );
        fields.push(
            BodyField {
                name: String::from_str("webhookSecret"),
                value: BodyValue::OptionalText(clone_opt_text(&self.request.webhook_secret)),
            },
        );
        fields.push(
            BodyField {
                name: String::from_str("cmsId"),
                value: BodyValue::Text(self.request.cms_id.clone()),
            },
        );
        assert(views(fields@) =~= job_body(self.request@));
        fields
    }

    /// Takes the worker's reply. Where the worker did not accept the job,
    /// the dispatch ends and no record is made.
    pub fn on_reply(self, reply: WorkerReply<ProcessingJobResponse>, now: i64) -> (r: Result<
        JobInsert,
        ServiceError,
    >)
        ensures
            match accepted_view(reply) {
                Some(accepted) => r matches Ok(insert) && insert.job@ == dispatched_job(
                    self.request@,
                    accepted@,
                    now as int,
                ),
                None => r is Err && reply_failure(reply, r->Err_0),
            },
    {
        let outcome = accepted_by_worker(reply);
        match outcome {
            Err(e) => Err(e),
            Ok(accepted) => {
                let job = ProcessingJob {
                    job_id: accepted.job_id.clone(),
                    file_id: self.request.file_id.clone(),
                    file_name: accepted.file_name.clone(),
                    job_type: self.request.job_type.clone(),
                    status: String::from_str("pending"),
                    progress: 0,
                    parameters: self.request.parameters.clone(),
                    result: None,
                    error: None,
                    webhook_url: clone_opt_text(&self.request.webhook_url),
                    webhook_secret: clone_opt_text(&self.request.webhook_secret),
                    cms_id: self.request.cms_id.clone(),
                    created_at: now,
                    updated_at: now,
                    completed_at: None,
                };
                Ok(JobInsert { job })
            },
        }
    }
}

impl JobInsert {
    /// Takes the outcome of the insert and answers the caller.
    pub fn on_inserted(self, outcome: Result<(), String>) -> (r: Result<
        ProcessingJobResponse,
        ServiceError,
    >)
        ensures
            outcome is Ok ==> (r matches Ok(view) && view@ == job_response(self.job@)),
            outcome matches Err(e) ==> r matches Err(ServiceError::PersistenceError(d)) && d@
                == "Failed to create processing job"@ + ": "@ + e@,
    {
        match persisted(outcome, "Failed to create processing job") {
            Ok(()) => Ok(self.job.to_response()),
            Err(e) => Err(e),
        }
    }
}

/// A batch request that passed its check. The registry is to be asked for
/// an enabled server.
pub struct BatchDispatch {
    pub request: CreateBatchProcessingJobRequest,
}

/// A batch request with the server that is to take it. The worker is to be
/// called at `url`, with the server's key and secret.
pub struct BatchCall {
    pub request: CreateBatchProcessingJobRequest,
    pub server: ProcessingServerConfig,
    pub url: String,
}

/// A batch that a worker accepted. Its record is to be inserted.
pub struct BatchInsert {
    pub batch: BatchProcessingJob,
}

impl BatchDispatch {
    /// Checks a batch request. A request without files or without a
    /// processing type is refused here, before anything else is done with it.
    pub fn begin(request: CreateBatchProcessingJobRequest) -> (r: Result<
        BatchDispatch,
        ServiceError,
    >)
        ensures
            batch_request_error(request@) matches Some(f) ==> r matches Err(
                ServiceError::ValidationError(g),
            ) && g == f,
            batch_request_error(request@) is None ==> (r matches Ok(d) && d.request@
                == request@),
    {
        if request.file_ids.len() == 0 {
            Err(ServiceError::ValidationError(RequiredField::FileIds))
        } else if request.processing_type.as_str().is_empty() {
            Err(ServiceError::ValidationError(RequiredField::ProcessingType))
        } else {
            Ok(BatchDispatch { request })
        }
    }

    /// Takes the registry's answer. Without an enabled server the dispatch
    /// ends.
    pub fn on_server_lookup(self, lookup: Result<Option<ProcessingServerConfig>, String>) -> (r:
        Result<BatchCall, ServiceError>)
        ensures
            lookup matches Err(e) ==> r matches Err(ServiceError::PersistenceError(d)) && d@
                == "Failed to find active processing server: "@ + e@,
            lookup matches Ok(None) ==> r matches Err(ServiceError::NoActiveServer),
            lookup matches Ok(Some(server)) ==> r matches Ok(call) && call.request@
                == self.request@ && call.server@ == server@ && call.url@ == batch_endpoint(
                server@.host,
            ),
    {
        match lookup {
            Err(e) => Err(
                ServiceError::PersistenceError(
                    joined("Failed to find active processing server: ", e.as_str()),
                ),
            ),
            Ok(None) => Err(ServiceError::NoActiveServer),
            Ok(Some(server)) => {
                let url = joined(server.host.as_str(), "/api/processing/batch");
                Ok(BatchCall { request: self.request, server, url })
            },
        }
    }
}

impl BatchCall {
    /// The body of the call, field by field in the order of sending.
    pub fn body(&self) -> (fields: Vec<BodyField>)
        ensures
            views(fields@) == batch_body(self.request@),
    {
        let mut fields: Vec<BodyField> = Vec::new();
        fields.push(
            BodyField {
                name: String::from_str("fileIds"),
                value: BodyValue::Texts(clone_texts(&self.request.file_ids)),
            },
        );
        fields.push(
            BodyField {
                name: String::from_str("processingType"),
                value: BodyValue::Text(self.request.processing_type.clone()),
            },
        );
        fields.push(
            BodyField {
                name: String::from_str("parameters"),
                value: BodyValue::Json(self.request.parameters.clone()),
            },
        );
        fields.push(
            BodyField {
                name: String::from_str("webhookUrl"),
                value: BodyValue::OptionalText(clone_opt_text(&self.request.webhook_url)),
            },
        );
        fields.push(
            BodyField {
                name: String::from_str("webhookSecret"),
                value: BodyValue::OptionalText(clone_opt_text(&self.request.webhook_secret)),
            },
        );
        fields.push(
            BodyField {
                name: String::from_str("cmsId"),
                value: BodyValue::Text(self.request.cms_id.clone()),
            },
        );
        assert(views(fields@) =~= batch_body(self.request@));
        fields
    }

    /// Takes the worker's reply. Where the worker did not accept the batch,
    /// the dispatch ends and no record is made.
    pub fn on_reply(self, reply: WorkerReply<BatchProcessingJobResponse>, now: i64) -> (r:
        Result<BatchInsert, ServiceError>)
        ensures
            match accepted_view(reply) {
                Some(accepted) => r matches Ok(insert) && insert.batch@ == dispatched_batch(
                    self.request@,
                    accepted@,
                    now as int,
                ),
                None => r is Err && reply_failure(reply, r->Err_0),
            },
    {
        let outcome = accepted_by_worker(reply);
        match outcome {
            Err(e) => Err(e),
            Ok(accepted) => {
                let count = self.request.file_ids.len();
                let total_files: i32 = if count <= 0x7fff_ffff {
                    count as i32
                } else {
                    i32::MAX
                };
                let batch = BatchProcessingJob {
                    batch_id: accepted.batch_id.clone(),
                    file_ids: clone_texts(&self.request.file_ids),
                    processing_type: self.request.processing_type.clone(),
                    parameters: self.request.parameters.clone(),
                    status: String::from_str("pending"),
                    progress: 0,
                    completed_files: 0,
                    failed_files: 0,
                    total_files,
                    webhook_url: clone_opt_text(&self.request.webhook_url),
                    webhook_secret: clone_opt_text(&self.request.webhook_secret),
                    cms_id: self.request.cms_id.clone(),
                    created_at: now,
                    updated_at: now,
                    completed_at: None,
                };
                Ok(BatchInsert { batch })
            },
        }
    }
}

impl BatchInsert {
    /// Takes the outcome of the insert and answers the caller.
    pub fn on_inserted(self, outcome: Result<(), String>) -> (r: Result<
        BatchProcessingJobResponse,
        ServiceError,
    >)
        ensures
            outcome is Ok ==> (r matches Ok(view) && view@ == batch_response(self.batch@)),
            outcome matches Err(e) ==> r matches Err(ServiceError::PersistenceError(d)) && d@
                == "Failed to create batch processing job"@ + ": "@ + e@,
    {
        match persisted(outcome, "Failed to create batch processing job") {
            Ok(()) => Ok(self.batch.to_response()),
            Err(e) => Err(e),
        }
    }
}

} // verus!
