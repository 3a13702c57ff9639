//! The failures that the orchestrator reports to its caller.

use vstd::prelude::*;
use crate::text::{joined, decimal, decimal_text};

verus! {

/// A field that a request must fill.
#[derive(Debug, Clone, Copy, PartialEq, Eq, Structural)]
pub enum RequiredField {
    FileId,
    JobType,
    FileIds,
    ProcessingType,
    /// The one record that a notification is about: a job or a batch, not
    /// both and not neither.
    NotificationTarget,
}

/// The kind of record that a lookup did not find.
#[derive(Debug, Clone, Copy, PartialEq, Eq, Structural)]
pub enum Missing {
    Job,
    Batch,
}

/// How a call to a worker server went wrong.
#[derive(Debug)]
pub enum RemoteFailure {
    /// The request never got an answer; the text is the transport's.
    Unreachable(String),
    /// The worker answered outside the 2xx range, with this body.
    Status { code: u16, body: String },
    /// The worker answered in the 2xx range with a body that is no job view.
    Malformed(String),
}

/// A failure of an orchestrator operation.
#[derive(Debug)]
pub enum ServiceError {
    /// The request left a required field empty.
    ValidationError(RequiredField),
    /// No worker server is enabled.
    NoActiveServer,
    /// The worker could not be reached or refused the work.
    RemoteCallFailed(RemoteFailure),
    /// No record carries the identifier that was asked for.
    NotFound(Missing),
    /// The webhook signature does not match the payload.
    Unauthorized,
    /// The store failed; the text says during what, and how.
    PersistenceError(String),
}

/// The text of a remote failure.
pub open spec fn remote_failure_text(f: RemoteFailure) -> Seq<char> {
    match f {
        RemoteFailure::Unreachable(e) => "Failed to call processing server: "@ + e@,
        RemoteFailure::Status { code, body } => "Processing server returned error status "@
            + decimal(code as nat) + ": "@ + body@,
        RemoteFailure::Malformed(e) => "Failed to parse processing server response: "@ + e@,
    }
}

/// The text of a missing field.
pub open spec fn required_field_text(f: RequiredField) -> Seq<char> {
    match f {
        RequiredField::FileId => "file_id must not be empty"@,
        RequiredField::JobType => "job_type must not be empty"@,
        RequiredField::FileIds => "file_ids must not be empty"@,
        RequiredField::ProcessingType => "processing_type must not be empty"@,
        RequiredField::NotificationTarget => "exactly one of job_id and batch_id must be set"@,
    }
}

/// The text of a failure, as it is shown to the caller.
pub open spec fn error_text(e: ServiceError) -> Seq<char> {
    match e {
        ServiceError::ValidationError(f) => required_field_text(f),
        ServiceError::NoActiveServer => "No active processing server available"@,
        ServiceError::RemoteCallFailed(f) => remote_failure_text(f),
        ServiceError::NotFound(Missing::Job) => "Processing job not found"@,
        ServiceError::NotFound(Missing::Batch) => "Batch processing job not found"@,
        ServiceError::Unauthorized => "Invalid webhook signature"@,
        ServiceError::PersistenceError(d) => d@,
    }
}

/// The HTTP status with which a failure is answered: 400 for a request
/// that is refused, 401 for a bad signature, 404 for a record that is not
/// there, and 500 for a failure of a worker or of the store.
pub open spec fn status_code_of(e: ServiceError) -> int {
    match e {
        ServiceError::ValidationError(_) => 400,
        ServiceError::Unauthorized => 401,
        ServiceError::NotFound(_) => 404,
        ServiceError::NoActiveServer => 500,
        ServiceError::RemoteCallFailed(_) => 500,
        ServiceError::PersistenceError(_) => 500,
    }
}

impl RemoteFailure {
    /// The failure as text.
    pub fn message(&self) -> (m: String)
        ensures
            m@ == remote_failure_text(*self),
    {
        match self {
            RemoteFailure::Unreachable(e) => joined(
                "Failed to call processing server: ",
                e.as_str(),
            ),
            RemoteFailure::Status { code, body } => {
                let mut m = joined(
                    "Processing server returned error status ",
                    decimal_text(*code as u64).as_str(),
                );
                m.append(": ");
                m.append(body.as_str());
                m
            },
            RemoteFailure::Malformed(e) => joined(
                "Failed to parse processing server response: ",
                e.as_str(),
            ),
        }
    }
}

impl ServiceError {
    /// The HTTP status with which the failure is answered.
    pub fn status_code(&self) -> (code: u16)
        ensures
            code == status_code_of(*self),
    {
        match self {
            ServiceError::ValidationError(_) => 400,
            ServiceError::Unauthorized => 401,
            ServiceError::NotFound(_) => 404,
            ServiceError::NoActiveServer => 500,
            ServiceError::RemoteCallFailed(_) => 500,
            ServiceError::PersistenceError(_) => 500,
        }
    }

    /// The failure as text.
    pub fn message(&self) -> (m: String)
        ensures
            m@ == error_text(*self),
    {
        match self {
            ServiceError::ValidationError(f) => match f {
                RequiredField::FileId => String::from_str("file_id must not be empty"),
                RequiredField::JobType => String::from_str("job_type must not be empty"),
                RequiredField::FileIds => String::from_str("file_ids must not be empty"),
                RequiredField::ProcessingType => String::from_str(
                    "processing_type must not be empty",
                ),
                RequiredField::NotificationTarget => String::from_str(
                    "exactly one of job_id and batch_id must be set",
                ),
            },
            ServiceError::NoActiveServer => String::from_str(
                "No active processing server available",
            ),
            ServiceError::RemoteCallFailed(f) => f.message(),
            ServiceError::NotFound(Missing::Job) => String::from_str("Processing job not found"),
            ServiceError::NotFound(Missing::Batch) => String::from_str(
                "Batch processing job not found",
            ),
            ServiceError::Unauthorized => String::from_str("Invalid webhook signature"),
            ServiceError::PersistenceError(d) => d.clone(),
        }
    }
}

/// A persistence error whose text is `context` followed by the store's own
/// words.
pub fn store_failure(context: &str, detail: &str) -> (e: ServiceError)
    ensures
        e matches ServiceError::PersistenceError(d) && d@ == context@ + detail@,
{
    ServiceError::PersistenceError(joined(context, detail))
}

/// Turns the outcome of a store write into the caller's result: a failure is
/// reported as a persistence error whose text is `context` followed by the
/// store's own words.
pub fn persisted(outcome: Result<(), String>, context: &str) -> (r: Result<(), ServiceError>)
    ensures
        outcome is Ok <==> r is Ok,
        outcome matches Err(e) ==> (r matches Err(ServiceError::PersistenceError(d)) && d@
            == context@ + ": "@ + e@),
{
    match outcome {
        Ok(()) => Ok(()),
        Err(e) => {
            let mut d = joined(context, ": ");
            d.append(e.as_str());
            Err(ServiceError::PersistenceError(d))
        },
    }
}

} // verus!
