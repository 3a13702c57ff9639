//! What callers hand to the orchestrator and what it hands back.

use vstd::prelude::*;
use crate::text::{clone_opt_text, clone_texts, opt_text, texts};

verus! {

/// A request to process one file.
#[derive(Debug)]
pub struct CreateProcessingJobRequest {
    pub file_id: String,
    pub job_type: String,
    pub parameters: String,
    pub webhook_url: Option<String>,
    pub webhook_secret: Option<String>,
    pub cms_id: String,
}

/// What a `CreateProcessingJobRequest` holds, with texts as sequences of characters and
/// numbers as integers.
pub struct CreateProcessingJobRequestView {
    pub file_id: Seq<char>,
    pub job_type: Seq<char>,
    pub parameters: Seq<char>,
    pub webhook_url: Option<Seq<char>>,
    pub webhook_secret: Option<Seq<char>>,
    pub cms_id: Seq<char>,
}

impl View for CreateProcessingJobRequest {
    type V = CreateProcessingJobRequestView;

    open spec fn view(&self) -> CreateProcessingJobRequestView {
        CreateProcessingJobRequestView {
            file_id: self.file_id@,
            job_type: self.job_type@,
            parameters: self.parameters@,
            webhook_url: opt_text(self.webhook_url),
            webhook_secret: opt_text(self.webhook_secret),
            cms_id: self.cms_id@,
        }
    }
}

impl Clone for CreateProcessingJobRequest {
    fn clone(&self) -> (copy: Self)
        ensures
            copy@ == self@,
    {
        CreateProcessingJobRequest {
            file_id: self.file_id.clone(),
            job_type: self.job_type.clone(),
            parameters: self.parameters.clone(),
            webhook_url: clone_opt_text(&self.webhook_url),
            webhook_secret: clone_opt_text(&self.webhook_secret),
            cms_id: self.cms_id.clone(),
        }
    }
}

/// A request to process a set of files in one batch.
#[derive(Debug)]
pub struct CreateBatchProcessingJobRequest {
    pub file_ids: Vec<String>,
    pub processing_type: String,
    pub parameters: String,
    pub webhook_url: Option<String>,
    pub webhook_secret: Option<String>,
    pub cms_id: String,
}

/// What a `CreateBatchProcessingJobRequest` holds, with texts as sequences of characters and
/// numbers as integers.
pub struct CreateBatchProcessingJobRequestView {
    pub file_ids: Seq<Seq<char>>,
    pub processing_type: Seq<char>,
    pub parameters: Seq<char>,
    pub webhook_url: Option<Seq<char>>,
    pub webhook_secret: Option<Seq<char>>,
    pub cms_id: Seq<char>,
}

impl View for CreateBatchProcessingJobRequest {
    type V = CreateBatchProcessingJobRequestView;

    open spec fn view(&self) -> CreateBatchProcessingJobRequestView {
        CreateBatchProcessingJobRequestView {
            file_ids: texts(self.file_ids@),
            processing_type: self.processing_type@,
            parameters: self.parameters@,
            webhook_url: opt_text(self.webhook_url),
            webhook_secret: opt_text(self.webhook_secret),
            cms_id: self.cms_id@,
        }
    }
}

impl Clone for CreateBatchProcessingJobRequest {
    fn clone(&self) -> (copy: Self)
        ensures
            copy@ == self@,
    {
        CreateBatchProcessingJobRequest {
            file_ids: clone_texts(&self.file_ids),
            processing_type: self.processing_type.clone(),
            parameters: self.parameters.clone(),
            webhook_url: clone_opt_text(&self.webhook_url),
            webhook_secret: clone_opt_text(&self.webhook_secret),
            cms_id: self.cms_id.clone(),
        }
    }
}

/// The caller-visible part of a job.
#[derive(Debug)]
pub struct ProcessingJobResponse {
    pub job_id: String,
    pub file_id: String,
    pub file_name: String,
    pub job_type: String,
    pub status: String,
    pub progress: i32,
    pub created_at: i64,
    pub updated_at: i64,
}

/// What a `ProcessingJobResponse` holds, with texts as sequences of characters and
/// numbers as integers.
pub struct ProcessingJobResponseView {
    pub job_id: Seq<char>,
    pub file_id: Seq<char>,
    pub file_name: Seq<char>,
    pub job_type: Seq<char>,
    pub status: Seq<char>,
    pub progress: int,
    pub created_at: int,
    pub updated_at: int,
}

impl View for ProcessingJobResponse {
    type V = ProcessingJobResponseView;

    open spec fn view(&self) -> ProcessingJobResponseView {
        ProcessingJobResponseView {
            job_id: self.job_id@,
            file_id: self.file_id@,
            file_name: self.file_name@,
            job_type: self.job_type@,
            status: self.status@,
            progress: self.progress as int,
            created_at: self.created_at as int,
            updated_at: self.updated_at as int,
        }
    }
}

impl Clone for ProcessingJobResponse {
    fn clone(&self) -> (copy: Self)
        ensures
            copy@ == self@,
    {
        ProcessingJobResponse {
            job_id: self.job_id.clone(),
            file_id: self.file_id.clone(),
            file_name: self.file_name.clone(),
            job_type: self.job_type.clone(),
            status: self.status.clone(),
            progress: self.progress,
            created_at: self.created_at,
            updated_at: self.updated_at,
        }
    }
}

/// The caller-visible part of a batch.
#[derive(Debug)]
pub struct BatchProcessingJobResponse {
    pub batch_id: String,
    pub file_ids: Vec<String>,
    pub processing_type: String,
    pub status: String,
    pub progress: i32,
    pub completed_files: i32,
    pub total_files: i32,
    pub created_at: i64,
    pub updated_at: i64,
}

/// What a `BatchProcessingJobResponse` holds, with texts as sequences of characters and
/// numbers as integers.
pub struct BatchProcessingJobResponseView {
    pub batch_id: Seq<char>,
    pub file_ids: Seq<Seq<char>>,
    pub processing_type: Seq<char>,
    pub status: Seq<char>,
    pub progress: int,
    pub completed_files: int,
    pub total_files: int,
    pub created_at: int,
    pub updated_at: int,
}

impl View for BatchProcessingJobResponse {
    type V = BatchProcessingJobResponseView;

    open spec fn view(&self) -> BatchProcessingJobResponseView {
        BatchProcessingJobResponseView {
            batch_id: self.batch_id@,
            file_ids: texts(self.file_ids@),
            processing_type: self.processing_type@,
            status: self.status@,
            progress: self.progress as int,
            completed_files: self.completed_files as int,
            total_files: self.total_files as int,
            created_at: self.created_at as int,
            updated_at: self.updated_at as int,
        }
    }
}

impl Clone for BatchProcessingJobResponse {
    fn clone(&self) -> (copy: Self)
        ensures
            copy@ == self@,
    {
        BatchProcessingJobResponse {
            batch_id: self.batch_id.clone(),
            file_ids: clone_texts(&self.file_ids),
            processing_type: self.processing_type.clone(),
            status: self.status.clone(),
            progress: self.progress,
            completed_files: self.completed_files,
            total_files: self.total_files,
            created_at: self.created_at,
            updated_at: self.updated_at,
        }
    }
}

/// A signature to be checked against a payload.
#[derive(Debug)]
pub struct WebhookVerificationRequest {
    pub webhook_secret: String,
    pub signature: String,
    pub payload: String,
}

/// What a `WebhookVerificationRequest` holds, with texts as sequences of characters and
/// numbers as integers.
pub struct WebhookVerificationRequestView {
    pub webhook_secret: Seq<char>,
    pub signature: Seq<char>,
    pub payload: Seq<char>,
}

impl View for WebhookVerificationRequest {
    type V = WebhookVerificationRequestView;

    open spec fn view(&self) -> WebhookVerificationRequestView {
        WebhookVerificationRequestView {
            webhook_secret: self.webhook_secret@,
            signature: self.signature@,
            payload: self.payload@,
        }
    }
}

impl Clone for WebhookVerificationRequest {
    fn clone(&self) -> (copy: Self)
        ensures
            copy@ == self@,
    {
        WebhookVerificationRequest {
            webhook_secret: self.webhook_secret.clone(),
            signature: self.signature.clone(),
            payload: self.payload.clone(),
        }
    }
}

} // verus!
