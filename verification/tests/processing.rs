use maccms_jobs::dispatch::{
    accepted_by_worker, found_batch, found_job, is_success, BatchDispatch, BodyValue,
    JobDispatch, WorkerReply, API_KEY_HEADER, API_SECRET_HEADER,
};
use maccms_jobs::dto::{
    BatchProcessingJobResponse, CreateBatchProcessingJobRequest, CreateProcessingJobRequest,
    ProcessingJobResponse,
};
use maccms_jobs::error::{persisted, Missing, RemoteFailure, RequiredField, ServiceError};
use maccms_jobs::job_updates::{hold_progress, BatchUpdate, JobUpdate};
use maccms_jobs::models::{
    default_convert_webp, default_download_retry, status_is_terminal, BatchProcessingJob,
    ProcessingJob, ProcessingServerConfig, WebhookNotification,
};
use maccms_jobs::processing_service::ProcessingService;
use maccms_jobs::signature::sign;
use maccms_jobs::webhook::{
    authorize_webhook, batch_secret, check_notification, job_secret, plan_webhook,
    secret_source, SecretSource, SIGNATURE_HEADER,
};

fn server(name: &str, status: i32) -> ProcessingServerConfig {
    ProcessingServerConfig {
        name: name.to_string(),
        host: format!("http://{}.workers.example", name),
        api_key: format!("{}-key", name),
        api_secret: format!("{}-secret", name),
        status,
        created_at: 0,
        updated_at: 0,
    }
}

fn job_request(file_id: &str, job_type: &str) -> CreateProcessingJobRequest {
    CreateProcessingJobRequest {
        file_id: file_id.to_string(),
        job_type: job_type.to_string(),
        parameters: "{\"quality\":80}".to_string(),
        webhook_url: Some("http://cms.example/api/webhook".to_string()),
        webhook_secret: Some("s3cret".to_string()),
        cms_id: "maccms".to_string(),
    }
}

fn batch_request(file_ids: &[&str], processing_type: &str) -> CreateBatchProcessingJobRequest {
    CreateBatchProcessingJobRequest {
        file_ids: file_ids.iter().map(|s| s.to_string()).collect(),
        processing_type: processing_type.to_string(),
        parameters: "{}".to_string(),
        webhook_url: None,
        webhook_secret: Some("batch-secret".to_string()),
        cms_id: "maccms".to_string(),
    }
}

fn accepted_job(job_id: &str) -> WorkerReply<ProcessingJobResponse> {
    WorkerReply::Answered {
        status: 200,
        body: "{}".to_string(),
        decoded: Some(ProcessingJobResponse {
            job_id: job_id.to_string(),
            file_id: "ignored".to_string(),
            file_name: "holiday.png".to_string(),
            job_type: "ignored".to_string(),
            status: "processing".to_string(),
            progress: 55,
            created_at: 1,
            updated_at: 2,
        }),
    }
}

fn accepted_batch(batch_id: &str) -> WorkerReply<BatchProcessingJobResponse> {
    WorkerReply::Answered {
        status: 201,
        body: "{}".to_string(),
        decoded: Some(BatchProcessingJobResponse {
            batch_id: batch_id.to_string(),
            file_ids: vec![],
            processing_type: "ignored".to_string(),
            status: "processing".to_string(),
            progress: 5,
            completed_files: 9,
            total_files: 9,
            created_at: 1,
            updated_at: 2,
        }),
    }
}

fn notification(job_id: Option<&str>, batch_id: Option<&str>, status: &str, progress: i32) -> WebhookNotification {
    WebhookNotification {
        job_id: job_id.map(|s| s.to_string()),
        batch_id: batch_id.map(|s| s.to_string()),
        cms_id: "maccms".to_string(),
        status: status.to_string(),
        progress,
        result: None,
        error: None,
        timestamp: 77,
        results: None,
        completed_files: None,
        total_files: None,
        failed_files: None,
    }
}

fn service_with_job(job_id: &str, secret: Option<&str>) -> ProcessingService {
    let mut service = ProcessingService::new(vec![], vec![], vec![server("w1", 1)], vec![]);
    let mut request = job_request("f1", "image-convert");
    request.webhook_secret = secret.map(|s| s.to_string());
    service.create_processing_job_at(request, accepted_job(job_id), 1_000).unwrap();
    service
}

#[test]
fn create_job_records_a_pending_job_under_the_workers_id() {
    let mut service = ProcessingService::new(vec![], vec![], vec![server("w1", 1)], vec![]);
    let view = service
        .create_processing_job_at(job_request("f1", "image-convert"), accepted_job("job-42"), 1_000)
        .unwrap();
    assert_eq!(view.job_id, "job-42");
    assert_ne!(view.job_id, "f1");
    assert_eq!(view.file_id, "f1");
    assert_eq!(view.file_name, "holiday.png");
    assert_eq!(view.job_type, "image-convert");
    assert_eq!(view.status, "pending");
    assert_eq!(view.progress, 0);
    assert_eq!(view.created_at, 1_000);
    assert_eq!(view.updated_at, 1_000);
    assert_eq!(service.jobs.len(), 1);
    let job = &service.jobs[0];
    assert_eq!(job.job_id, "job-42");
    assert_eq!(job.status, "pending");
    assert_eq!(job.progress, 0);
    assert_eq!(job.parameters, "{\"quality\":80}");
    assert_eq!(job.result, None);
    assert_eq!(job.error, None);
    assert_eq!(job.webhook_url.as_deref(), Some("http://cms.example/api/webhook"));
    assert_eq!(job.webhook_secret.as_deref(), Some("s3cret"));
    assert_eq!(job.cms_id, "maccms");
    assert_eq!(job.completed_at, None);
}

#[test]
fn create_job_with_the_clock_stamps_the_record() {
    let mut service = ProcessingService::new(vec![], vec![], vec![server("w1", 1)], vec![]);
    let view = service
        .create_processing_job(job_request("f1", "image-convert"), accepted_job("job-1"))
        .unwrap();
    assert!(view.created_at > 1_600_000_000_000);
    assert_eq!(view.created_at, view.updated_at);
    assert_eq!(service.jobs[0].created_at, view.created_at);
}

#[test]
fn create_job_with_empty_file_id_is_refused_and_writes_nothing() {
    let mut service = ProcessingService::new(vec![], vec![], vec![server("w1", 1)], vec![]);
    let r = service.create_processing_job_at(job_request("", "image-convert"), accepted_job("j"), 1);
    assert!(matches!(r, Err(ServiceError::ValidationError(RequiredField::FileId))));
    assert!(service.jobs.is_empty());
    assert!(service.batches.is_empty());
    assert!(service.notifications.is_empty());
    assert_eq!(service.servers.len(), 1);
}

#[test]
fn create_job_with_empty_job_type_is_refused() {
    let mut service = ProcessingService::new(vec![], vec![], vec![server("w1", 1)], vec![]);
    let r = service.create_processing_job_at(job_request("f1", ""), accepted_job("j"), 1);
    assert!(matches!(r, Err(ServiceError::ValidationError(RequiredField::JobType))));
    let r = service.create_processing_job_at(job_request("", ""), accepted_job("j"), 1);
    assert!(matches!(r, Err(ServiceError::ValidationError(RequiredField::FileId))));
    assert!(service.jobs.is_empty());
}

#[test]
fn dispatch_of_an_invalid_request_ends_before_any_step() {
    assert!(matches!(
        JobDispatch::begin(job_request("", "image-convert")),
        Err(ServiceError::ValidationError(RequiredField::FileId))
    ));
    assert!(matches!(
        BatchDispatch::begin(batch_request(&[], "image-convert")),
        Err(ServiceError::ValidationError(RequiredField::FileIds))
    ));
    assert!(matches!(
        BatchDispatch::begin(batch_request(&["a"], "")),
        Err(ServiceError::ValidationError(RequiredField::ProcessingType))
    ));
}

#[test]
fn create_job_without_enabled_server_is_refused_and_writes_nothing() {
    let mut service =
        ProcessingService::new(vec![], vec![], vec![server("w1", 0), server("w2", 2)], vec![]);
    let r = service.create_processing_job_at(job_request("f1", "image-convert"), accepted_job("j"), 1);
    assert!(matches!(r, Err(ServiceError::NoActiveServer)));
    assert!(service.jobs.is_empty());
    let mut none = ProcessingService::new(vec![], vec![], vec![], vec![]);
    let r = none.create_processing_job_at(job_request("f1", "image-convert"), accepted_job("j"), 1);
    assert!(matches!(r, Err(ServiceError::NoActiveServer)));
    assert!(none.jobs.is_empty());
}

#[test]
fn dispatch_picks_the_first_enabled_server() {
    let service = ProcessingService::new(
        vec![],
        vec![],
        vec![server("off", 0), server("first", 1), server("second", 1)],
        vec![],
    );
    assert_eq!(service.get_active_processing_server().unwrap().name, "first");
    let call = JobDispatch::begin(job_request("f1", "image-convert"))
        .unwrap()
        .on_server_lookup(Ok(service.get_active_processing_server()))
        .unwrap();
    assert_eq!(call.url, "http://first.workers.example/api/processing/job");
    assert_eq!(call.server.api_key, "first-key");
    assert_eq!(call.server.api_secret, "first-secret");
    assert_eq!(call.request.file_id, "f1");
    let batch = BatchDispatch::begin(batch_request(&["a"], "image-convert"))
        .unwrap()
        .on_server_lookup(Ok(service.get_active_processing_server()))
        .unwrap();
    assert_eq!(batch.url, "http://first.workers.example/api/processing/batch");
}

#[test]
fn call_to_the_worker_carries_the_request_field_by_field() {
    assert_eq!(API_KEY_HEADER, "X-API-Key");
    assert_eq!(API_SECRET_HEADER, "X-API-Secret");
    assert_eq!(SIGNATURE_HEADER, "X-Webhook-Signature");
    let call = JobDispatch::begin(job_request("f1", "image-convert"))
        .unwrap()
        .on_server_lookup(Ok(Some(server("w", 1))))
        .unwrap();
    let body = call.body();
    let names: Vec<&str> = body.iter().map(|f| f.name.as_str()).collect();
    assert_eq!(names, vec!["fileId", "type", "parameters", "webhookUrl", "webhookSecret", "cmsId"]);
    assert!(matches!(&body[0].value, BodyValue::Text(v) if v == "f1"));
    assert!(matches!(&body[1].value, BodyValue::Text(v) if v == "image-convert"));
    assert!(matches!(&body[2].value, BodyValue::Json(v) if v == "{\"quality\":80}"));
    assert!(matches!(
        &body[3].value,
        BodyValue::OptionalText(Some(v)) if v == "http://cms.example/api/webhook"
    ));
    assert!(matches!(&body[4].value, BodyValue::OptionalText(Some(v)) if v == "s3cret"));
    assert!(matches!(&body[5].value, BodyValue::Text(v) if v == "maccms"));
    let call = BatchDispatch::begin(batch_request(&["a", "b"], "audio-convert"))
        .unwrap()
        .on_server_lookup(Ok(Some(server("w", 1))))
        .unwrap();
    let body = call.body();
    let names: Vec<&str> = body.iter().map(|f| f.name.as_str()).collect();
    assert_eq!(
        names,
        vec!["fileIds", "processingType", "parameters", "webhookUrl", "webhookSecret", "cmsId"]
    );
    assert!(matches!(&body[0].value, BodyValue::Texts(v) if v == &["a", "b"]));
    assert!(matches!(&body[1].value, BodyValue::Text(v) if v == "audio-convert"));
    assert!(matches!(&body[3].value, BodyValue::OptionalText(None)));
}

#[test]
fn server_lookup_failure_is_a_persistence_error() {
    let r = JobDispatch::begin(job_request("f1", "t"))
        .unwrap()
        .on_server_lookup(Err("connection reset".to_string()));
    match r {
        Err(ServiceError::PersistenceError(d)) => {
            assert_eq!(d, "Failed to find active processing server: connection reset")
        }
        _ => panic!("expected a persistence error"),
    }
    assert!(matches!(
        JobDispatch::begin(job_request("f1", "t")).unwrap().on_server_lookup(Ok(None)),
        Err(ServiceError::NoActiveServer)
    ));
}

#[test]
fn remote_failure_creates_no_record() {
    let mut service = ProcessingService::new(vec![], vec![], vec![server("w1", 1)], vec![]);
    let r = service.create_processing_job_at(
        job_request("f1", "image-convert"),
        WorkerReply::Unreachable("connection refused".to_string()),
        1,
    );
    match r {
        Err(ServiceError::RemoteCallFailed(RemoteFailure::Unreachable(e))) => {
            assert_eq!(e, "connection refused")
        }
        _ => panic!("expected an unreachable worker"),
    }
    let r = service.create_processing_job_at(
        job_request("f1", "image-convert"),
        WorkerReply::Answered { status: 500, body: "boom".to_string(), decoded: None },
        1,
    );
    match r {
        Err(ServiceError::RemoteCallFailed(RemoteFailure::Status { code, body })) => {
            assert_eq!(code, 500);
            assert_eq!(body, "boom");
        }
        _ => panic!("expected a status failure"),
    }
    let r = service.create_processing_job_at(
        job_request("f1", "image-convert"),
        WorkerReply::Answered { status: 200, body: "<html>".to_string(), decoded: None },
        1,
    );
    match r {
        Err(ServiceError::RemoteCallFailed(RemoteFailure::Malformed(body))) => {
            assert_eq!(body, "<html>")
        }
        _ => panic!("expected a malformed body"),
    }
    assert!(service.jobs.is_empty());
}

#[test]
fn success_is_the_2xx_range() {
    assert!(!is_success(0));
    assert!(!is_success(199));
    assert!(is_success(200));
    assert!(is_success(204));
    assert!(is_success(299));
    assert!(!is_success(300));
    assert!(!is_success(u16::MAX));
}

#[test]
fn worker_reply_is_accepted_only_in_the_2xx_range() {
    for status in [199u16, 300, 301, 404, 500, 0, u16::MAX] {
        let r = accepted_by_worker(WorkerReply::Answered {
            status,
            body: "b".to_string(),
            decoded: Some(7u8),
        });
        assert!(matches!(
            r,
            Err(ServiceError::RemoteCallFailed(RemoteFailure::Status { code, .. })) if code == status
        ));
    }
    for status in [200u16, 201, 204, 299] {
        let r = accepted_by_worker(WorkerReply::Answered {
            status,
            body: "b".to_string(),
            decoded: Some(7u8),
        });
        assert!(matches!(r, Ok(7)));
    }
}

#[test]
fn insert_failure_is_reported_with_context() {
    let insert = JobDispatch::begin(job_request("f1", "t"))
        .unwrap()
        .on_server_lookup(Ok(Some(server("w", 1))))
        .unwrap()
        .on_reply(accepted_job("j9"), 5)
        .unwrap();
    assert_eq!(insert.job.job_id, "j9");
    match insert.on_inserted(Err("duplicate key".to_string())) {
        Err(ServiceError::PersistenceError(d)) => {
            assert_eq!(d, "Failed to create processing job: duplicate key")
        }
        _ => panic!("expected a persistence error"),
    }
    let insert = BatchDispatch::begin(batch_request(&["a"], "t"))
        .unwrap()
        .on_server_lookup(Ok(Some(server("w", 1))))
        .unwrap()
        .on_reply(accepted_batch("b9"), 5)
        .unwrap();
    match insert.on_inserted(Err("disk full".to_string())) {
        Err(ServiceError::PersistenceError(d)) => {
            assert_eq!(d, "Failed to create batch processing job: disk full")
        }
        _ => panic!("expected a persistence error"),
    }
}

#[test]
fn create_batch_counts_the_files_and_starts_at_zero() {
    let mut service = ProcessingService::new(vec![], vec![], vec![server("w1", 1)], vec![]);
    let view = service
        .create_batch_processing_job_at(
            batch_request(&["a", "b", "c"], "image-convert"),
            accepted_batch("batch-7"),
            2_000,
        )
        .unwrap();
    assert_eq!(view.batch_id, "batch-7");
    assert_eq!(view.file_ids, vec!["a".to_string(), "b".to_string(), "c".to_string()]);
    assert_eq!(view.processing_type, "image-convert");
    assert_eq!(view.status, "pending");
    assert_eq!(view.progress, 0);
    assert_eq!(view.completed_files, 0);
    assert_eq!(view.total_files, 3);
    assert_eq!(view.created_at, 2_000);
    let batch = &service.batches[0];
    assert_eq!(batch.failed_files, 0);
    assert_eq!(batch.total_files, 3);
    assert_eq!(batch.completed_at, None);
    assert_eq!(batch.webhook_secret.as_deref(), Some("batch-secret"));
    assert!(service.jobs.is_empty());
}

#[test]
fn create_batch_is_refused_like_a_job() {
    let mut service = ProcessingService::new(vec![], vec![], vec![server("w1", 0)], vec![]);
    assert!(matches!(
        service.create_batch_processing_job_at(batch_request(&[], "t"), accepted_batch("b"), 1),
        Err(ServiceError::ValidationError(RequiredField::FileIds))
    ));
    assert!(matches!(
        service.create_batch_processing_job_at(batch_request(&["a"], "t"), accepted_batch("b"), 1),
        Err(ServiceError::NoActiveServer)
    ));
    service.servers[0].status = 1;
    assert!(matches!(
        service.create_batch_processing_job(
            batch_request(&["a"], "t"),
            WorkerReply::Unreachable("x".to_string())
        ),
        Err(ServiceError::RemoteCallFailed(_))
    ));
    assert!(service.batches.is_empty());
}

#[test]
fn lookup_finds_the_first_record_with_the_id() {
    let mut service = ProcessingService::new(vec![], vec![], vec![server("w1", 1)], vec![]);
    service.create_processing_job_at(job_request("f1", "a"), accepted_job("dup"), 1).unwrap();
    service.create_processing_job_at(job_request("f2", "b"), accepted_job("other"), 2).unwrap();
    service.create_processing_job_at(job_request("f3", "c"), accepted_job("dup"), 3).unwrap();
    assert_eq!(service.find_job("dup"), Some(0));
    assert_eq!(service.find_job("other"), Some(1));
    assert_eq!(service.find_job("none"), None);
    assert_eq!(service.get_processing_job("dup").unwrap().file_id, "f1");
    assert_eq!(service.get_processing_job("other").unwrap().file_id, "f2");
}

#[test]
fn lookup_of_unknown_id_is_not_found() {
    let service = service_with_job("j1", None);
    assert!(matches!(
        service.get_processing_job("j2"),
        Err(ServiceError::NotFound(Missing::Job))
    ));
    assert!(matches!(
        service.get_batch_processing_job("j1"),
        Err(ServiceError::NotFound(Missing::Batch))
    ));
    assert!(matches!(service.get_processing_job(""), Err(ServiceError::NotFound(Missing::Job))));
}

#[test]
fn completed_notification_updates_the_pending_job() {
    let mut service = service_with_job("j1", Some("s3cret"));
    let mut n = notification(Some("j1"), None, "completed", 100);
    n.result = Some("{\"url\":\"http://cdn.example/out.webp\"}".to_string());
    let payload = "{\"job_id\":\"j1\",\"status\":\"completed\"}";
    let signature = sign("s3cret", payload);
    service.handle_webhook_at(n, &signature, payload, 5_000).unwrap();
    let job = &service.jobs[0];
    assert_eq!(job.status, "completed");
    assert_eq!(job.progress, 100);
    assert_eq!(job.completed_at, Some(5_000));
    assert_eq!(job.updated_at, 5_000);
    assert_eq!(job.result.as_deref(), Some("{\"url\":\"http://cdn.example/out.webp\"}"));
    assert_eq!(job.error, None);
    assert_eq!(job.created_at, 1_000);
    assert_eq!(service.notifications.len(), 1);
    assert_eq!(service.notifications[0].job_id.as_deref(), Some("j1"));
    let view = service.get_processing_job("j1").unwrap();
    assert_eq!(view.status, "completed");
    assert_eq!(view.progress, 100);
}

#[test]
fn webhook_with_bad_signature_is_unauthorized_and_changes_nothing() {
    let mut service = service_with_job("j1", Some("s3cret"));
    let n = notification(Some("j1"), None, "completed", 100);
    let payload = "{\"job_id\":\"j1\"}";
    let r = service.handle_webhook_at(n.clone(), &sign("other", payload), payload, 5_000);
    assert!(matches!(r, Err(ServiceError::Unauthorized)));
    let r = service.handle_webhook(n.clone(), "", payload);
    assert!(matches!(r, Err(ServiceError::Unauthorized)));
    let r = service.handle_webhook_at(n, &sign("s3cret", payload), "{\"job_id\":\"j2\"}", 5_000);
    assert!(matches!(r, Err(ServiceError::Unauthorized)));
    assert_eq!(service.jobs[0].status, "pending");
    assert_eq!(service.jobs[0].updated_at, 1_000);
    assert!(service.notifications.is_empty());
}

#[test]
fn webhook_without_a_secret_on_record_is_taken_in_unchecked() {
    let mut service = service_with_job("j1", None);
    service
        .handle_webhook_at(notification(Some("j1"), None, "processing", 40), "", "{}", 2_000)
        .unwrap();
    assert_eq!(service.jobs[0].status, "processing");
    assert_eq!(service.jobs[0].progress, 40);
    assert_eq!(service.jobs[0].completed_at, None);
    // A notification for a job that is not on record finds no secret either.
    service
        .handle_webhook_at(notification(Some("ghost"), None, "failed", 0), "nonsense", "{}", 3_000)
        .unwrap();
    assert_eq!(service.notifications.len(), 2);
    assert_eq!(service.jobs[0].status, "processing");
}

#[test]
fn webhook_for_a_batch_uses_the_batch_secret() {
    let mut service = ProcessingService::new(vec![], vec![], vec![server("w1", 1)], vec![]);
    service
        .create_batch_processing_job_at(batch_request(&["a", "b"], "t"), accepted_batch("b1"), 10)
        .unwrap();
    let mut n = notification(None, Some("b1"), "processing", 50);
    n.completed_files = Some(1);
    let payload = "batch payload";
    assert!(matches!(
        service.handle_webhook_at(n.clone(), &sign("s3cret", payload), payload, 20),
        Err(ServiceError::Unauthorized)
    ));
    service.handle_webhook_at(n, &sign("batch-secret", payload), payload, 20).unwrap();
    let batch = &service.batches[0];
    assert_eq!(batch.status, "processing");
    assert_eq!(batch.progress, 50);
    assert_eq!(batch.completed_files, 1);
    assert_eq!(batch.failed_files, 0);
    assert_eq!(batch.total_files, 2);
    assert_eq!(batch.completed_at, None);
    let mut done = notification(None, Some("b1"), "failed", 100);
    done.failed_files = Some(1);
    service.handle_webhook_notification_at(done, 30).unwrap();
    let batch = &service.batches[0];
    assert_eq!(batch.status, "failed");
    assert_eq!(batch.completed_files, 1);
    assert_eq!(batch.failed_files, 1);
    assert_eq!(batch.completed_at, Some(30));
    assert_eq!(service.get_batch_processing_job("b1").unwrap().completed_files, 1);
}

#[test]
fn same_terminal_notification_twice_is_idempotent() {
    let mut service = service_with_job("j1", None);
    let mut n = notification(Some("j1"), None, "completed", 100);
    n.result = Some("{\"pages\":3}".to_string());
    service.handle_webhook_notification_at(n.clone(), 5_000).unwrap();
    let once = service.jobs[0].clone();
    service.handle_webhook_notification_at(n.clone(), 5_000).unwrap();
    let twice = service.jobs[0].clone();
    assert_eq!(twice.status, once.status);
    assert_eq!(twice.progress, once.progress);
    assert_eq!(twice.result, once.result);
    assert_eq!(twice.error, once.error);
    assert_eq!(twice.completed_at, once.completed_at);
    // At a later time only the time of writing is written again.
    service.handle_webhook_notification_at(n, 9_000).unwrap();
    let later = service.jobs[0].clone();
    assert_eq!(later.status, once.status);
    assert_eq!(later.progress, once.progress);
    assert_eq!(later.result, once.result);
    assert_eq!(later.error, once.error);
    assert_eq!(later.completed_at, once.completed_at);
    assert_eq!(later.completed_at, Some(5_000));
    assert_eq!(later.updated_at, 9_000);
    assert_eq!(service.notifications.len(), 3);
}

#[test]
fn same_terminal_batch_notification_twice_is_idempotent() {
    let mut service = ProcessingService::new(vec![], vec![], vec![server("w1", 1)], vec![]);
    service
        .create_batch_processing_job_at(batch_request(&["a", "b"], "t"), accepted_batch("b1"), 10)
        .unwrap();
    let mut n = notification(None, Some("b1"), "completed", 100);
    n.completed_files = Some(2);
    n.failed_files = Some(0);
    service.handle_webhook_notification_at(n.clone(), 100).unwrap();
    let once = service.batches[0].clone();
    service.handle_webhook_notification_at(n, 900).unwrap();
    let twice = service.batches[0].clone();
    assert_eq!(once.completed_at, Some(100));
    assert_eq!(twice.completed_at, Some(100));
    assert_eq!(twice.status, once.status);
    assert_eq!(twice.progress, once.progress);
    assert_eq!(twice.completed_files, once.completed_files);
    assert_eq!(twice.failed_files, once.failed_files);
    assert_eq!(twice.updated_at, 900);
}

#[test]
fn completion_is_stamped_once() {
    let mut service = service_with_job("j1", None);
    service
        .handle_webhook_notification_at(notification(Some("j1"), None, "failed", 10), 2_000)
        .unwrap();
    assert_eq!(service.jobs[0].completed_at, Some(2_000));
    // A later report, terminal or not, leaves the time of completion.
    service
        .handle_webhook_notification_at(notification(Some("j1"), None, "completed", 100), 3_000)
        .unwrap();
    assert_eq!(service.jobs[0].status, "completed");
    assert_eq!(service.jobs[0].completed_at, Some(2_000));
    service
        .handle_webhook_notification_at(notification(Some("j1"), None, "processing", 50), 4_000)
        .unwrap();
    assert_eq!(service.jobs[0].completed_at, Some(2_000));
    assert_eq!(service.jobs[0].updated_at, 4_000);
}

#[test]
fn stored_progress_stays_within_0_and_100() {
    assert_eq!(hold_progress(0), 0);
    assert_eq!(hold_progress(100), 100);
    assert_eq!(hold_progress(55), 55);
    assert_eq!(hold_progress(101), 100);
    assert_eq!(hold_progress(150), 100);
    assert_eq!(hold_progress(i32::MAX), 100);
    assert_eq!(hold_progress(-1), 0);
    assert_eq!(hold_progress(i32::MIN), 0);
    let mut service = service_with_job("j1", None);
    service
        .create_batch_processing_job_at(batch_request(&["a"], "t"), accepted_batch("b1"), 10)
        .unwrap();
    service
        .handle_webhook_notification_at(notification(Some("j1"), None, "processing", 150), 20)
        .unwrap();
    assert_eq!(service.jobs[0].progress, 100);
    service
        .handle_webhook_notification_at(notification(Some("j1"), None, "processing", -7), 30)
        .unwrap();
    assert_eq!(service.jobs[0].progress, 0);
    service
        .handle_webhook_notification_at(notification(None, Some("b1"), "processing", 1_000), 40)
        .unwrap();
    assert_eq!(service.batches[0].progress, 100);
    service
        .handle_webhook_notification_at(notification(None, Some("b1"), "processing", i32::MIN), 50)
        .unwrap();
    assert_eq!(service.batches[0].progress, 0);
    // The audit trail keeps the report as it came.
    assert_eq!(service.notifications[0].progress, 150);
    let u = JobUpdate::from_notification(&notification(Some("j"), None, "processing", 300), 1);
    assert_eq!(u.progress, 100);
    let b = BatchUpdate::from_notification(&notification(None, Some("b"), "processing", -300), 1);
    assert_eq!(b.progress, 0);
    // A write made by hand is held as well.
    let mut job = service.jobs[0].clone();
    let mut by_hand = JobUpdate::from_notification(&notification(Some("j"), None, "x", 1), 1);
    by_hand.progress = 999;
    job.apply(&by_hand);
    assert_eq!(job.progress, 100);
}

#[test]
fn notification_merges_only_the_fields_it_carries() {
    let mut service = service_with_job("j1", None);
    let mut failed = notification(Some("j1"), None, "failed", 30);
    failed.error = Some("codec missing".to_string());
    service.handle_webhook_notification_at(failed, 2_000).unwrap();
    assert_eq!(service.jobs[0].error.as_deref(), Some("codec missing"));
    assert_eq!(service.jobs[0].completed_at, Some(2_000));
    // A later notification without error or result keeps both.
    service
        .handle_webhook_notification_at(notification(Some("j1"), None, "processing", 60), 3_000)
        .unwrap();
    let job = &service.jobs[0];
    assert_eq!(job.status, "processing");
    assert_eq!(job.progress, 60);
    assert_eq!(job.error.as_deref(), Some("codec missing"));
    assert_eq!(job.completed_at, Some(2_000));
    assert_eq!(job.updated_at, 3_000);
    assert_eq!(job.file_id, "f1");
    assert_eq!(job.webhook_url.as_deref(), Some("http://cms.example/api/webhook"));
}

#[test]
fn notification_with_the_clock_is_taken_in() {
    let mut service = service_with_job("j1", None);
    service.handle_webhook_notification(notification(Some("j1"), None, "completed", 100)).unwrap();
    assert_eq!(service.jobs[0].status, "completed");
    assert!(service.jobs[0].completed_at.unwrap() > 1_600_000_000_000);
}

#[test]
fn notification_naming_both_or_neither_is_refused_and_changes_nothing() {
    let mut service = service_with_job("x", Some("s3cret"));
    service
        .create_batch_processing_job_at(batch_request(&["a"], "t"), accepted_batch("x"), 10)
        .unwrap();
    let both = notification(Some("x"), Some("x"), "completed", 100);
    let neither = notification(None, None, "completed", 100);
    assert!(!both.is_well_formed());
    assert!(!neither.is_well_formed());
    for n in [both, neither] {
        assert!(matches!(
            service.handle_webhook_notification_at(n.clone(), 50),
            Err(ServiceError::ValidationError(RequiredField::NotificationTarget))
        ));
        assert!(matches!(
            service.handle_webhook_notification(n.clone()),
            Err(ServiceError::ValidationError(RequiredField::NotificationTarget))
        ));
        // The refusal comes before any look at the signature.
        let payload = "p";
        assert!(matches!(
            service.handle_webhook_at(n.clone(), &sign("s3cret", payload), payload, 50),
            Err(ServiceError::ValidationError(RequiredField::NotificationTarget))
        ));
        assert!(matches!(
            service.handle_webhook(n.clone(), "", payload),
            Err(ServiceError::ValidationError(RequiredField::NotificationTarget))
        ));
        assert!(matches!(
            check_notification(&n),
            Err(ServiceError::ValidationError(RequiredField::NotificationTarget))
        ));
        assert!(matches!(
            plan_webhook(n, 50),
            Err(ServiceError::ValidationError(RequiredField::NotificationTarget))
        ));
    }
    assert!(service.notifications.is_empty());
    assert_eq!(service.jobs[0].status, "pending");
    assert_eq!(service.jobs[0].updated_at, 1_000);
    assert_eq!(service.batches[0].status, "pending");
    assert_eq!(service.batches[0].updated_at, 10);
    assert!(notification(Some("x"), None, "s", 0).is_well_formed());
    assert!(notification(None, Some("x"), "s", 0).is_well_formed());
    assert!(check_notification(&notification(Some("x"), None, "s", 0)).is_ok());
}

#[test]
fn signature_of_another_length_is_refused_where_a_secret_applies() {
    let mut service = service_with_job("j1", Some("s3cret"));
    let n = notification(Some("j1"), None, "completed", 100);
    let long = "a".repeat(64);
    for signature in ["", "short", long.as_str()] {
        assert!(matches!(
            service.handle_webhook_at(n.clone(), signature, "p", 5),
            Err(ServiceError::Unauthorized)
        ));
        assert!(matches!(
            service.verify_webhook_signature("s3cret", signature, "p"),
            Ok(false)
        ));
        assert!(matches!(
            authorize_webhook(&Some("s3cret".to_string()), signature, "p"),
            Err(ServiceError::Unauthorized)
        ));
    }
    assert!(service.notifications.is_empty());
    assert_eq!(service.jobs[0].status, "pending");
}

#[test]
fn verify_webhook_signature_delegates_to_the_verifier() {
    let service = ProcessingService::new(vec![], vec![], vec![], vec![]);
    let signature = sign("k", "body");
    assert!(matches!(service.verify_webhook_signature("k", &signature, "body"), Ok(true)));
    assert!(matches!(service.verify_webhook_signature("k", &signature, "bodz"), Ok(false)));
    assert!(matches!(service.verify_webhook_signature("k", "garbage", "body"), Ok(false)));
}

#[test]
fn terminal_statuses_are_completed_and_failed() {
    assert!(status_is_terminal("completed"));
    assert!(status_is_terminal("failed"));
    assert!(!status_is_terminal("pending"));
    assert!(!status_is_terminal("processing"));
    assert!(!status_is_terminal("Completed"));
    assert!(!status_is_terminal(""));
    assert!(!status_is_terminal("completed "));
}

#[test]
fn updates_from_notifications_stamp_completion_only_when_terminal() {
    let mut n = notification(Some("j"), None, "processing", 10);
    n.result = Some("r".to_string());
    n.completed_files = Some(2);
    n.failed_files = Some(1);
    let u = JobUpdate::from_notification(&n, 9);
    assert_eq!(u.status, "processing");
    assert_eq!(u.progress, 10);
    assert_eq!(u.updated_at, 9);
    assert_eq!(u.result.as_deref(), Some("r"));
    assert_eq!(u.error, None);
    assert_eq!(u.completed_at, None);
    let b = BatchUpdate::from_notification(&n, 9);
    assert_eq!(b.completed_files, Some(2));
    assert_eq!(b.failed_files, Some(1));
    assert_eq!(b.completed_at, None);
    n.status = "failed".to_string();
    assert_eq!(JobUpdate::from_notification(&n, 9).completed_at, Some(9));
    assert_eq!(BatchUpdate::from_notification(&n, 9).completed_at, Some(9));
}

#[test]
fn webhook_plan_lists_the_writes() {
    let plan = plan_webhook(notification(Some("j1"), None, "completed", 100), 4).unwrap();
    assert_eq!(plan.audit.job_id.as_deref(), Some("j1"));
    let write = plan.job.unwrap();
    assert_eq!(write.job_id, "j1");
    assert_eq!(write.update.completed_at, Some(4));
    assert!(plan.batch.is_none());
    let plan = plan_webhook(notification(None, Some("b1"), "processing", 1), 4).unwrap();
    assert!(plan.job.is_none());
    assert_eq!(plan.batch.unwrap().batch_id, "b1");
    assert!(plan_webhook(notification(None, None, "processing", 1), 4).is_err());
    assert!(plan_webhook(notification(Some("j"), Some("b"), "processing", 1), 4).is_err());
}

#[test]
fn secret_is_looked_up_with_the_job_first() {
    assert!(matches!(
        secret_source(&notification(Some("j"), Some("b"), "s", 0)),
        SecretSource::Job(id) if id == "j"
    ));
    assert!(matches!(
        secret_source(&notification(None, Some("b"), "s", 0)),
        SecretSource::Batch(id) if id == "b"
    ));
    assert!(matches!(secret_source(&notification(None, None, "s", 0)), SecretSource::Nowhere));
}

#[test]
fn secret_lookup_results_are_read() {
    let service = service_with_job("j1", Some("abc"));
    let job: ProcessingJob = service.jobs[0].clone();
    assert_eq!(job_secret(&Ok(Some(job))).unwrap().as_deref(), Some("abc"));
    assert_eq!(job_secret(&Ok(None)).unwrap(), None);
    match job_secret(&Err("down".to_string())) {
        Err(ServiceError::PersistenceError(d)) => {
            assert_eq!(d, "Failed to find processing job: down")
        }
        _ => panic!("expected a persistence error"),
    }
    let none: Result<Option<BatchProcessingJob>, String> = Ok(None);
    assert_eq!(batch_secret(&none).unwrap(), None);
    match batch_secret(&Err("down".to_string())) {
        Err(ServiceError::PersistenceError(d)) => {
            assert_eq!(d, "Failed to find batch processing job: down")
        }
        _ => panic!("expected a persistence error"),
    }
}

#[test]
fn authorize_webhook_checks_only_where_a_secret_applies() {
    let secret = Some("k".to_string());
    assert!(authorize_webhook(&secret, &sign("k", "p"), "p").is_ok());
    assert!(matches!(authorize_webhook(&secret, "", "p"), Err(ServiceError::Unauthorized)));
    assert!(authorize_webhook(&None, "", "p").is_ok());
}

#[test]
fn error_messages_read_as_documented() {
    assert_eq!(ServiceError::NoActiveServer.message(), "No active processing server available");
    assert_eq!(ServiceError::NotFound(Missing::Job).message(), "Processing job not found");
    assert_eq!(ServiceError::NotFound(Missing::Batch).message(), "Batch processing job not found");
    assert_eq!(ServiceError::Unauthorized.message(), "Invalid webhook signature");
    assert_eq!(
        ServiceError::ValidationError(RequiredField::FileId).message(),
        "file_id must not be empty"
    );
    assert_eq!(
        ServiceError::ValidationError(RequiredField::JobType).message(),
        "job_type must not be empty"
    );
    assert_eq!(
        ServiceError::ValidationError(RequiredField::FileIds).message(),
        "file_ids must not be empty"
    );
    assert_eq!(
        ServiceError::ValidationError(RequiredField::ProcessingType).message(),
        "processing_type must not be empty"
    );
    assert_eq!(
        ServiceError::ValidationError(RequiredField::NotificationTarget).message(),
        "exactly one of job_id and batch_id must be set"
    );
    assert_eq!(ServiceError::ValidationError(RequiredField::NotificationTarget).status_code(), 400);
    assert_eq!(ServiceError::PersistenceError("x: y".to_string()).message(), "x: y");
    assert_eq!(
        ServiceError::RemoteCallFailed(RemoteFailure::Unreachable("dns".to_string())).message(),
        "Failed to call processing server: dns"
    );
    assert_eq!(
        ServiceError::RemoteCallFailed(RemoteFailure::Status {
            code: 503,
            body: "busy".to_string()
        })
        .message(),
        "Processing server returned error status 503: busy"
    );
    assert_eq!(
        ServiceError::RemoteCallFailed(RemoteFailure::Malformed("eof".to_string())).message(),
        "Failed to parse processing server response: eof"
    );
}

#[test]
fn failures_are_answered_with_their_status() {
    assert_eq!(ServiceError::ValidationError(RequiredField::FileId).status_code(), 400);
    assert_eq!(ServiceError::Unauthorized.status_code(), 401);
    assert_eq!(ServiceError::NotFound(Missing::Job).status_code(), 404);
    assert_eq!(ServiceError::NotFound(Missing::Batch).status_code(), 404);
    assert_eq!(ServiceError::NoActiveServer.status_code(), 500);
    assert_eq!(
        ServiceError::RemoteCallFailed(RemoteFailure::Unreachable(String::new())).status_code(),
        500
    );
    assert_eq!(ServiceError::PersistenceError(String::new()).status_code(), 500);
}

#[test]
fn lookup_outcomes_answer_the_caller() {
    let service = service_with_job("j1", None);
    let view = found_job(Ok(Some(service.jobs[0].clone()))).unwrap();
    assert_eq!(view.job_id, "j1");
    assert_eq!(view.status, "pending");
    assert!(matches!(found_job(Ok(None)), Err(ServiceError::NotFound(Missing::Job))));
    match found_job(Err("timeout".to_string())) {
        Err(ServiceError::PersistenceError(d)) => {
            assert_eq!(d, "Failed to find processing job: timeout")
        }
        _ => panic!("expected a persistence error"),
    }
    assert!(matches!(found_batch(Ok(None)), Err(ServiceError::NotFound(Missing::Batch))));
    match found_batch(Err("timeout".to_string())) {
        Err(ServiceError::PersistenceError(d)) => {
            assert_eq!(d, "Failed to find batch processing job: timeout")
        }
        _ => panic!("expected a persistence error"),
    }
}

#[test]
fn persisted_maps_store_outcomes() {
    assert!(persisted(Ok(()), "ctx").is_ok());
    match persisted(Err("why".to_string()), "Failed to save webhook notification") {
        Err(ServiceError::PersistenceError(d)) => {
            assert_eq!(d, "Failed to save webhook notification: why")
        }
        _ => panic!("expected a persistence error"),
    }
}

#[test]
fn source_defaults() {
    assert_eq!(default_convert_webp(), 0);
    assert_eq!(default_download_retry(), 3);
}
