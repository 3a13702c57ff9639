//! Receiving a webhook: whether the notification names exactly one record,
//! whose secret applies, whether the signature is good, and which writes
//! the notification asks for.

use vstd::prelude::*;
use crate::error::{store_failure, RequiredField, ServiceError};
use crate::job_updates::{batch_update_of, job_update_of, BatchUpdate, JobUpdate};
use crate::models::{
    BatchProcessingJob, ProcessingJob, WebhookNotification, WebhookNotificationView,
};
use crate::signature::{accepts, verify, SIGNATURE_LEN};
use crate::text::{clone_opt_text, opt_text};

verus! {

/// The header that carries the signature of a webhook.
pub const SIGNATURE_HEADER: &'static str = "X-Webhook-Signature";

/// The record in which the secret for a notification is to be looked up.
pub enum SecretSource {
    /// The job with this identifier.
    Job(String),
    /// The batch with this identifier.
    Batch(String),
    /// The notification names neither a job nor a batch. Such a notification
    /// is refused before any secret is looked up.
    Nowhere,
}

/// A partial write to the job with the given identifier.
pub struct JobWrite {
    pub job_id: String,
    pub update: JobUpdate,
}

/// A partial write to the batch with the given identifier.
pub struct BatchWrite {
    pub batch_id: String,
    pub update: BatchUpdate,
}

/// The writes that a notification asks for: itself as an audit entry, then
/// the update of the job or of the batch that it names, never of both.
pub struct WebhookPlan {
    pub audit: WebhookNotification,
    pub job: Option<JobWrite>,
    pub batch: Option<BatchWrite>,
}

/// Whether a notification names exactly one record: a job or a batch, never
/// both and never neither. Only such a notification is taken in.
pub open spec fn names_one_target(n: WebhookNotificationView) -> bool {
    n.job_id is Some != n.batch_id is Some
}

impl WebhookNotification {
    /// A well-formed notification names a job or a batch, never both and
    /// never neither.
    pub open spec fn well_formed(&self) -> bool {
        names_one_target(self@)
    }

    /// Whether the notification is well formed.
    pub fn is_well_formed(&self) -> (ok: bool)
        ensures
            ok == self.well_formed(),
    {
        self.job_id.is_some() != self.batch_id.is_some()
    }
}

/// Says where the secret for a notification is kept: with the job where one
/// is named, else with the batch where one is named.
pub fn secret_source(n: &WebhookNotification) -> (source: SecretSource)
    ensures
        n.job_id matches Some(id) ==> source matches SecretSource::Job(j) && j@ == id@,
        n.job_id is None ==> (n.batch_id matches Some(id) ==> source matches SecretSource::Batch(b)
            && b@ == id@),
        n.job_id is None && n.batch_id is None ==> source is Nowhere,
{
    match &n.job_id {
        Some(id) => SecretSource::Job(id.clone()),
        None => match &n.batch_id {
            Some(id) => SecretSource::Batch(id.clone()),
            None => SecretSource::Nowhere,
        },
    }
}

/// Takes the job that was looked up and gives its secret, if it has one.
pub fn job_secret(found: &Result<Option<ProcessingJob>, String>) -> (r: Result<
    Option<String>,
    ServiceError,
>)
    ensures
        found matches Err(e) ==> r matches Err(ServiceError::PersistenceError(d)) && d@
            == "Failed to find processing job: "@ + e@,
        found matches Ok(None) ==> r matches Ok(None),
        found matches Ok(Some(job)) ==> r matches Ok(secret) && opt_text(secret)
            == job@.webhook_secret,
{
    match found {
        Err(e) => Err(store_failure("Failed to find processing job: ", e.as_str())),
        Ok(None) => Ok(None),
        Ok(Some(job)) => Ok(clone_opt_text(&job.webhook_secret)),
    }
}

/// Takes the batch that was looked up and gives its secret, if it has one.
pub fn batch_secret(found: &Result<Option<BatchProcessingJob>, String>) -> (r: Result<
    Option<String>,
    ServiceError,
>)
    ensures
        found matches Err(e) ==> r matches Err(ServiceError::PersistenceError(d)) && d@
            == "Failed to find batch processing job: "@ + e@,
        found matches Ok(None) ==> r matches Ok(None),
        found matches Ok(Some(batch)) ==> r matches Ok(secret) && opt_text(secret)
            == batch@.webhook_secret,
{
    match found {
        Err(e) => Err(store_failure("Failed to find batch processing job: ", e.as_str())),
        Ok(None) => Ok(None),
        Ok(Some(batch)) => Ok(clone_opt_text(&batch.webhook_secret)),
    }
}

/// Whether a webhook is let through: where a secret applies, the signature
/// must be the one computed from the payload under that secret; where none
/// applies, nothing is checked.
pub open spec fn webhook_authorized(
    secret: Option<Seq<char>>,
    signature: Seq<char>,
    payload: Seq<char>,
) -> bool {
    match secret {
        Some(s) => accepts(s, signature, payload),
        None => true,
    }
}

/// Lets a webhook through or refuses it as unauthorized. Where a secret
/// applies, a signature of any length but that of a signature is refused,
/// the empty text of a missing header among them.
pub fn authorize_webhook(secret: &Option<String>, signature: &str, payload: &str) -> (r: Result<
    (),
    ServiceError,
>)
    ensures
        webhook_authorized(opt_text(*secret), signature@, payload@) ==> r is Ok,
        !webhook_authorized(opt_text(*secret), signature@, payload@) ==> r matches Err(
            ServiceError::Unauthorized,
        ),
        (*secret is Some && signature@.len() != SIGNATURE_LEN) ==> r matches Err(
            ServiceError::Unauthorized,
        ),
{
    match secret {
        Some(s) => {
            if verify(s.as_str(), signature, payload) {
                Ok(())
            } else {
                Err(ServiceError::Unauthorized)
            }
        },
        None => Ok(()),
    }
}

/// Checks that a notification names exactly one record. One that names both
/// a job and a batch, or neither, is refused.
pub fn check_notification(n: &WebhookNotification) -> (r: Result<(), ServiceError>)
    ensures
        names_one_target(n@) ==> r is Ok,
        !names_one_target(n@) ==> r matches Err(
            ServiceError::ValidationError(RequiredField::NotificationTarget),
        ),
{
    if n.is_well_formed() {
        Ok(())
    } else {
        Err(ServiceError::ValidationError(RequiredField::NotificationTarget))
    }
}

/// Works out the writes that a notification asks for when it arrives at
/// `now`: itself as an audit entry, and the update of the one record that it
/// names. A notification that does not name exactly one record is refused
/// and asks for no write.
pub fn plan_webhook(notification: WebhookNotification, now: i64) -> (r: Result<
    WebhookPlan,
    ServiceError,
>)
    ensures
        !names_one_target(notification@) ==> r matches Err(
            ServiceError::ValidationError(RequiredField::NotificationTarget),
        ),
        names_one_target(notification@) ==> (r matches Ok(plan) && plan.audit@ == notification@
            && match notification@.job_id {
            Some(id) => plan.job matches Some(w) && w.job_id@ == id && w.update@
                == job_update_of(notification@, now as int),
            None => plan.job is None,
        } && match notification@.batch_id {
            Some(id) => plan.batch matches Some(w) && w.batch_id@ == id && w.update@
                == batch_update_of(notification@, now as int),
            None => plan.batch is None,
        }),
{
    match check_notification(&notification) {
        Err(e) => {
            return Err(e);
        },
        Ok(()) => {},
    }
    let job = match &notification.job_id {
        Some(id) => Some(
            JobWrite {
                job_id: id.clone(),
                update: JobUpdate::from_notification(&notification, now),
            },
        ),
        None => None,
    };
    let batch = match &notification.batch_id {
        Some(id) => Some(
            BatchWrite {
                batch_id: id.clone(),
                update: BatchUpdate::from_notification(&notification, now),
            },
        ),
        None => None,
    };
    Ok(WebhookPlan { audit: notification, job, batch })
}

} // verus!
