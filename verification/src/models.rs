//! The records that the job stores hold, with times as milliseconds since the
//! Unix epoch and structured payloads as JSON text.

use vstd::prelude::*;
use crate::text::{clone_opt_text, clone_texts, opt_text, str_equal, texts};

verus! {

/// Status of a record that has been dispatched and not yet picked up.
pub open spec fn status_pending() -> Seq<char> {
    "pending"@
}

/// Status of a record that a worker finished successfully.
pub open spec fn status_completed() -> Seq<char> {
    "completed"@
}

/// Status of a record that a worker gave up on.
pub open spec fn status_failed() -> Seq<char> {
    "failed"@
}

/// A status after which a record no longer changes state.
pub open spec fn is_terminal_status(status: Seq<char>) -> bool {
    status == status_completed() || status == status_failed()
}

/// Decides whether a status is terminal.
pub fn status_is_terminal(status: &str) -> (terminal: bool)
    ensures
        terminal == is_terminal_status(status@),
{
    str_equal(status, "completed") || str_equal(status, "failed")
}

/// One unit of processing work handed to a worker.
#[derive(Debug)]
pub struct ProcessingJob {
    pub job_id: String,
    pub file_id: String,
    pub file_name: String,
    pub job_type: String,
    pub status: String,
    pub progress: i32,
    pub parameters: String,
    pub result: Option<String>,
    pub error: Option<String>,
    pub webhook_url: Option<String>,
    pub webhook_secret: Option<String>,
    pub cms_id: String,
    pub created_at: i64,
    pub updated_at: i64,
    pub completed_at: Option<i64>,
}

/// What a `ProcessingJob` holds, with texts as sequences of characters and
/// numbers as integers.
pub struct ProcessingJobView {
    pub job_id: Seq<char>,
    pub file_id: Seq<char>,
    pub file_name: Seq<char>,
    pub job_type: Seq<char>,
    pub status: Seq<char>,
    pub progress: int,
    pub parameters: Seq<char>,
    pub result: Option<Seq<char>>,
    pub error: Option<Seq<char>>,
    pub webhook_url: Option<Seq<char>>,
    pub webhook_secret: Option<Seq<char>>,
    pub cms_id: Seq<char>,
    pub created_at: int,
    pub updated_at: int,
    pub completed_at: Option<int>,
}

/// An optional time as an optional integer.
pub open spec fn opt_time(t: Option<i64>) -> Option<int> {
    match t {
        Some(v) => Some(v as int),
        None => None,
    }
}

/// An optional number as an optional integer.
pub open spec fn opt_int(n: Option<i64>) -> Option<int> {
    match n {
        Some(v) => Some(v as int),
        None => None,
    }
}

/// An optional count as an optional integer.
pub open spec fn opt_count(c: Option<i32>) -> Option<int> {
    match c {
        Some(v) => Some(v as int),
        None => None,
    }
}

impl View for ProcessingJob {
    type V = ProcessingJobView;

    open spec fn view(&self) -> ProcessingJobView {
        ProcessingJobView {
            job_id: self.job_id@,
            file_id: self.file_id@,
            file_name: self.file_name@,
            job_type: self.job_type@,
            status: self.status@,
            progress: self.progress as int,
            parameters: self.parameters@,
            result: opt_text(self.result),
            error: opt_text(self.error),
            webhook_url: opt_text(self.webhook_url),
            webhook_secret: opt_text(self.webhook_secret),
            cms_id: self.cms_id@,
            created_at: self.created_at as int,
            updated_at: self.updated_at as int,
            completed_at: opt_time(self.completed_at),
        }
    }
}

impl Clone for ProcessingJob {
    fn clone(&self) -> (copy: Self)
        ensures
            copy@ == self@,
    {
        ProcessingJob {
            job_id: self.job_id.clone(),
            file_id: self.file_id.clone(),
            file_name: self.file_name.clone(),
            job_type: self.job_type.clone(),
            status: self.status.clone(),
            progress: self.progress,
            parameters: self.parameters.clone(),
            result: clone_opt_text(&self.result),
            error: clone_opt_text(&self.error),
            webhook_url: clone_opt_text(&self.webhook_url),
            webhook_secret: clone_opt_text(&self.webhook_secret),
            cms_id: self.cms_id.clone(),
            created_at: self.created_at,
            updated_at: self.updated_at,
            completed_at: self.completed_at,
        }
    }
}

/// The views of a list of records, in order.
pub open spec fn views<T: View>(items: Seq<T>) -> Seq<T::V> {
    items.map_values(|t: T| t@)
}

/// The views of an optional list of records.
pub open spec fn opt_views<T: View>(items: Option<Vec<T>>) -> Option<Seq<T::V>> {
    match items {
        Some(v) => Some(views(v@)),
        None => None,
    }
}

/// A copy of an optional list of archive results.
pub fn clone_opt_results(results: &Option<Vec<ArchiveProcessingResult>>) -> (copy: Option<
    Vec<ArchiveProcessingResult>,
>)
    ensures
        opt_views(copy) == opt_views(*results),
{
    match results {
        None => None,
        Some(v) => {
            let mut out: Vec<ArchiveProcessingResult> = Vec::new();
            let mut i: usize = 0;
            while i < v.len()
                invariant
                    i <= v.len(),
                    out@.len() == i,
                    views(out@) == views(v@.subrange(0, i as int)),
                decreases v.len() - i,
            {
                let ghost before = out@;
                out.push(v[i].clone());
                assert forall|j: int| 0 <= j < out@.len() implies views(out@)[j] == views(
                    v@.subrange(0, i + 1),
                )[j] by {
                    if j < i {
                        assert(views(before)[j] == views(v@.subrange(0, i as int))[j]);
                    }
                }
                assert(views(out@) =~= views(v@.subrange(0, i + 1)));
                i = i + 1;
            }
            assert(v@.subrange(0, v.len() as int) =~= v@);
            Some(out)
        },
    }
}

/// A set of files handed to a worker under one aggregate status.
#[derive(Debug)]
pub struct BatchProcessingJob {
    pub batch_id: String,
    pub file_ids: Vec<String>,
    pub processing_type: String,
    pub parameters: String,
    pub status: String,
    pub progress: i32,
    pub completed_files: i32,
    pub failed_files: i32,
    pub total_files: i32,
    pub webhook_url: Option<String>,
    pub webhook_secret: Option<String>,
    pub cms_id: String,
    pub created_at: i64,
    pub updated_at: i64,
    pub completed_at: Option<i64>,
}

/// What a `BatchProcessingJob` holds, with texts as sequences of characters and
/// numbers as integers.
pub struct BatchProcessingJobView {
    pub batch_id: Seq<char>,
    pub file_ids: Seq<Seq<char>>,
    pub processing_type: Seq<char>,
    pub parameters: Seq<char>,
    pub status: Seq<char>,
    pub progress: int,
    pub completed_files: int,
    pub failed_files: int,
    pub total_files: int,
    pub webhook_url: Option<Seq<char>>,
    pub webhook_secret: Option<Seq<char>>,
    pub cms_id: Seq<char>,
    pub created_at: int,
    pub updated_at: int,
    pub completed_at: Option<int>,
}

impl View for BatchProcessingJob {
    type V = BatchProcessingJobView;

    open spec fn view(&self) -> BatchProcessingJobView {
        BatchProcessingJobView {
            batch_id: self.batch_id@,
            file_ids: texts(self.file_ids@),
            processing_type: self.processing_type@,
            parameters: self.parameters@,
            status: self.status@,
            progress: self.progress as int,
            completed_files: self.completed_files as int,
            failed_files: self.failed_files as int,
            total_files: self.total_files as int,
            webhook_url: opt_text(self.webhook_url),
            webhook_secret: opt_text(self.webhook_secret),
            cms_id: self.cms_id@,
            created_at: self.created_at as int,
            updated_at: self.updated_at as int,
            completed_at: opt_time(self.completed_at),
        }
    }
}

impl Clone for BatchProcessingJob {
    fn clone(&self) -> (copy: Self)
        ensures
            copy@ == self@,
    {
        BatchProcessingJob {
            batch_id: self.batch_id.clone(),
            file_ids: clone_texts(&self.file_ids),
            processing_type: self.processing_type.clone(),
            parameters: self.parameters.clone(),
            status: self.status.clone(),
            progress: self.progress,
            completed_files: self.completed_files,
            failed_files: self.failed_files,
            total_files: self.total_files,
            webhook_url: clone_opt_text(&self.webhook_url),
            webhook_secret: clone_opt_text(&self.webhook_secret),
            cms_id: self.cms_id.clone(),
            created_at: self.created_at,
            updated_at: self.updated_at,
            completed_at: self.completed_at,
        }
    }
}

/// One file that came out of an archive.
#[derive(Debug)]
pub struct ArchiveProcessingResult {
    pub url: String,
    pub width: Option<i32>,
    pub height: Option<i32>,
    pub original_name: String,
    pub size: i64,
    pub format: Option<String>,
}

/// What a `ArchiveProcessingResult` holds, with texts as sequences of characters and
/// numbers as integers.
pub struct ArchiveProcessingResultView {
    pub url: Seq<char>,
    pub width: Option<int>,
    pub height: Option<int>,
    pub original_name: Seq<char>,
    pub size: int,
    pub format: Option<Seq<char>>,
}

impl View for ArchiveProcessingResult {
    type V = ArchiveProcessingResultView;

    open spec fn view(&self) -> ArchiveProcessingResultView {
        ArchiveProcessingResultView {
            url: self.url@,
            width: opt_count(self.width),
            height: opt_count(self.height),
            original_name: self.original_name@,
            size: self.size as int,
            format: opt_text(self.format),
        }
    }
}

impl Clone for ArchiveProcessingResult {
    fn clone(&self) -> (copy: Self)
        ensures
            copy@ == self@,
    {
        ArchiveProcessingResult {
            url: self.url.clone(),
            width: self.width,
            height: self.height,
            original_name: self.original_name.clone(),
            size: self.size,
            format: clone_opt_text(&self.format),
        }
    }
}

/// What a worker reports about a job or a batch.
/// 
/// A well-formed notification names a job or a batch, never both.
#[derive(Debug)]
pub struct WebhookNotification {
    pub job_id: Option<String>,
    pub batch_id: Option<String>,
    pub cms_id: String,
    pub status: String,
    pub progress: i32,
    pub result: Option<String>,
    pub error: Option<String>,
    pub timestamp: i64,
    pub results: Option<Vec<ArchiveProcessingResult>>,
    pub completed_files: Option<i32>,
    pub total_files: Option<i32>,
    pub failed_files: Option<i32>,
}

/// What a `WebhookNotification` holds, with texts as sequences of characters and
/// numbers as integers.
pub struct WebhookNotificationView {
    pub job_id: Option<Seq<char>>,
    pub batch_id: Option<Seq<char>>,
    pub cms_id: Seq<char>,
    pub status: Seq<char>,
    pub progress: int,
    pub result: Option<Seq<char>>,
    pub error: Option<Seq<char>>,
    pub timestamp: int,
    pub results: Option<Seq<ArchiveProcessingResultView>>,
    pub completed_files: Option<int>,
    pub total_files: Option<int>,
    pub failed_files: Option<int>,
}

impl View for WebhookNotification {
    type V = WebhookNotificationView;

    open spec fn view(&self) -> WebhookNotificationView {
        WebhookNotificationView {
            job_id: opt_text(self.job_id),
            batch_id: opt_text(self.batch_id),
            cms_id: self.cms_id@,
            status: self.status@,
            progress: self.progress as int,
            result: opt_text(self.result),
            error: opt_text(self.error),
            timestamp: self.timestamp as int,
            results: opt_views(self.results),
            completed_files: opt_count(self.completed_files),
            total_files: opt_count(self.total_files),
            failed_files: opt_count(self.failed_files),
        }
    }
}

impl Clone for WebhookNotification {
    fn clone(&self) -> (copy: Self)
        ensures
            copy@ == self@,
    {
        WebhookNotification {
            job_id: clone_opt_text(&self.job_id),
            batch_id: clone_opt_text(&self.batch_id),
            cms_id: self.cms_id.clone(),
            status: self.status.clone(),
            progress: self.progress,
            result: clone_opt_text(&self.result),
            error: clone_opt_text(&self.error),
            timestamp: self.timestamp,
            results: clone_opt_results(&self.results),
            completed_files: self.completed_files,
            total_files: self.total_files,
            failed_files: self.failed_files,
        }
    }
}

/// A worker server in the registry. `status` is 1 when the server is enabled.
#[derive(Debug)]
pub struct ProcessingServerConfig {
    pub name: String,
    pub host: String,
    pub api_key: String,
    pub api_secret: String,
    pub status: i32,
    pub created_at: i64,
    pub updated_at: i64,
}

/// What a `ProcessingServerConfig` holds, with texts as sequences of characters and
/// numbers as integers.
pub struct ProcessingServerConfigView {
    pub name: Seq<char>,
    pub host: Seq<char>,
    pub api_key: Seq<char>,
    pub api_secret: Seq<char>,
    pub status: int,
    pub created_at: int,
    pub updated_at: int,
}

impl View for ProcessingServerConfig {
    type V = ProcessingServerConfigView;

    open spec fn view(&self) -> ProcessingServerConfigView {
        ProcessingServerConfigView {
            name: self.name@,
            host: self.host@,
            api_key: self.api_key@,
            api_secret: self.api_secret@,
            status: self.status as int,
            created_at: self.created_at as int,
            updated_at: self.updated_at as int,
        }
    }
}

impl Clone for ProcessingServerConfig {
    fn clone(&self) -> (copy: Self)
        ensures
            copy@ == self@,
    {
        ProcessingServerConfig {
            name: self.name.clone(),
            host: self.host.clone(),
            api_key: self.api_key.clone(),
            api_secret: self.api_secret.clone(),
            status: self.status,
            created_at: self.created_at,
            updated_at: self.updated_at,
        }
    }
}

/// A collection source. `collect_status` is 1 when the source is enabled.
#[derive(Debug)]
pub struct Collection {
    pub id: Option<String>,
    pub collect_name: String,
    pub collect_url: String,
    pub collect_type: i32,
    pub collect_mid: i32,
    pub collect_appid: String,
    pub collect_appkey: String,
    pub collect_param: String,
    pub collect_filter: String,
    pub collect_filter_from: String,
    pub collect_opt: i32,
    pub collect_sync_pic_opt: i32,
    pub collect_remove_ad: i32,
    pub collect_convert_webp: i32,
    pub collect_download_retry: i32,
    pub collect_status: i32,
    pub created_at: i64,
    pub updated_at: i64,
}

/// What a `Collection` holds, with texts as sequences of characters and
/// numbers as integers.
pub struct CollectionView {
    pub id: Option<Seq<char>>,
    pub collect_name: Seq<char>,
    pub collect_url: Seq<char>,
    pub collect_type: int,
    pub collect_mid: int,
    pub collect_appid: Seq<char>,
    pub collect_appkey: Seq<char>,
    pub collect_param: Seq<char>,
    pub collect_filter: Seq<char>,
    pub collect_filter_from: Seq<char>,
    pub collect_opt: int,
    pub collect_sync_pic_opt: int,
    pub collect_remove_ad: int,
    pub collect_convert_webp: int,
    pub collect_download_retry: int,
    pub collect_status: int,
    pub created_at: int,
    pub updated_at: int,
}

impl View for Collection {
    type V = CollectionView;

    open spec fn view(&self) -> CollectionView {
        CollectionView {
            id: opt_text(self.id),
            collect_name: self.collect_name@,
            collect_url: self.collect_url@,
            collect_type: self.collect_type as int,
            collect_mid: self.collect_mid as int,
            collect_appid: self.collect_appid@,
            collect_appkey: self.collect_appkey@,
            collect_param: self.collect_param@,
            collect_filter: self.collect_filter@,
            collect_filter_from: self.collect_filter_from@,
            collect_opt: self.collect_opt as int,
            collect_sync_pic_opt: self.collect_sync_pic_opt as int,
            collect_remove_ad: self.collect_remove_ad as int,
            collect_convert_webp: self.collect_convert_webp as int,
            collect_download_retry: self.collect_download_retry as int,
            collect_status: self.collect_status as int,
            created_at: self.created_at as int,
            updated_at: self.updated_at as int,
        }
    }
}

impl Clone for Collection {
    fn clone(&self) -> (copy: Self)
        ensures
            copy@ == self@,
    {
        Collection {
            id: clone_opt_text(&self.id),
            collect_name: self.collect_name.clone(),
            collect_url: self.collect_url.clone(),
            collect_type: self.collect_type,
            collect_mid: self.collect_mid,
            collect_appid: self.collect_appid.clone(),
            collect_appkey: self.collect_appkey.clone(),
            collect_param: self.collect_param.clone(),
            collect_filter: self.collect_filter.clone(),
            collect_filter_from: self.collect_filter_from.clone(),
            collect_opt: self.collect_opt,
            collect_sync_pic_opt: self.collect_sync_pic_opt,
            collect_remove_ad: self.collect_remove_ad,
            collect_convert_webp: self.collect_convert_webp,
            collect_download_retry: self.collect_download_retry,
            collect_status: self.collect_status,
            created_at: self.created_at,
            updated_at: self.updated_at,
        }
    }
}


/// Default for a source's WebP conversion switch: off.
pub fn default_convert_webp() -> (v: i32)
    ensures
        v == 0,
{
    0
}

/// Default number of download attempts for a source.
pub fn default_download_retry() -> (v: i32)
    ensures
        v == 3,
{
    3
}

/// The kinds of media that a history or favourite entry can point at.
#[derive(Debug, Clone, Copy, PartialEq, Eq, Structural)]
pub enum MediaType {
    Vod,
    Image,
    Audio,
}

/// One playable address of a video.
#[derive(Debug, Clone)]
pub struct PlayUrl {
    pub name: String,
    pub url: String,
}

/// The addresses that one play source offers.
#[derive(Debug, Clone)]
pub struct PlaySource {
    pub source_name: String,
    pub urls: Vec<PlayUrl>,
}

/// One picture of a gallery.
#[derive(Debug)]
pub struct ImageItem {
    pub url: String,
    pub width: i32,
    pub height: i32,
}

/// What a `ImageItem` holds, with texts as sequences of characters and
/// numbers as integers.
pub struct ImageItemView {
    pub url: Seq<char>,
    pub width: int,
    pub height: int,
}

impl View for ImageItem {
    type V = ImageItemView;

    open spec fn view(&self) -> ImageItemView {
        ImageItemView {
            url: self.url@,
            width: self.width as int,
            height: self.height as int,
        }
    }
}

impl Clone for ImageItem {
    fn clone(&self) -> (copy: Self)
        ensures
            copy@ == self@,
    {
        ImageItem {
            url: self.url.clone(),
            width: self.width,
            height: self.height,
        }
    }
}


/// A signed address to which one file may be uploaded.
#[derive(Debug, Clone)]
pub struct PresignedUploadResponse {
    pub upload_url: String,
    pub file_id: String,
    pub expiration: i64,
    pub max_file_size: i64,
}

/// Progress of a chunked upload as the storage server reports it.
#[derive(Debug, Clone)]
pub struct UploadStatusResponse {
    pub upload_id: String,
    pub filename: String,
    pub file_size: i64,
    pub chunk_size: i64,
    pub total_chunks: i32,
    pub received_chunks: i32,
    pub progress: i32,
    pub status: String,
    pub created_at: String,
    pub completed_at: Option<String>,
    pub expires_at: String,
}

/// How a chunked upload is to be carried out.
#[derive(Debug, Clone)]
pub struct ChunkUploadInfo {
    pub upload_id: String,
    pub chunk_size: i64,
    pub total_chunks: i32,
    pub upload_url: String,
    pub expires_at: String,
}

} // verus!
