//! Galleries: what a submission must carry, what the submitter is told,
//! and what a gallery holds once its archive has been unpacked.

use vstd::prelude::*;
use crate::dto::{CreateProcessingJobRequest, CreateProcessingJobRequestView};
use crate::models::{opt_int, views, ImageItem, ImageItemView};
use crate::paging::{is_page, page_of, Paging, DEFAULT_IMAGE_PAGE_SIZE};
use crate::object_id::{is_object_id, parses_as_object_id};
use crate::text::{clone_opt_text, clone_texts, joined, opt_text, str_equal, texts};

verus! {

/// A gallery handed in for publication, with the upload that holds its
/// pictures.
#[derive(Debug)]
pub struct ImageSubmissionRequest {
    pub title: String,
    pub en_title: Option<String>,
    pub description: Option<String>,
    pub category: String,
    pub language: Option<String>,
    pub artists: Option<String>,
    pub tags: Vec<String>,
    pub need_vip: i32,
    pub upload_id: String,
    pub server_id: String,
}

/// What a `ImageSubmissionRequest` holds, with texts as sequences of characters and
/// numbers as integers.
pub struct ImageSubmissionRequestView {
    pub title: Seq<char>,
    pub en_title: Option<Seq<char>>,
    pub description: Option<Seq<char>>,
    pub category: Seq<char>,
    pub language: Option<Seq<char>>,
    pub artists: Option<Seq<char>>,
    pub tags: Seq<Seq<char>>,
    pub need_vip: int,
    pub upload_id: Seq<char>,
    pub server_id: Seq<char>,
}

impl View for ImageSubmissionRequest {
    type V = ImageSubmissionRequestView;

    open spec fn view(&self) -> ImageSubmissionRequestView {
        ImageSubmissionRequestView {
            title: self.title@,
            en_title: opt_text(self.en_title),
            description: opt_text(self.description),
            category: self.category@,
            language: opt_text(self.language),
            artists: opt_text(self.artists),
            tags: texts(self.tags@),
            need_vip: self.need_vip as int,
            upload_id: self.upload_id@,
            server_id: self.server_id@,
        }
    }
}

impl Clone for ImageSubmissionRequest {
    fn clone(&self) -> (copy: Self)
        ensures
            copy@ == self@,
    {
        ImageSubmissionRequest {
            title: self.title.clone(),
            en_title: clone_opt_text(&self.en_title),
            description: clone_opt_text(&self.description),
            category: self.category.clone(),
            language: clone_opt_text(&self.language),
            artists: clone_opt_text(&self.artists),
            tags: clone_texts(&self.tags),
            need_vip: self.need_vip,
            upload_id: self.upload_id.clone(),
            server_id: self.server_id.clone(),
        }
    }
}

/// What the submitter is told.
#[derive(Debug)]
pub struct ImageSubmissionResponse {
    pub image_id: String,
    pub title: String,
    pub status: String,
    pub message: String,
}

/// What a `ImageSubmissionResponse` holds, with texts as sequences of characters and
/// numbers as integers.
pub struct ImageSubmissionResponseView {
    pub image_id: Seq<char>,
    pub title: Seq<char>,
    pub status: Seq<char>,
    pub message: Seq<char>,
}

impl View for ImageSubmissionResponse {
    type V = ImageSubmissionResponseView;

    open spec fn view(&self) -> ImageSubmissionResponseView {
        ImageSubmissionResponseView {
            image_id: self.image_id@,
            title: self.title@,
            status: self.status@,
            message: self.message@,
        }
    }
}

impl Clone for ImageSubmissionResponse {
    fn clone(&self) -> (copy: Self)
        ensures
            copy@ == self@,
    {
        ImageSubmissionResponse {
            image_id: self.image_id.clone(),
            title: self.title.clone(),
            status: self.status.clone(),
            message: self.message.clone(),
        }
    }
}

/// One entry of the results that a worker reports for an archive, as far as
/// a gallery uses it. An entry without an address is no picture.
#[derive(Debug)]
pub struct ProcessedEntry {
    pub url: Option<String>,
    pub width: Option<i64>,
    pub height: Option<i64>,
}

/// What a `ProcessedEntry` holds, with texts as sequences of characters and
/// numbers as integers.
pub struct ProcessedEntryView {
    pub url: Option<Seq<char>>,
    pub width: Option<int>,
    pub height: Option<int>,
}

impl View for ProcessedEntry {
    type V = ProcessedEntryView;

    open spec fn view(&self) -> ProcessedEntryView {
        ProcessedEntryView {
            url: opt_text(self.url),
            width: opt_int(self.width),
            height: opt_int(self.height),
        }
    }
}

impl Clone for ProcessedEntry {
    fn clone(&self) -> (copy: Self)
        ensures
            copy@ == self@,
    {
        ProcessedEntry {
            url: clone_opt_text(&self.url),
            width: self.width,
            height: self.height,
        }
    }
}


/// What a listing of galleries is asked for.
#[derive(Debug)]
pub struct ImageListQuery {
    pub page: Option<i64>,
    pub limit: Option<i64>,
    pub status: Option<String>,
    pub category: Option<String>,
}

/// The fields of a gallery that are to change; a field that is absent
/// stays as it is.
#[derive(Debug)]
pub struct ImageUpdateRequest {
    pub title: Option<String>,
    pub en_title: Option<String>,
    pub description: Option<String>,
    pub category: Option<String>,
    pub language: Option<String>,
    pub artists: Option<String>,
    pub tags: Option<Vec<String>>,
    pub need_vip: Option<i32>,
}

/// Why a request about one gallery is refused.
#[derive(Debug, Clone, Copy, PartialEq, Eq, Structural)]
pub enum GalleryError {
    /// The text is no identifier of a gallery.
    InvalidId,
    /// The request comes from an account that did not upload the gallery.
    NotOwner,
    /// The request changes nothing.
    NothingToUpdate,
}

/// Why a submission is refused.
#[derive(Debug, Clone, Copy, PartialEq, Eq, Structural)]
pub enum SubmissionError {
    TitleMissing,
    CategoryMissing,
    UploadIncomplete,
}

/// What a gallery holds once its archive has been unpacked.
pub struct GalleryContent {
    pub images: Vec<ImageItem>,
    pub cover: ImageItem,
    pub pages: i32,
}

/// Why a submission is refused, if it is: for want of a title, of a
/// category, or of the upload and the server that holds it.
pub open spec fn submission_error(req: ImageSubmissionRequestView) -> Option<SubmissionError> {
    if req.title.len() == 0 {
        Some(SubmissionError::TitleMissing)
    } else if req.category.len() == 0 {
        Some(SubmissionError::CategoryMissing)
    } else if req.upload_id.len() == 0 || req.server_id.len() == 0 {
        Some(SubmissionError::UploadIncomplete)
    } else {
        None
    }
}

/// The text of a refusal.
pub open spec fn submission_error_text(e: SubmissionError) -> Seq<char> {
    match e {
        SubmissionError::TitleMissing => "标题不能为空"@,
        SubmissionError::CategoryMissing => "分类不能为空"@,
        SubmissionError::UploadIncomplete => "上传信息不完整"@,
    }
}

/// The request that hands the archive of a submission to a worker.
pub open spec fn archive_job_request(
    req: ImageSubmissionRequestView,
    parameters: Seq<char>,
    host: Seq<char>,
    secret: Seq<char>,
) -> CreateProcessingJobRequestView {
    CreateProcessingJobRequestView {
        file_id: req.upload_id,
        job_type: "archive-process"@,
        parameters,
        webhook_url: Some(host + "/api/webhook/image-processing"@),
        webhook_secret: Some(secret),
        cms_id: "maccms"@,
    }
}

/// What the submitter is told: the gallery is being processed where its
/// archive was handed to a worker, and waits where it was not.
pub open spec fn submission_answer(
    image_id: Seq<char>,
    title: Seq<char>,
    dispatched: bool,
) -> ImageSubmissionResponseView {
    ImageSubmissionResponseView {
        image_id,
        title,
        status: if dispatched {
            "processing"@
        } else {
            "pending"@
        },
        message: if dispatched {
            "投稿成功，压缩包正在处理中"@
        } else {
            "投稿成功，但处理任务创建失败，请联系管理员"@
        },
    }
}

/// A dimension as a picture holds it: the reported one cut to 32 bits, or
/// zero where none was reported.
pub open spec fn dimension(d: Option<int>) -> int {
    match d {
        Some(v) => (v as i64) as i32 as int,
        None => 0,
    }
}

/// The picture that an entry stands for.
pub open spec fn picture_of(url: Seq<char>, e: ProcessedEntryView) -> ImageItemView {
    ImageItemView { url, width: dimension(e.width), height: dimension(e.height) }
}

/// The pictures among the entries, in their order.
pub open spec fn pictures_of(entries: Seq<ProcessedEntryView>) -> Seq<ImageItemView>
    decreases entries.len(),
{
    if entries.len() == 0 {
        Seq::empty()
    } else {
        match entries.last().url {
            Some(url) => pictures_of(entries.drop_last()).push(picture_of(url, entries.last())),
            None => pictures_of(entries.drop_last()),
        }
    }
}

/// The cover of a gallery: its first entry where that is a picture, else a
/// picture without address and size.
pub open spec fn cover_of(entries: Seq<ProcessedEntryView>) -> ImageItemView {
    if entries.len() > 0 && entries[0].url is Some {
        picture_of(entries[0].url->Some_0, entries[0])
    } else {
        ImageItemView { url: Seq::empty(), width: 0, height: 0 }
    }
}

/// A number of pictures as a gallery holds it, cut to 32 bits.
pub open spec fn page_count(n: nat) -> int {
    (n as usize) as i32 as int
}

/// Checks the identifier under which a gallery is asked for.
pub fn check_image_id(id: &str) -> (r: Result<(), GalleryError>)
    ensures
        is_object_id(id@) ==> r is Ok,
        !is_object_id(id@) ==> r == Err::<(), GalleryError>(GalleryError::InvalidId),
{
    if parses_as_object_id(id) {
        Ok(())
    } else {
        Err(GalleryError::InvalidId)
    }
}

/// Whether a change to a gallery is let through: only the account that
/// uploaded it may change it, and the change must change something.
pub open spec fn change_refusal(
    uploader: Seq<char>,
    account: Option<Seq<char>>,
    nothing_to_change: bool,
) -> Option<GalleryError> {
    if account != Some(uploader) {
        Some(GalleryError::NotOwner)
    } else if nothing_to_change {
        Some(GalleryError::NothingToUpdate)
    } else {
        None
    }
}

/// Checks that the account may make the change to the gallery.
pub fn check_change(uploader: &str, account: &Option<String>, nothing_to_change: bool) -> (r:
    Result<(), GalleryError>)
    ensures
        match change_refusal(uploader@, opt_text(*account), nothing_to_change) {
            Some(e) => r == Err::<(), GalleryError>(e),
            None => r is Ok,
        },
{
    let owner = match account {
        Some(id) => str_equal(id.as_str(), uploader),
        None => false,
    };
    if !owner {
        Err(GalleryError::NotOwner)
    } else if nothing_to_change {
        Err(GalleryError::NothingToUpdate)
    } else {
        Ok(())
    }
}

impl SubmissionError {
    /// The refusal as text.
    pub fn message(&self) -> (m: String)
        ensures
            m@ == submission_error_text(*self),
    {
        match self {
            SubmissionError::TitleMissing => String::from_str("标题不能为空"),
            SubmissionError::CategoryMissing => String::from_str("分类不能为空"),
            SubmissionError::UploadIncomplete => String::from_str("上传信息不完整"),
        }
    }
}

/// Checks a submission.
pub fn validate_submission(req: &ImageSubmissionRequest) -> (r: Result<(), SubmissionError>)
    ensures
        match submission_error(req@) {
            Some(e) => r == Err::<(), SubmissionError>(e),
            None => r is Ok,
        },
{
    if req.title.as_str().is_empty() {
        Err(SubmissionError::TitleMissing)
    } else if req.category.as_str().is_empty() {
        Err(SubmissionError::CategoryMissing)
    } else if req.upload_id.as_str().is_empty() || req.server_id.as_str().is_empty() {
        Err(SubmissionError::UploadIncomplete)
    } else {
        Ok(())
    }
}

/// Makes the request that hands the archive of a submission to a worker,
/// which is to report to `host` under `secret`.
pub fn submission_job_request(
    req: &ImageSubmissionRequest,
    parameters: String,
    host: &str,
    secret: &str,
) -> (job: CreateProcessingJobRequest)
    ensures
        job@ == archive_job_request(req@, parameters@, host@, secret@),
{
    CreateProcessingJobRequest {
        file_id: req.upload_id.clone(),
        job_type: String::from_str("archive-process"),
        parameters,
        webhook_url: Some(joined(host, "/api/webhook/image-processing")),
        webhook_secret: Some(String::from_str(secret)),
        cms_id: String::from_str("maccms"),
    }
}

/// Makes the answer to the submitter.
pub fn submission_response(image_id: &str, title: &str, dispatched: bool) -> (r:
    ImageSubmissionResponse)
    ensures
        r@ == submission_answer(image_id@, title@, dispatched),
{
    ImageSubmissionResponse {
        image_id: String::from_str(image_id),
        title: String::from_str(title),
        status: if dispatched {
            String::from_str("processing")
        } else {
            String::from_str("pending")
        },
        message: if dispatched {
            String::from_str("投稿成功，压缩包正在处理中")
        } else {
            String::from_str("投稿成功，但处理任务创建失败，请联系管理员")
        },
    }
}

impl ImageListQuery {
    /// The page that the query asks for: the first where none is named, of
    /// twenty galleries where no size is named.
    pub fn paging(&self) -> (p: Option<Paging>)
        ensures
            ({
                let number = match self.page {
                    Some(n) => n as int,
                    None => 1,
                };
                let size = match self.limit {
                    Some(n) => n as int,
                    None => DEFAULT_IMAGE_PAGE_SIZE as int,
                };
                match p {
                    Some(paging) => is_page(number, size) && paging@ == page_of(number, size),
                    None => !is_page(number, size),
                }
            }),
    {
        Paging::from_signed_query(self.page, self.limit, DEFAULT_IMAGE_PAGE_SIZE)
    }
}

impl ImageUpdateRequest {
    /// Whether the request changes nothing.
    pub fn is_empty(&self) -> (empty: bool)
        ensures
            empty == (self.title is None && self.en_title is None && self.description is None
                && self.category is None && self.language is None && self.artists is None
                && self.tags is None && self.need_vip is None),
    {
        self.title.is_none() && self.en_title.is_none() && self.description.is_none()
            && self.category.is_none() && self.language.is_none() && self.artists.is_none()
            && self.tags.is_none() && self.need_vip.is_none()
    }
}

/// Reads the dimension of a picture.
fn read_dimension(d: Option<i64>) -> (v: i32)
    ensures
        v == dimension(opt_int(d)),
{
    match d {
        Some(n) => {
            #[verifier::truncate]
            let cut = n as i32;
            cut
        },
        None => 0,
    }
}

/// Puts together what a gallery holds from the results that a worker
/// reported for its archive: every entry with an address is a picture, and
/// the first entry is the cover.
pub fn gallery_from_results(entries: &Vec<ProcessedEntry>) -> (content: GalleryContent)
    ensures
        views(content.images@) == pictures_of(views(entries@)),
        content.cover@ == cover_of(views(entries@)),
        content.pages == page_count(content.images@.len()),
{
    let mut images: Vec<ImageItem> = Vec::new();
    let mut cover = ImageItem { url: String::new(), width: 0, height: 0 };
    let mut i: usize = 0;
    assert(views(entries@.subrange(0, 0)) =~= Seq::<ProcessedEntryView>::empty());
    assert(views(images@) =~= Seq::<ImageItemView>::empty());
    while i < entries.len()
        invariant
            i <= entries.len(),
            views(images@) == pictures_of(views(entries@.subrange(0, i as int))),
            cover@ == if i == 0 {
                ImageItemView { url: Seq::empty(), width: 0, height: 0 }
            } else {
                cover_of(views(entries@))
            },
        decreases entries.len() - i,
    {
        let ghost before = views(entries@.subrange(0, i as int));
        let ghost after = views(entries@.subrange(0, i + 1));
        proof {
            assert(after.drop_last() =~= before);
            assert(after.last() == entries@[i as int]@);
            assert(views(entries@)[i as int] == entries@[i as int]@);
        }
        if let Some(url) = &entries[i].url {
            let width = read_dimension(entries[i].width);
            let height = read_dimension(entries[i].height);
            let ghost kept = views(images@);
            images.push(ImageItem { url: url.clone(), width, height });
            assert(views(images@) =~= kept.push(picture_of(url@, entries@[i as int]@)));
            if i == 0 {
                cover = ImageItem { url: url.clone(), width, height };
            }
        }
        i = i + 1;
    }
    assert(entries@.subrange(0, entries.len() as int) =~= entries@);
    #[verifier::truncate]
    let pages = images.len() as i32;
    GalleryContent { images, cover, pages }
}

} // verus!
