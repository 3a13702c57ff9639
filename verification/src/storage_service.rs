//! Storage servers and the signed addresses under which files are
//! uploaded to them.

use vstd::prelude::*;
use vstd::string::StringSliceAdditionalSpecFns;
use vstd::utf8::encode_utf8;
use rand::Rng;
use crate::clock::now_seconds;
use crate::models::{opt_count, PresignedUploadResponse};
use crate::object_id::{is_object_id, parses_as_object_id};
use crate::signature::{expected_signature, sign};
use crate::text::{
    clone_opt_text, clone_texts, joined, opt_text, signed_decimal, signed_decimal_text, texts,
};

verus! {

/// Bytes in one chunk of a chunked upload.
pub const CHUNK_SIZE: i64 = 5_242_880;

/// Seconds for which the address of a single upload is good.
pub const SINGLE_UPLOAD_SECONDS: i64 = 3_600;

/// Seconds for which the address of an archive upload is good.
pub const ARCHIVE_UPLOAD_SECONDS: i64 = 7_200;

/// A storage server in the registry. `status` is 1 when the server is enabled.
#[derive(Debug)]
pub struct StorageServer {
    pub id: Option<String>,
    pub name: String,
    pub host: String,
    pub api_key: String,
    pub api_secret: String,
    pub cms_id: String,
    pub status: i32,
    pub created_at: i64,
    pub updated_at: i64,
}

/// What a `StorageServer` holds, with texts as sequences of characters and
/// numbers as integers.
pub struct StorageServerView {
    pub id: Option<Seq<char>>,
    pub name: Seq<char>,
    pub host: Seq<char>,
    pub api_key: Seq<char>,
    pub api_secret: Seq<char>,
    pub cms_id: Seq<char>,
    pub status: int,
    pub created_at: int,
    pub updated_at: int,
}

impl View for StorageServer {
    type V = StorageServerView;

    open spec fn view(&self) -> StorageServerView {
        StorageServerView {
            id: opt_text(self.id),
            name: self.name@,
            host: self.host@,
            api_key: self.api_key@,
            api_secret: self.api_secret@,
            cms_id: self.cms_id@,
            status: self.status as int,
            created_at: self.created_at as int,
            updated_at: self.updated_at as int,
        }
    }
}

impl Clone for StorageServer {
    fn clone(&self) -> (copy: Self)
        ensures
            copy@ == self@,
    {
        StorageServer {
            id: clone_opt_text(&self.id),
            name: self.name.clone(),
            host: self.host.clone(),
            api_key: self.api_key.clone(),
            api_secret: self.api_secret.clone(),
            cms_id: self.cms_id.clone(),
            status: self.status,
            created_at: self.created_at,
            updated_at: self.updated_at,
        }
    }
}

/// What is needed to register a storage server.
#[derive(Debug)]
pub struct CreateStorageServerRequest {
    pub name: String,
    pub host: String,
    pub api_key: String,
    pub api_secret: String,
    pub cms_id: String,
}

/// What a `CreateStorageServerRequest` holds, with texts as sequences of characters and
/// numbers as integers.
pub struct CreateStorageServerRequestView {
    pub name: Seq<char>,
    pub host: Seq<char>,
    pub api_key: Seq<char>,
    pub api_secret: Seq<char>,
    pub cms_id: Seq<char>,
}

impl View for CreateStorageServerRequest {
    type V = CreateStorageServerRequestView;

    open spec fn view(&self) -> CreateStorageServerRequestView {
        CreateStorageServerRequestView {
            name: self.name@,
            host: self.host@,
            api_key: self.api_key@,
            api_secret: self.api_secret@,
            cms_id: self.cms_id@,
        }
    }
}

impl Clone for CreateStorageServerRequest {
    fn clone(&self) -> (copy: Self)
        ensures
            copy@ == self@,
    {
        CreateStorageServerRequest {
            name: self.name.clone(),
            host: self.host.clone(),
            api_key: self.api_key.clone(),
            api_secret: self.api_secret.clone(),
            cms_id: self.cms_id.clone(),
        }
    }
}

/// The fields of a storage server that are to change; a field that is
/// absent stays as it is.
#[derive(Debug)]
pub struct UpdateStorageServerRequest {
    pub name: Option<String>,
    pub host: Option<String>,
    pub api_key: Option<String>,
    pub api_secret: Option<String>,
    pub cms_id: Option<String>,
    pub status: Option<i32>,
}

/// What a `UpdateStorageServerRequest` holds, with texts as sequences of characters and
/// numbers as integers.
pub struct UpdateStorageServerRequestView {
    pub name: Option<Seq<char>>,
    pub host: Option<Seq<char>>,
    pub api_key: Option<Seq<char>>,
    pub api_secret: Option<Seq<char>>,
    pub cms_id: Option<Seq<char>>,
    pub status: Option<int>,
}

impl View for UpdateStorageServerRequest {
    type V = UpdateStorageServerRequestView;

    open spec fn view(&self) -> UpdateStorageServerRequestView {
        UpdateStorageServerRequestView {
            name: opt_text(self.name),
            host: opt_text(self.host),
            api_key: opt_text(self.api_key),
            api_secret: opt_text(self.api_secret),
            cms_id: opt_text(self.cms_id),
            status: opt_count(self.status),
        }
    }
}

impl Clone for UpdateStorageServerRequest {
    fn clone(&self) -> (copy: Self)
        ensures
            copy@ == self@,
    {
        UpdateStorageServerRequest {
            name: clone_opt_text(&self.name),
            host: clone_opt_text(&self.host),
            api_key: clone_opt_text(&self.api_key),
            api_secret: clone_opt_text(&self.api_secret),
            cms_id: clone_opt_text(&self.cms_id),
            status: self.status,
        }
    }
}

/// A file for which an upload address is asked.
#[derive(Debug)]
pub struct GeneratePresignedUrlRequest {
    pub filename: String,
    pub content_type: String,
    pub file_size: i64,
    pub upload_type: String,
}

/// What a `GeneratePresignedUrlRequest` holds, with texts as sequences of characters and
/// numbers as integers.
pub struct GeneratePresignedUrlRequestView {
    pub filename: Seq<char>,
    pub content_type: Seq<char>,
    pub file_size: int,
    pub upload_type: Seq<char>,
}

impl View for GeneratePresignedUrlRequest {
    type V = GeneratePresignedUrlRequestView;

    open spec fn view(&self) -> GeneratePresignedUrlRequestView {
        GeneratePresignedUrlRequestView {
            filename: self.filename@,
            content_type: self.content_type@,
            file_size: self.file_size as int,
            upload_type: self.upload_type@,
        }
    }
}

impl Clone for GeneratePresignedUrlRequest {
    fn clone(&self) -> (copy: Self)
        ensures
            copy@ == self@,
    {
        GeneratePresignedUrlRequest {
            filename: self.filename.clone(),
            content_type: self.content_type.clone(),
            file_size: self.file_size,
            upload_type: self.upload_type.clone(),
        }
    }
}

/// The addresses for an upload in chunks: one for each chunk, and one to
/// close the upload.
#[derive(Debug)]
pub struct ChunkUploadPlan {
    pub upload_id: String,
    pub chunk_size: i64,
    pub total_chunks: i64,
    pub chunk_urls: Vec<String>,
    pub complete_url: String,
    pub expiration: i64,
}

/// What a `ChunkUploadPlan` holds, with texts as sequences of characters and
/// numbers as integers.
pub struct ChunkUploadPlanView {
    pub upload_id: Seq<char>,
    pub chunk_size: int,
    pub total_chunks: int,
    pub chunk_urls: Seq<Seq<char>>,
    pub complete_url: Seq<char>,
    pub expiration: int,
}

impl View for ChunkUploadPlan {
    type V = ChunkUploadPlanView;

    open spec fn view(&self) -> ChunkUploadPlanView {
        ChunkUploadPlanView {
            upload_id: self.upload_id@,
            chunk_size: self.chunk_size as int,
            total_chunks: self.total_chunks as int,
            chunk_urls: texts(self.chunk_urls@),
            complete_url: self.complete_url@,
            expiration: self.expiration as int,
        }
    }
}

impl Clone for ChunkUploadPlan {
    fn clone(&self) -> (copy: Self)
        ensures
            copy@ == self@,
    {
        ChunkUploadPlan {
            upload_id: self.upload_id.clone(),
            chunk_size: self.chunk_size,
            total_chunks: self.total_chunks,
            chunk_urls: clone_texts(&self.chunk_urls),
            complete_url: self.complete_url.clone(),
            expiration: self.expiration,
        }
    }
}


/// A failure of a storage operation.
#[derive(Debug)]
pub enum StorageError {
    /// The text is no identifier of a record.
    InvalidId,
    /// No server has the identifier that was asked for.
    NotFound,
    /// The server is disabled.
    Disabled,
    /// The store failed; the text is its own.
    Store(String),
}

/// The text of a storage failure.
pub open spec fn storage_error_text(e: StorageError) -> Seq<char> {
    match e {
        StorageError::InvalidId => "Invalid ID format"@,
        StorageError::NotFound => "Storage server not found"@,
        StorageError::Disabled => "Storage server is disabled"@,
        StorageError::Store(d) => d@,
    }
}

impl StorageError {
    /// The failure as text.
    pub fn message(&self) -> (m: String)
        ensures
            m@ == storage_error_text(*self),
    {
        match self {
            StorageError::InvalidId => String::from_str("Invalid ID format"),
            StorageError::NotFound => String::from_str("Storage server not found"),
            StorageError::Disabled => String::from_str("Storage server is disabled"),
            StorageError::Store(d) => d.clone(),
        }
    }
}

/// Checks the identifier under which a server is asked for.
pub fn check_server_id(id: &str) -> (r: Result<(), StorageError>)
    ensures
        is_object_id(id@) ==> r is Ok,
        !is_object_id(id@) ==> r matches Err(StorageError::InvalidId),
{
    if parses_as_object_id(id) {
        Ok(())
    } else {
        Err(StorageError::InvalidId)
    }
}

/// Takes the server that was looked up: a lookup that found none, or a
/// write that reached none, is a failure.
pub fn found_server(found: Result<Option<StorageServer>, String>) -> (r: Result<
    StorageServer,
    StorageError,
>)
    ensures
        found matches Err(e) ==> r matches Err(StorageError::Store(d)) && d@ == e@,
        found matches Ok(None) ==> r matches Err(StorageError::NotFound),
        found matches Ok(Some(server)) ==> r == Ok::<StorageServer, StorageError>(server),
{
    match found {
        Err(e) => Err(StorageError::Store(e)),
        Ok(None) => Err(StorageError::NotFound),
        Ok(Some(server)) => Ok(server),
    }
}

/// Takes the number of records that a removal reached: a removal that
/// reached none reports the server as not found.
pub fn removed_server(outcome: Result<u64, String>) -> (r: Result<(), StorageError>)
    ensures
        outcome matches Err(e) ==> r matches Err(StorageError::Store(d)) && d@ == e@,
        outcome matches Ok(n) ==> (n == 0 ==> r matches Err(StorageError::NotFound)) && (n > 0
            ==> r is Ok),
{
    match outcome {
        Err(e) => Err(StorageError::Store(e)),
        Ok(n) => if n == 0 {
            Err(StorageError::NotFound)
        } else {
            Ok(())
        },
    }
}

/// Calls `rand::Rng::gen_range` on `rand::thread_rng()` with the range from
/// zero up to `count`. Trusted: the number lies in the range. Which number
/// comes back is left to chance. The call panics on an empty range, which
/// the precondition excludes, and fails where the system hands out no
/// random numbers.
#[verifier::external_body]
fn random_below(count: usize) -> (n: usize)
    requires
        count > 0,
    ensures
        n < count,
{
    rand::thread_rng().gen_range(0..count)
}

/// Picks one of the servers by chance, for an upload that may go to any of
/// them. Where there is no server there is nothing to pick.
pub fn pick_server(servers: &Vec<StorageServer>) -> (picked: Option<usize>)
    ensures
        servers@.len() == 0 <==> picked is None,
        picked matches Some(i) ==> i < servers@.len(),
{
    if servers.len() == 0 {
        None
    } else {
        Some(random_below(servers.len()))
    }
}

/// The kind of upload that an address is for.
#[derive(Debug, Clone, Copy, PartialEq, Eq, Structural)]
pub enum UploadKind {
    Single,
    Archive,
}

/// Whether a byte stands for itself in an address: a letter, a digit, or
/// one of `-`, `.`, `_`, `~`.
pub open spec fn is_unreserved(b: u8) -> bool {
    (0x30 <= b <= 0x39) || (0x41 <= b <= 0x5a) || (0x61 <= b <= 0x7a) || b == 0x2d || b == 0x2e
        || b == 0x5f || b == 0x7e
}

/// The upper-case hexadecimal digit for a value below sixteen.
pub open spec fn upper_hex(d: u8) -> char {
    if d < 10 {
        ((0x30 + d) as u8) as char
    } else {
        ((0x41 + d - 10) as u8) as char
    }
}

/// Bytes as they are written into an address: an unreserved byte as it is,
/// any other as `%` and its two hexadecimal digits.
pub open spec fn percent_encoded(bytes: Seq<u8>) -> Seq<char>
    decreases bytes.len(),
{
    if bytes.len() == 0 {
        Seq::empty()
    } else if is_unreserved(bytes[0]) {
        seq![bytes[0] as char] + percent_encoded(bytes.drop_first())
    } else {
        seq!['%', upper_hex(bytes[0] / 16), upper_hex(bytes[0] % 16)] + percent_encoded(
            bytes.drop_first(),
        )
    }
}

/// Calls `urlencoding::encode`. Trusted: every byte of the text's UTF-8
/// form that is not a letter, a digit or one of `-`, `.`, `_`, `~` is
/// replaced by `%` and its two upper-case hexadecimal digits, and every
/// other byte is kept.
#[verifier::external_body]
fn url_encode(text: &str) -> (encoded: String)
    ensures
        encoded@ == percent_encoded(text.spec_bytes()),
{
    urlencoding::encode(text).into_owned()
}

/// Calls `uuid::Uuid::new_v4` and writes the identifier with `to_string`.
/// Trusted: the text has 36 characters, 32 hexadecimal digits and four
/// hyphens. Which identifier comes back is left open. The call fails where
/// the system hands out no random numbers.
#[verifier::external_body]
fn fresh_uuid() -> (id: String)
    ensures
        id@.len() == 36,
{
    uuid::Uuid::new_v4().to_string()
}

/// The text that is signed for an upload.
pub open spec fn upload_message(
    file_id: Seq<char>,
    filename: Seq<char>,
    file_size: int,
    expiration: int,
) -> Seq<char> {
    file_id + ":"@ + filename + ":"@ + signed_decimal(file_size) + ":"@ + signed_decimal(
        expiration,
    )
}

/// The path of the endpoint that takes uploads of a kind.
pub open spec fn upload_path(kind: UploadKind) -> Seq<char> {
    match kind {
        UploadKind::Single => "/api/upload/single"@,
        UploadKind::Archive => "/api/upload/archive"@,
    }
}

/// The seconds for which an address for uploads of a kind is good.
pub open spec fn upload_seconds(kind: UploadKind) -> int {
    match kind {
        UploadKind::Single => SINGLE_UPLOAD_SECONDS as int,
        UploadKind::Archive => ARCHIVE_UPLOAD_SECONDS as int,
    }
}

/// A time in seconds, a number of seconds later, held within the range of
/// the clock.
pub open spec fn later(now: int, seconds: int) -> int {
    if now + seconds > i64::MAX {
        i64::MAX as int
    } else if now + seconds < i64::MIN {
        i64::MIN as int
    } else {
        now + seconds
    }
}

/// The address for the upload of one file.
pub open spec fn upload_url(
    server: StorageServerView,
    request: GeneratePresignedUrlRequestView,
    kind: UploadKind,
    file_id: Seq<char>,
    expiration: int,
) -> Seq<char> {
    server.host + upload_path(kind) + "?file_id="@ + file_id + "&filename="@ + percent_encoded(
        encode_utf8(request.filename),
    ) + "&content_type="@ + percent_encoded(encode_utf8(request.content_type)) + "&file_size="@
        + signed_decimal(request.file_size) + "&expiration="@ + signed_decimal(expiration)
        + "&signature="@ + expected_signature(
        server.api_secret,
        upload_message(file_id, request.filename, request.file_size, expiration),
    ) + "&api_key="@ + server.api_key
}

/// The number of chunks that a file of `file_size` bytes is uploaded in.
pub open spec fn chunks_for(file_size: int) -> int {
    if file_size <= 0 {
        0
    } else {
        (file_size + CHUNK_SIZE - 1) / (CHUNK_SIZE as int)
    }
}

/// The address for the upload of the chunk with the given index.
pub open spec fn chunk_url(
    server: StorageServerView,
    request: GeneratePresignedUrlRequestView,
    upload_id: Seq<char>,
    index: int,
    expiration: int,
) -> Seq<char> {
    server.host + "/api/upload/chunk?upload_id="@ + upload_id + "&chunk_index="@ + signed_decimal(
        index,
    ) + "&chunk_size="@ + signed_decimal(CHUNK_SIZE as int) + "&filename="@ + percent_encoded(
        encode_utf8(request.filename),
    ) + "&expiration="@ + signed_decimal(expiration) + "&signature="@ + expected_signature(
        server.api_secret,
        upload_message(upload_id, request.filename, CHUNK_SIZE as int, expiration),
    ) + "&api_key="@ + server.api_key
}

/// The address that closes a chunked upload.
pub open spec fn complete_url(
    server: StorageServerView,
    request: GeneratePresignedUrlRequestView,
    upload_id: Seq<char>,
    expiration: int,
) -> Seq<char> {
    server.host + "/api/upload/complete?upload_id="@ + upload_id + "&filename="@
        + percent_encoded(encode_utf8(request.filename)) + "&file_size="@ + signed_decimal(
        request.file_size,
    ) + "&expiration="@ + signed_decimal(expiration) + "&signature="@ + expected_signature(
        server.api_secret,
        upload_message(upload_id, request.filename, request.file_size, expiration),
    ) + "&api_key="@ + server.api_key
}

/// The record of a server that is registered at `now`: enabled.
pub open spec fn registered_server(
    req: CreateStorageServerRequestView,
    now: int,
) -> StorageServerView {
    StorageServerView {
        id: None,
        name: req.name,
        host: req.host,
        api_key: req.api_key,
        api_secret: req.api_secret,
        cms_id: req.cms_id,
        status: 1,
        created_at: now,
        updated_at: now,
    }
}

/// A server after the fields that a request carries have been replaced.
pub open spec fn updated_server(
    s: StorageServerView,
    req: UpdateStorageServerRequestView,
    now: int,
) -> StorageServerView {
    StorageServerView {
        id: s.id,
        name: match req.name {
            Some(v) => v,
            None => s.name,
        },
        host: match req.host {
            Some(v) => v,
            None => s.host,
        },
        api_key: match req.api_key {
            Some(v) => v,
            None => s.api_key,
        },
        api_secret: match req.api_secret {
            Some(v) => v,
            None => s.api_secret,
        },
        cms_id: match req.cms_id {
            Some(v) => v,
            None => s.cms_id,
        },
        status: match req.status {
            Some(v) => v,
            None => s.status,
        },
        created_at: s.created_at,
        updated_at: now,
    }
}

/// A time a number of seconds after `now`.
pub fn seconds_later(now: i64, seconds: i64) -> (t: i64)
    ensures
        t == later(now as int, seconds as int),
{
    match now.checked_add(seconds) {
        Some(t) => t,
        None => if seconds > 0 {
            i64::MAX
        } else {
            i64::MIN
        },
    }
}

/// Signs an upload under the server's secret.
pub fn generate_signature(
    api_secret: &str,
    file_id: &str,
    filename: &str,
    file_size: i64,
    expiration: i64,
) -> (signature: String)
    ensures
        signature@ == expected_signature(
            api_secret@,
            upload_message(file_id@, filename@, file_size as int, expiration as int),
        ),
{
    let mut message = joined(file_id, ":");
    message.append(filename);
    message.append(":");
    message.append(signed_decimal_text(file_size).as_str());
    message.append(":");
    message.append(signed_decimal_text(expiration).as_str());
    sign(api_secret, message.as_str())
}

impl StorageServer {
    /// The record of a server that is registered at `now`.
    pub fn from_request(request: CreateStorageServerRequest, now: i64) -> (server: StorageServer)
        ensures
            server@ == registered_server(request@, now as int),
    {
        StorageServer {
            id: None,
            name: request.name,
            host: request.host,
            api_key: request.api_key,
            api_secret: request.api_secret,
            cms_id: request.cms_id,
            status: 1,
            created_at: now,
            updated_at: now,
        }
    }

    /// Replaces the fields that a request carries.
    pub fn apply(&mut self, request: &UpdateStorageServerRequest, now: i64)
        ensures
            final(self)@ == updated_server(old(self)@, request@, now as int),
    {
        if let Some(v) = &request.name {
            self.name = v.clone();
        }
        if let Some(v) = &request.host {
            self.host = v.clone();
        }
        if let Some(v) = &request.api_key {
            self.api_key = v.clone();
        }
        if let Some(v) = &request.api_secret {
            self.api_secret = v.clone();
        }
        if let Some(v) = &request.cms_id {
            self.cms_id = v.clone();
        }
        if let Some(v) = request.status {
            self.status = v;
        }
        self.updated_at = now;
    }

    /// Whether the server takes uploads.
    pub fn is_enabled(&self) -> (enabled: bool)
        ensures
            enabled == (self@.status == 1),
    {
        self.status == 1
    }
}

/// Makes the address for the upload of one file under `file_id`, good for
/// an hour, or for two where the file is an archive. A disabled server
/// gives no address.
pub fn presigned_upload(
    server: &StorageServer,
    request: &GeneratePresignedUrlRequest,
    kind: UploadKind,
    file_id: &str,
    now_seconds: i64,
) -> (r: Result<PresignedUploadResponse, StorageError>)
    ensures
        server@.status != 1 ==> r matches Err(StorageError::Disabled),
        server@.status == 1 ==> (r matches Ok(upload) && upload.file_id@ == file_id@
            && upload.expiration == later(now_seconds as int, upload_seconds(kind))
            && upload.max_file_size == request.file_size && upload.upload_url@ == upload_url(
            server@,
            request@,
            kind,
            file_id@,
            later(now_seconds as int, upload_seconds(kind)),
        )),
{
    if !server.is_enabled() {
        return Err(StorageError::Disabled);
    }
    let expiration = match kind {
        UploadKind::Single => seconds_later(now_seconds, SINGLE_UPLOAD_SECONDS),
        UploadKind::Archive => seconds_later(now_seconds, ARCHIVE_UPLOAD_SECONDS),
    };
    let signature = generate_signature(
        server.api_secret.as_str(),
        file_id,
        request.filename.as_str(),
        request.file_size,
        expiration,
    );
    let mut url = server.host.clone();
    match kind {
        UploadKind::Single => url.append("/api/upload/single"),
        UploadKind::Archive => url.append("/api/upload/archive"),
    }
    url.append("?file_id=");
    url.append(file_id);
    url.append("&filename=");
    url.append(url_encode(request.filename.as_str()).as_str());
    url.append("&content_type=");
    url.append(url_encode(request.content_type.as_str()).as_str());
    url.append("&file_size=");
    url.append(signed_decimal_text(request.file_size).as_str());
    url.append("&expiration=");
    url.append(signed_decimal_text(expiration).as_str());
    url.append("&signature=");
    url.append(signature.as_str());
    url.append("&api_key=");
    url.append(server.api_key.as_str());
    Ok(
        PresignedUploadResponse {
            upload_url: url,
            file_id: String::from_str(file_id),
            expiration,
            max_file_size: request.file_size,
        },
    )
}

/// The number of chunks that a file of `file_size` bytes is uploaded in.
pub fn chunk_count(file_size: i64) -> (chunks: i64)
    ensures
        chunks == chunks_for(file_size as int),
        chunks >= 0,
{
    if file_size <= 0 {
        0
    } else {
        proof {
            crate::paging::lemma_pages(file_size as int, CHUNK_SIZE as int);
        }
        let full = file_size / CHUNK_SIZE;
        if file_size % CHUNK_SIZE == 0 {
            full
        } else {
            full + 1
        }
    }
}

/// Makes the addresses for an upload in chunks under `upload_id`, good for
/// an hour: one address for each chunk of five mebibytes, in order, and
/// one to close the upload. A disabled server gives no address.
pub fn chunk_upload_plan(
    server: &StorageServer,
    request: &GeneratePresignedUrlRequest,
    upload_id: &str,
    now_seconds: i64,
) -> (r: Result<ChunkUploadPlan, StorageError>)
    ensures
        server@.status != 1 ==> r matches Err(StorageError::Disabled),
        server@.status == 1 ==> (r matches Ok(plan) && {
            let expiration = later(now_seconds as int, SINGLE_UPLOAD_SECONDS as int);
            &&& plan@.upload_id == upload_id@
            &&& plan@.chunk_size == CHUNK_SIZE
            &&& plan@.total_chunks == chunks_for(request@.file_size)
            &&& plan@.expiration == expiration
            &&& plan@.complete_url == complete_url(server@, request@, upload_id@, expiration)
            &&& plan@.chunk_urls.len() == chunks_for(request@.file_size)
            &&& forall|i: int|
                0 <= i < plan@.chunk_urls.len() ==> #[trigger] plan@.chunk_urls[i] == chunk_url(
                    server@,
                    request@,
                    upload_id@,
                    i,
                    expiration,
                )
        }),
{
    if !server.is_enabled() {
        return Err(StorageError::Disabled);
    }
    let total = chunk_count(request.file_size);
    let expiration = seconds_later(now_seconds, SINGLE_UPLOAD_SECONDS);
    let chunk_signature = generate_signature(
        server.api_secret.as_str(),
        upload_id,
        request.filename.as_str(),
        CHUNK_SIZE,
        expiration,
    );
    let filename = url_encode(request.filename.as_str());
    let mut chunk_urls: Vec<String> = Vec::new();
    let mut index: i64 = 0;
    while index < total
        invariant
            0 <= index <= total,
            chunk_urls@.len() == index,
            filename@ == percent_encoded(encode_utf8(request@.filename)),
            chunk_signature@ == expected_signature(
                server@.api_secret,
                upload_message(upload_id@, request@.filename, CHUNK_SIZE as int, expiration as int),
            ),
            forall|i: int|
                0 <= i < index ==> (#[trigger] chunk_urls@[i])@ == chunk_url(
                    server@,
                    request@,
                    upload_id@,
                    i,
                    expiration as int,
                ),
        decreases total - index,
    {
        let mut url = server.host.clone();
        url.append("/api/upload/chunk?upload_id=");
        url.append(upload_id);
        url.append("&chunk_index=");
        url.append(signed_decimal_text(index).as_str());
        url.append("&chunk_size=");
        url.append(signed_decimal_text(CHUNK_SIZE).as_str());
        url.append("&filename=");
        url.append(filename.as_str());
        url.append("&expiration=");
        url.append(signed_decimal_text(expiration).as_str());
        url.append("&signature=");
        url.append(chunk_signature.as_str());
        url.append("&api_key=");
        url.append(server.api_key.as_str());
        chunk_urls.push(url);
        index = index + 1;
    }
    let signature = generate_signature(
        server.api_secret.as_str(),
        upload_id,
        request.filename.as_str(),
        request.file_size,
        expiration,
    );
    let mut closing = server.host.clone();
    closing.append("/api/upload/complete?upload_id=");
    closing.append(upload_id);
    closing.append("&filename=");
    closing.append(filename.as_str());
    closing.append("&file_size=");
    closing.append(signed_decimal_text(request.file_size).as_str());
    closing.append("&expiration=");
    closing.append(signed_decimal_text(expiration).as_str());
    closing.append("&signature=");
    closing.append(signature.as_str());
    closing.append("&api_key=");
    closing.append(server.api_key.as_str());
    let plan = ChunkUploadPlan {
        upload_id: String::from_str(upload_id),
        chunk_size: CHUNK_SIZE,
        total_chunks: total,
        chunk_urls,
        complete_url: closing,
        expiration,
    };
    assert forall|i: int| 0 <= i < plan@.chunk_urls.len() implies #[trigger] plan@.chunk_urls[i]
        == chunk_url(server@, request@, upload_id@, i, expiration as int) by {
        assert(plan@.chunk_urls[i] == plan.chunk_urls@[i]@);
    }
    Ok(plan)
}

/// Whether an upload was made by `presigned_upload` at some time of the
/// clock, for a file identifier of 36 characters.
pub open spec fn is_fresh_upload(
    server: StorageServerView,
    request: GeneratePresignedUrlRequestView,
    kind: UploadKind,
    upload: PresignedUploadResponse,
) -> bool {
    upload.file_id@.len() == 36 && upload.max_file_size == request.file_size && exists|now: int|
        i64::MIN <= now <= i64::MAX && upload.expiration == #[trigger] later(
            now,
            upload_seconds(kind),
        ) && upload.upload_url@ == upload_url(
            server,
            request,
            kind,
            upload.file_id@,
            upload.expiration as int,
        )
}

/// Makes the address for the upload of one file, under a newly drawn file
/// identifier, good for an hour from the time that the clock shows.
pub fn generate_single_upload_url(
    server: &StorageServer,
    request: &GeneratePresignedUrlRequest,
) -> (r: Result<PresignedUploadResponse, StorageError>)
    ensures
        server@.status != 1 ==> r matches Err(StorageError::Disabled),
        server@.status == 1 ==> (r matches Ok(upload) && is_fresh_upload(
            server@,
            request@,
            UploadKind::Single,
            upload,
        )),
{
    let file_id = fresh_uuid();
    let now = now_seconds();
    let r = presigned_upload(server, request, UploadKind::Single, file_id.as_str(), now);
    proof {
        if server@.status == 1 {
            assert(r->Ok_0.expiration == later(now as int, upload_seconds(UploadKind::Single)));
        }
    }
    r
}

/// Makes the address for the upload of an archive, under a newly drawn
/// file identifier, good for two hours from the time that the clock shows.
pub fn generate_archive_upload_url(
    server: &StorageServer,
    request: &GeneratePresignedUrlRequest,
) -> (r: Result<PresignedUploadResponse, StorageError>)
    ensures
        server@.status != 1 ==> r matches Err(StorageError::Disabled),
        server@.status == 1 ==> (r matches Ok(upload) && is_fresh_upload(
            server@,
            request@,
            UploadKind::Archive,
            upload,
        )),
{
    let file_id = fresh_uuid();
    let now = now_seconds();
    let r = presigned_upload(server, request, UploadKind::Archive, file_id.as_str(), now);
    proof {
        if server@.status == 1 {
            assert(r->Ok_0.expiration == later(now as int, upload_seconds(UploadKind::Archive)));
        }
    }
    r
}

/// Makes the addresses for an upload in chunks, under a newly drawn upload
/// identifier, good for an hour from the time that the clock shows.
pub fn generate_chunk_upload_url(
    server: &StorageServer,
    request: &GeneratePresignedUrlRequest,
) -> (r: Result<ChunkUploadPlan, StorageError>)
    ensures
        server@.status != 1 ==> r matches Err(StorageError::Disabled),
        server@.status == 1 ==> (r matches Ok(plan) && plan@.upload_id.len() == 36
            && plan@.chunk_size == CHUNK_SIZE && plan@.total_chunks == chunks_for(
            request@.file_size,
        ) && plan@.chunk_urls.len() == chunks_for(request@.file_size) && (forall|i: int|
            0 <= i < plan@.chunk_urls.len() ==> #[trigger] plan@.chunk_urls[i] == chunk_url(
                server@,
                request@,
                plan@.upload_id,
                i,
                plan@.expiration,
            )) && plan@.complete_url == complete_url(
            server@,
            request@,
            plan@.upload_id,
            plan@.expiration,
        )),
{
    let upload_id = fresh_uuid();
    let now = now_seconds();
    chunk_upload_plan(server, request, upload_id.as_str(), now)
}

} // verus!
