//! The client: the request that each operation sends, and how the answers
//! that need more than decoding are read.
use vstd::prelude::*;

use crate::location::{
    api_path, api_url, drive_segments, item_segments, push_segment, spec_api_path, spec_api_url,
    DriveLocation, DriveLocationView, FileName, ItemLocation, ItemLocationView,
};
use crate::option::{CollectionOption, DriveItemPutOption, ObjectOption};
use crate::request::{
    build_request, request_view, simple_request, spec_request, spec_simple_request, ApiRequest,
    ApiRequestView, Method, RequestBody, RequestBodyView,
};
use crate::text::{
    lemma_decimal_digits, lemma_parse_decimal, push_decimal, push_str, spec_decimal, spec_parse_u64,
    string_from_chars,
};
use crate::{ConflictBehavior, ExpectRange};

verus! {

/// Timestamp string with ISO 8601 format.
pub type TimestampString = String;

/// The largest body that `upload_small` sends: 4 MB.
pub const UPLOAD_SMALL_LIMIT: usize = 4_000_000;

/// The largest part that `upload_to_session` sends: 60 MiB.
pub const UPLOAD_SESSION_PART_LIMIT: usize = 62_914_560;

/// The conflict behavior that a request asks for: the one given, else `Fail`.
pub open spec fn spec_conflict_or_fail(conflict_behavior: Option<ConflictBehavior>) -> ConflictBehavior {
    match conflict_behavior {
        Some(c) => c,
        None => ConflictBehavior::Fail,
    }
}

fn conflict_or_fail(conflict_behavior: Option<ConflictBehavior>) -> (r: ConflictBehavior)
    ensures
        r == spec_conflict_or_fail(conflict_behavior),
{
    match conflict_behavior {
        Some(c) => c,
        None => ConflictBehavior::Fail,
    }
}

/// The URL path segments of an endpoint about `item`, with `action` after it if any.
pub open spec fn item_endpoint(
    drive: DriveLocationView,
    item: ItemLocationView,
    action: Seq<Seq<char>>,
) -> Seq<Seq<char>> {
    drive_segments(drive) + item_segments(item) + action
}

/// The value of the `Content-Range` header for the bytes `start..end` of a
/// file of `total` bytes: `bytes {start}-{end - 1}/{total}`.
pub open spec fn spec_content_range(start: nat, end: nat, total: nat) -> Seq<char> {
    "bytes "@ + spec_decimal(start) + seq!['-'] + spec_decimal((end - 1) as nat) + seq!['/']
        + spec_decimal(total)
}

/// The `Content-Range` header for the bytes `start..end` of a file of `total` bytes.
pub fn content_range(start: usize, end: usize, total: usize) -> (r: String)
    requires
        start < end,
    ensures
        r@ == spec_content_range(start as nat, end as nat, total as nat),
{
    let mut v: Vec<char> = Vec::new();
    push_str(&mut v, "bytes ");
    push_decimal(start, &mut v);
    v.push('-');
    push_decimal(end - 1, &mut v);
    v.push('/');
    push_decimal(total, &mut v);
    assert(v@ =~= spec_content_range(start as nat, end as nat, total as nat));
    string_from_chars(&v)
}

/// `t` reads, after `bytes `, as `first`, `-` at `k1`, `last`, `/` at `k2`
/// and `total`, each number as `u64::from_str` reads it.
pub open spec fn reads_as_range(t: Seq<char>, k1: int, k2: int, first: u64, last: u64, total: u64) -> bool {
    let h = "bytes "@;
    &&& t.subrange(0, h.len() as int) == h
    &&& h.len() < k1 < k2 < t.len()
    &&& t[k1] == '-'
    &&& t[k2] == '/'
    &&& spec_parse_u64(t.subrange(h.len() as int, k1)) == Some(first)
    &&& spec_parse_u64(t.subrange(k1 + 1, k2)) == Some(last)
    &&& spec_parse_u64(t.subrange(k2 + 1, t.len() as int)) == Some(total)
}

/// The `Content-Range` header reads back as the range and the file size:
/// after `bytes `, the first byte `start`, `-`, the last byte `end - 1`, `/`,
/// and the total size, each in decimal.
pub proof fn lemma_content_range_reads_back(start: usize, end: usize, total: usize)
    requires
        start < end,
    ensures
        exists|k1: int, k2: int|
            #[trigger] reads_as_range(
                spec_content_range(start as nat, end as nat, total as nat),
                k1,
                k2,
                start as u64,
                (end - 1) as u64,
                total as u64,
            ),
{
    let t = spec_content_range(start as nat, end as nat, total as nat);
    let h = "bytes "@;
    let a = spec_decimal(start as nat);
    let b = spec_decimal((end - 1) as nat);
    let c = spec_decimal(total as nat);
    lemma_decimal_digits(start as nat);
    lemma_decimal_digits((end - 1) as nat);
    lemma_decimal_digits(total as nat);
    lemma_parse_decimal(start as u64);
    lemma_parse_decimal((end - 1) as u64);
    lemma_parse_decimal(total as u64);
    let k1: int = (h.len() + a.len()) as int;
    let k2: int = k1 + 1 + b.len();
    assert(t =~= h + a + seq!['-'] + b + seq!['/'] + c);
    assert(t.subrange(0, h.len() as int) =~= h);
    assert(t.subrange(h.len() as int, k1) =~= a);
    assert(t.subrange(k1 + 1, k2) =~= b);
    assert(t.subrange(k2 + 1, t.len() as int) =~= c);
    assert(t[k1] == '-');
    assert(t[k2] == '/');
    assert(reads_as_range(t, k1, k2, start as u64, (end - 1) as u64, total as u64));
}

/// The client state, as plain values.
pub struct OneDriveView {
    /// The token for `Authorization: Bearer`.
    pub token: Seq<char>,
    /// The drive that the operations address.
    pub drive: DriveLocationView,
}

/// The authorized client to access OneDrive resources in a specified Drive.
#[derive(Debug)]
pub struct OneDrive {
    token: String,
    drive: DriveLocation,
}

impl View for OneDrive {
    type V = OneDriveView;

    open spec fn view(&self) -> OneDriveView {
        self.spec_view()
    }
}

impl OneDrive {
    /// The token and the drive.
    pub closed spec fn spec_view(&self) -> OneDriveView {
        OneDriveView { token: self.token@, drive: self.drive@ }
    }

    /// Create a new OneDrive instance with token to perform operations in a Drive.
    pub fn new(token: String, drive: DriveLocation) -> (r: Self)
        ensures
            r@ == (OneDriveView { token: token@, drive: drive@ }),
    {
        OneDrive { token, drive }
    }

    /// Get the token used to create the OneDrive instance.
    pub fn token(&self) -> (r: &str)
        ensures
            r@ == self@.token,
    {
        self.token.as_str()
    }

    /// The bearer token of requests to the API.
    fn bearer(&self) -> (r: Option<String>)
        ensures
            r.deep_view() == Some(self@.token),
    {
        Some(self.token.clone())
    }

    /// The URL of the endpoint about `item` in this drive, with `action` after it.
    fn item_url(&self, item: &ItemLocation, action: Option<&str>) -> (r: Option<String>)
        ensures
            r.deep_view() == spec_api_url(
                item_endpoint(
                    self@.drive,
                    item@,
                    match action {
                        Some(a) => seq![a@],
                        None => Seq::empty(),
                    },
                ),
            ),
    {
        let mut segments: Vec<String> = Vec::new();
        self.drive.push_segments(&mut segments);
        item.push_segments(&mut segments);
        if let Some(a) = action {
            push_segment(&mut segments, String::from_str(a));
        }
        assert(segments.deep_view() =~= item_endpoint(
            self@.drive,
            item@,
            match action {
                Some(a) => seq![a@],
                None => Seq::empty(),
            },
        ));
        api_url(&segments)
    }

    /// The request of `get_drive_with_option`: `GET` the drive, with the
    /// option's query and headers.
    pub fn get_drive_request(&self, option: ObjectOption) -> (r: Option<ApiRequest>)
        ensures
            request_view(r) == spec_request(
                Method::Get,
                spec_api_url(drive_segments(self@.drive)),
                Some(self@.token),
                option@.query,
                option@.headers,
                RequestBodyView::Empty,
            ),
    {
        let mut segments: Vec<String> = Vec::new();
        self.drive.push_segments(&mut segments);
        assert(segments.deep_view() =~= drive_segments(self@.drive));
        let url = api_url(&segments);
        let (query, headers) = option.into_parts();
        build_request(Method::Get, url, self.bearer(), query, headers, RequestBody::Empty)
    }

    /// The request of `list_children_with_option`: `GET` the `children` of
    /// `item`, with the option's query and headers.
    pub fn list_children_request(&self, item: &ItemLocation, option: CollectionOption) -> (r: Option<
        ApiRequest,
    >)
        ensures
            request_view(r) == spec_request(
                Method::Get,
                spec_api_url(item_endpoint(self@.drive, item@, seq!["children"@])),
                Some(self@.token),
                option@.query,
                option@.headers,
                RequestBodyView::Empty,
            ),
    {
        let url = self.item_url(item, Some("children"));
        let (query, headers) = option.into_parts();
        build_request(Method::Get, url, self.bearer(), query, headers, RequestBody::Empty)
    }

    /// The request of `get_item_with_option`: `GET` the item, with the
    /// option's query and headers.
    pub fn get_item_request(&self, item: &ItemLocation, option: ObjectOption) -> (r: Option<
        ApiRequest,
    >)
        ensures
            request_view(r) == spec_request(
                Method::Get,
                spec_api_url(item_endpoint(self@.drive, item@, Seq::empty())),
                Some(self@.token),
                option@.query,
                option@.headers,
                RequestBodyView::Empty,
            ),
    {
        let url = self.item_url(item, None);
        let (query, headers) = option.into_parts();
        build_request(Method::Get, url, self.bearer(), query, headers, RequestBody::Empty)
    }

    /// The request of `create_folder_with_option`: `POST` a new folder named
    /// `name` to the `children` of `parent_item`, with the option's query and
    /// headers, and the option's conflict behavior, else `Fail`.
    pub fn create_folder_request(
        &self,
        parent_item: &ItemLocation,
        name: &FileName,
        option: DriveItemPutOption,
    ) -> (r: Option<ApiRequest>)
        ensures
            request_view(r) == spec_request(
                Method::Post,
                spec_api_url(item_endpoint(self@.drive, parent_item@, seq!["children"@])),
                Some(self@.token),
                option@.query,
                option@.headers,
                RequestBodyView::CreateFolder {
                    name: name@,
                    conflict_behavior: spec_conflict_or_fail(option.spec_conflict_behavior()),
                },
            ),
    {
        let url = self.item_url(parent_item, Some("children"));
        let body = RequestBody::CreateFolder {
            name: String::from_str(name.as_str()),
            conflict_behavior: conflict_or_fail(option.get_conflict_behavior()),
        };
        let (query, headers) = option.into_parts();
        build_request(Method::Post, url, self.bearer(), query, headers, body)
    }

    /// The request of `update_item_with_option`: `PATCH` the item with the
    /// caller's patch, with the option's query and headers.
    pub fn update_item_request(&self, item: &ItemLocation, option: ObjectOption) -> (r: Option<
        ApiRequest,
    >)
        ensures
            request_view(r) == spec_request(
                Method::Patch,
                spec_api_url(item_endpoint(self@.drive, item@, Seq::empty())),
                Some(self@.token),
                option@.query,
                option@.headers,
                RequestBodyView::ItemPatch,
            ),
    {
        let url = self.item_url(item, None);
        let (query, headers) = option.into_parts();
        build_request(Method::Patch, url, self.bearer(), query, headers, RequestBody::ItemPatch)
    }

    /// The request of `upload_small`: `PUT` `data` as the `content` of `item`.
    /// Only up to 4 MB (`UPLOAD_SMALL_LIMIT` bytes) of data.
    pub fn upload_small_request(&self, item: &ItemLocation, data: &[u8]) -> (r: Option<ApiRequest>)
        requires
            data@.len() <= UPLOAD_SMALL_LIMIT,
        ensures
            request_view(r) == spec_simple_request(
                Method::Put,
                spec_api_url(item_endpoint(self@.drive, item@, seq!["content"@])),
                Some(self@.token),
                RequestBodyView::Bytes(data@),
            ),
    {
        let url = self.item_url(item, Some("content"));
        let bytes = slice_to_vec(data);
        simple_request(Method::Put, url, self.bearer(), RequestBody::Bytes(bytes))
    }

    /// The request of `new_upload_session_with_option`: `POST` to the
    /// `createUploadSession` of `item`, with the option's query and headers,
    /// and the option's conflict behavior, else `Fail`.
    pub fn new_upload_session_request(&self, item: &ItemLocation, option: DriveItemPutOption) -> (r:
        Option<ApiRequest>)
        ensures
            request_view(r) == spec_request(
                Method::Post,
                spec_api_url(item_endpoint(self@.drive, item@, seq!["createUploadSession"@])),
                Some(self@.token),
                option@.query,
                option@.headers,
                RequestBodyView::NewUploadSession {
                    conflict_behavior: spec_conflict_or_fail(option.spec_conflict_behavior()),
                },
            ),
    {
        let url = self.item_url(item, Some("createUploadSession"));
        let body = RequestBody::NewUploadSession {
            conflict_behavior: conflict_or_fail(option.get_conflict_behavior()),
        };
        let (query, headers) = option.into_parts();
        build_request(Method::Post, url, self.bearer(), query, headers, body)
    }

    /// The request of `get_upload_session`: `GET` the upload URL, without token.
    pub fn get_upload_session_request(&self, upload_url: &str) -> (r: ApiRequest)
        ensures
            Some(r@) == spec_simple_request(
                Method::Get,
                Some(upload_url@),
                None,
                RequestBodyView::Empty,
            ),
    {
        let r = simple_request(Method::Get, Some(String::from_str(upload_url)), None, RequestBody::Empty);
        r.unwrap()
    }

    /// The request of `delete_upload_session`: `DELETE` the session's upload URL,
    /// without token.
    pub fn delete_upload_session_request(&self, sess: &UploadSession) -> (r: ApiRequest)
        ensures
            Some(r@) == spec_simple_request(
                Method::Delete,
                Some(sess@.upload_url),
                None,
                RequestBodyView::Empty,
            ),
    {
        let url = String::from_str(sess.upload_url());
        let r = simple_request(Method::Delete, Some(url), None, RequestBody::Empty);
        r.unwrap()
    }

    /// The request of `upload_to_session`: `PUT` `data` as the bytes
    /// `remote_range` of a file of `total_size` bytes to the session's upload
    /// URL, without token, with header `Content-Range: bytes {start}-{end - 1}/{total_size}`.
    ///
    /// The range must be non-empty, end within the file, and hold exactly
    /// `data`, of at most 60 MiB (`UPLOAD_SESSION_PART_LIMIT` bytes).
    pub fn upload_to_session_request(
        &self,
        session: &UploadSession,
        data: &[u8],
        remote_range: std::ops::Range<usize>,
        total_size: usize,
    ) -> (r: ApiRequest)
        requires
            remote_range.start < remote_range.end <= total_size,
            data@.len() == remote_range.end - remote_range.start,
            data@.len() <= UPLOAD_SESSION_PART_LIMIT,
        ensures
            r@ == (ApiRequestView {
                method: Method::Put,
                url: session@.upload_url,
                bearer_token: None,
                query: Seq::empty(),
                headers: Seq::empty(),
                content_range: Some(
                    spec_content_range(
                        remote_range.start as nat,
                        remote_range.end as nat,
                        total_size as nat,
                    ),
                ),
                body: RequestBodyView::Bytes(data@),
            }),
    {
        let range = content_range(remote_range.start, remote_range.end, total_size);
        let query: Vec<(String, String)> = Vec::new();
        let headers: Vec<(String, String)> = Vec::new();
        let r = ApiRequest {
            method: Method::Put,
            url: String::from_str(session.upload_url()),
            bearer_token: None,
            query,
            headers,
            content_range: Some(range),
            body: RequestBody::Bytes(slice_to_vec(data)),
        };
        assert(r.query.deep_view() =~= Seq::<(Seq<char>, Seq<char>)>::empty());
        assert(r.headers.deep_view() =~= Seq::<(Seq<char>, Seq<char>)>::empty());
        r
    }

    /// The request of `copy`: `POST` to the `copy` of `source_item`, naming
    /// the destination folder by its path and the new name.
    pub fn copy_request(
        &self,
        source_item: &ItemLocation,
        dest_folder: &ItemLocation,
        dest_name: &FileName,
    ) -> (r: Option<ApiRequest>)
        ensures
            request_view(r) == match spec_api_path(dest_folder@) {
                Some(path) => spec_simple_request(
                    Method::Post,
                    spec_api_url(item_endpoint(self@.drive, source_item@, seq!["copy"@])),
                    Some(self@.token),
                    RequestBodyView::Copy { parent_path: path, name: dest_name@ },
                ),
                None => None,
            },
    {
        let url = self.item_url(source_item, Some("copy"));
        let path = match api_path(dest_folder) {
            Some(p) => p,
            None => return None,
        };
        let body = RequestBody::Copy { parent_path: path, name: String::from_str(dest_name.as_str()) };
        simple_request(Method::Post, url, self.bearer(), body)
    }

    /// The request of `move_with_option`: `PATCH` `source_item` with its new
    /// parent (by path), its new name if any, the option's query and headers,
    /// and the option's conflict behavior, else `Fail`.
    pub fn move_request(
        &self,
        source_item: &ItemLocation,
        dest_folder: &ItemLocation,
        dest_name: Option<&FileName>,
        option: DriveItemPutOption,
    ) -> (r: Option<ApiRequest>)
        ensures
            request_view(r) == match spec_api_path(dest_folder@) {
                Some(path) => spec_request(
                    Method::Patch,
                    spec_api_url(item_endpoint(self@.drive, source_item@, Seq::empty())),
                    Some(self@.token),
                    option@.query,
                    option@.headers,
                    RequestBodyView::Move {
                        parent_path: path,
                        name: match dest_name {
                            Some(n) => Some(n@),
                            None => None,
                        },
                        conflict_behavior: spec_conflict_or_fail(option.spec_conflict_behavior()),
                    },
                ),
                None => None,
            },
    {
        let url = self.item_url(source_item, None);
        let path = match api_path(dest_folder) {
            Some(p) => p,
            None => return None,
        };
        let name = match dest_name {
            Some(n) => Some(String::from_str(n.as_str())),
            None => None,
        };
        let body = RequestBody::Move {
            parent_path: path,
            name,
            conflict_behavior: conflict_or_fail(option.get_conflict_behavior()),
        };
        let (query, headers) = option.into_parts();
        build_request(Method::Patch, url, self.bearer(), query, headers, body)
    }

    /// The request of `delete_with_option`: `DELETE` the item, with the
    /// option's query and headers. A conflict behavior is not supported here
    /// and must not be set.
    pub fn delete_request(&self, item: &ItemLocation, option: DriveItemPutOption) -> (r: Option<
        ApiRequest,
    >)
        requires
            option.spec_conflict_behavior() is None,
        ensures
            request_view(r) == spec_request(
                Method::Delete,
                spec_api_url(item_endpoint(self@.drive, item@, Seq::empty())),
                Some(self@.token),
                option@.query,
                option@.headers,
                RequestBodyView::Empty,
            ),
    {
        let url = self.item_url(item, None);
        let (query, headers) = option.into_parts();
        build_request(Method::Delete, url, self.bearer(), query, headers, RequestBody::Empty)
    }

    /// The request of `track_changes_from_initial_with_option`: `GET` the
    /// `delta` of `folder`, with the option's query and headers.
    pub fn track_changes_from_initial_request(
        &self,
        folder: &ItemLocation,
        option: CollectionOption,
    ) -> (r: Option<ApiRequest>)
        ensures
            request_view(r) == spec_request(
                Method::Get,
                spec_api_url(item_endpoint(self@.drive, folder@, seq!["delta"@])),
                Some(self@.token),
                option@.query,
                option@.headers,
                RequestBodyView::Empty,
            ),
    {
        let url = self.item_url(folder, Some("delta"));
        let (query, headers) = option.into_parts();
        build_request(Method::Get, url, self.bearer(), query, headers, RequestBody::Empty)
    }

    /// The request of `track_changes_from_delta_url` (and of fetching the next
    /// page of a collection): `GET` the given URL, with the token.
    pub fn follow_link_request(&self, link: &str) -> (r: ApiRequest)
        ensures
            Some(r@) == spec_simple_request(
                Method::Get,
                Some(link@),
                Some(self@.token),
                RequestBodyView::Empty,
            ),
    {
        let r = simple_request(Method::Get, Some(String::from_str(link)), self.bearer(), RequestBody::Empty);
        r.unwrap()
    }

    /// The request of `get_latest_delta_url`: `GET` the `delta` of `folder`
    /// with the query `token=latest`.
    pub fn get_latest_delta_url_request(&self, folder: &ItemLocation) -> (r: Option<ApiRequest>)
        ensures
            request_view(r) == spec_request(
                Method::Get,
                spec_api_url(item_endpoint(self@.drive, folder@, seq!["delta"@])),
                Some(self@.token),
                seq![("token"@, "latest"@)],
                Seq::empty(),
                RequestBodyView::Empty,
            ),
    {
        let url = self.item_url(folder, Some("delta"));
        let mut query: Vec<(String, String)> = Vec::new();
        query.push((String::from_str("token"), String::from_str("latest")));
        let headers: Vec<(String, String)> = Vec::new();
        assert(query.deep_view() =~= seq![("token"@, "latest"@)]);
        assert(headers.deep_view() =~= Seq::<(Seq<char>, Seq<char>)>::empty());
        build_request(Method::Get, url, self.bearer(), query, headers, RequestBody::Empty)
    }
}

/// Copies a slice of bytes into a vector.
fn slice_to_vec(data: &[u8]) -> (v: Vec<u8>)
    ensures
        v@ == data@,
{
    let mut v: Vec<u8> = Vec::new();
    let mut i: usize = 0;
    while i < data.len()
        invariant
            i <= data@.len(),
            v@ == data@.take(i as int),
        decreases data@.len() - i,
    {
        v.push(data[i]);
        i = i + 1;
        assert(v@ =~= data@.take(i as int));
    }
    assert(data@.take(data@.len() as int) =~= data@);
    v
}

/// An upload session, as plain values.
pub struct UploadSessionView {
    pub upload_url: Seq<char>,
    pub next_expected_ranges: Seq<ExpectRange>,
    pub expiration_date_time: Seq<char>,
}

/// An upload session for resumable file uploading process.
#[derive(Debug)]
pub struct UploadSession {
    upload_url: String,
    next_expected_ranges: Vec<ExpectRange>,
    expiration_date_time: TimestampString,
}

impl View for UploadSession {
    type V = UploadSessionView;

    open spec fn view(&self) -> UploadSessionView {
        self.spec_view()
    }
}

impl UploadSession {
    /// The URL, the missing ranges and the expiry.
    pub closed spec fn spec_view(&self) -> UploadSessionView {
        UploadSessionView {
            upload_url: self.upload_url@,
            next_expected_ranges: self.next_expected_ranges@,
            expiration_date_time: self.expiration_date_time@,
        }
    }

    /// A session at `upload_url`, as the service describes it (the answer of
    /// `get_upload_session` carries no URL: the one asked is kept).
    pub fn new(
        upload_url: String,
        next_expected_ranges: Vec<ExpectRange>,
        expiration_date_time: TimestampString,
    ) -> (r: Self)
        ensures
            r@ == (UploadSessionView {
                upload_url: upload_url@,
                next_expected_ranges: next_expected_ranges@,
                expiration_date_time: expiration_date_time@,
            }),
    {
        UploadSession { upload_url, next_expected_ranges, expiration_date_time }
    }

    /// The URL endpoint accepting PUT requests.
    pub fn upload_url(&self) -> (r: &str)
        ensures
            r@ == self@.upload_url,
    {
        self.upload_url.as_str()
    }

    /// Get a collection of byte ranges that the server is missing for the file.
    pub fn next_expected_ranges(&self) -> (r: &[ExpectRange])
        ensures
            r@ == self@.next_expected_ranges,
    {
        self.next_expected_ranges.as_slice()
    }

    /// Get the date and time in UTC that the upload session will expire.
    pub fn expiration_date_time(&self) -> (r: &TimestampString)
        ensures
            r@ == self@.expiration_date_time,
    {
        &self.expiration_date_time
    }
}

/// The status of a `copy` operation.
#[derive(Clone, Copy, Debug, PartialEq, Eq, Structural)]
pub enum CopyStatus {
    NotStarted,
    InProgress,
    Completed,
    Updating,
    Failed,
    DeletePending,
    DeleteFailed,
    Waiting,
}

/// How an answer of the service is read, by its HTTP status.
#[derive(Clone, Copy, Debug, PartialEq, Eq, Structural)]
pub enum AnswerKind {
    /// There is nothing to read: `304 Not Modified` (the tag given by
    /// `If-None-Match` matches) or `202 Accepted` (a part of an upload was
    /// received, the file is not complete yet).
    Nothing,
    /// The answer is read: a success or a redirection.
    Read,
    /// The service answered with an error.
    Failure,
}

/// How an answer with HTTP status `status` is read, where the operation
/// accepts an answer without body (`may_be_empty`) or not.
pub open spec fn spec_answer_kind(status: u16, may_be_empty: bool) -> AnswerKind {
    if may_be_empty && (status == 304 || status == 202) {
        AnswerKind::Nothing
    } else if 200 <= status < 400 {
        AnswerKind::Read
    } else {
        AnswerKind::Failure
    }
}

/// How an answer with HTTP status `status` is read.
pub fn answer_kind(status: u16, may_be_empty: bool) -> (r: AnswerKind)
    ensures
        r == spec_answer_kind(status, may_be_empty),
{
    if may_be_empty && (status == 304 || status == 202) {
        AnswerKind::Nothing
    } else if 200 <= status && status < 400 {
        AnswerKind::Read
    } else {
        AnswerKind::Failure
    }
}

/// The monitor URL is the `Location` header itself: as long as the header,
/// and its `i`-th character is the one whose code is the header's `i`-th byte.
pub proof fn lemma_monitor_url_is_the_header(b: Seq<u8>)
    ensures
        ascii_chars(b).len() == b.len(),
        forall|i: int| 0 <= i < b.len() ==> (ascii_chars(b)[i] as u32) == (#[trigger] b[i]) as u32,
{
    assert forall|i: int| 0 <= i < b.len() implies (ascii_chars(b)[i] as u32) == (#[trigger] b[i]) as u32 by {
        assert(ascii_chars(b)[i] == ((b[i] as u32) as char));
    }
}

/// A `Location` header reads as a string exactly where it holds no control
/// byte but the tab, and no byte from 127 up.
pub proof fn lemma_visible_ascii(b: u8)
    ensures
        ((b < 32 && b != 9) || b >= 127) ==> !is_visible_ascii(b),
        (32 <= b <= 126 || b == 9) ==> is_visible_ascii(b),
{
}

/// Statuses below 200 and from 400 up are errors; only 200 to 399 are read,
/// and nothing is read only where the operation allows it, for 304 and 202.
pub proof fn lemma_answer_kinds(status: u16, may_be_empty: bool)
    ensures
        (status < 200 || status >= 400) ==> spec_answer_kind(status, may_be_empty) == AnswerKind::Failure,
        spec_answer_kind(status, may_be_empty) == AnswerKind::Read ==> 200 <= status <= 399,
        spec_answer_kind(status, may_be_empty) == AnswerKind::Nothing ==> may_be_empty && (status
            == 304 || status == 202),
        (200 <= status <= 399 && !(status == 304 || status == 202)) ==> spec_answer_kind(
            status,
            may_be_empty,
        ) == AnswerKind::Read,
        !may_be_empty && 200 <= status <= 399 ==> spec_answer_kind(status, may_be_empty)
            == AnswerKind::Read,
        may_be_empty && (status == 304 || status == 202) ==> spec_answer_kind(status, may_be_empty)
            == AnswerKind::Nothing,
{
}

/// The conflict behavior sent is the one set, whichever it is, and `Fail`
/// where none is set.
pub proof fn lemma_conflict_behavior_sent(c: ConflictBehavior)
    ensures
        spec_conflict_or_fail(Some(c)) == c,
        spec_conflict_or_fail(None) == ConflictBehavior::Fail,
{
}

/// An answer of the service that does not hold what the operation needs.
#[derive(Clone, Copy, Debug, PartialEq, Eq, Structural)]
pub enum UnexpectedResponse {
    /// The answer has no body where one was expected.
    EmptyResponse,
    /// The answer of `copy` has no `Location` header.
    MissingLocation,
    /// The `Location` header of the answer of `copy` is not a string.
    InvalidLocation,
    /// The answer asking for the latest delta has no `@odata.deltaLink`.
    MissingLatestDeltaLink,
    /// The last page of a change tracking has no `@odata.deltaLink`.
    MissingLastPageDeltaLink,
}

impl UnexpectedResponse {
    /// The message that describes the error.
    pub fn message(&self) -> (r: &'static str)
        ensures
            r@ == match self {
                UnexpectedResponse::EmptyResponse => "Unexpected empty response"@,
                UnexpectedResponse::MissingLocation =>
                    "Header `Location` not exists in response of `copy`"@,
                UnexpectedResponse::InvalidLocation => "Invalid string header `Location`"@,
                UnexpectedResponse::MissingLatestDeltaLink =>
                    "Missing field `@odata.deltaLink` for getting latest delta"@,
                UnexpectedResponse::MissingLastPageDeltaLink =>
                    "Missing `@odata.deltaLink` for the last page"@,
            },
    {
        match self {
            UnexpectedResponse::EmptyResponse => "Unexpected empty response",
            UnexpectedResponse::MissingLocation =>
                "Header `Location` not exists in response of `copy`",
            UnexpectedResponse::InvalidLocation => "Invalid string header `Location`",
            UnexpectedResponse::MissingLatestDeltaLink =>
                "Missing field `@odata.deltaLink` for getting latest delta",
            UnexpectedResponse::MissingLastPageDeltaLink =>
                "Missing `@odata.deltaLink` for the last page",
        }
    }
}

/// The body of an answer that `list_children_with_option` and `get_item_with_option`
/// must have (the service answers without body where `If-None-Match` matches).
pub fn require_response<T>(response: Option<T>) -> (r: Result<T, UnexpectedResponse>)
    ensures
        match response {
            Some(t) => r == Ok::<T, UnexpectedResponse>(t),
            None => r == Err::<T, UnexpectedResponse>(UnexpectedResponse::EmptyResponse),
        },
{
    match response {
        Some(t) => Ok(t),
        None => Err(UnexpectedResponse::EmptyResponse),
    }
}

/// A byte that a header value may hold for it to read as a string: visible
/// ASCII or a tab.
pub open spec fn is_visible_ascii(b: u8) -> bool {
    (32 <= b && b < 127) || b == 9
}

/// Every byte of `b` is visible ASCII or a tab.
pub open spec fn all_visible_ascii(b: Seq<u8>) -> bool {
    forall|i: int| 0 <= i < b.len() ==> is_visible_ascii(#[trigger] b[i])
}

/// The characters of the bytes `b`, one for one.
pub open spec fn ascii_chars(b: Seq<u8>) -> Seq<char> {
    Seq::new(b.len(), |i: int| (b[i] as u32) as char)
}

/// The URL of the progress monitor of a `copy`, read from the `Location`
/// header of its answer (given by its bytes where there is one): the header
/// reads as a string where every byte is visible ASCII or a tab.
pub fn copy_monitor_url(location: Option<&[u8]>) -> (r: Result<String, UnexpectedResponse>)
    ensures
        match location {
            None => r == Err::<String, UnexpectedResponse>(UnexpectedResponse::MissingLocation),
            Some(b) => if all_visible_ascii(b@) {
                r matches Ok(s) && s@ == ascii_chars(b@)
            } else {
                r == Err::<String, UnexpectedResponse>(UnexpectedResponse::InvalidLocation)
            },
        },
{
    let b = match location {
        Some(b) => b,
        None => return Err(UnexpectedResponse::MissingLocation),
    };
    let mut v: Vec<char> = Vec::new();
    let mut i: usize = 0;
    while i < b.len()
        invariant
            location == Some(b),
            i <= b@.len(),
            forall|j: int| 0 <= j < i ==> is_visible_ascii(#[trigger] b@[j]),
            v@ == ascii_chars(b@.take(i as int)),
        decreases b@.len() - i,
    {
        let x = b[i];
        if !((32 <= x && x < 127) || x == 9) {
            assert(!is_visible_ascii(b@[i as int]));
            assert(!all_visible_ascii(b@));
            return Err(UnexpectedResponse::InvalidLocation);
        }
        v.push(x as char);
        i = i + 1;
        assert(v@ =~= ascii_chars(b@.take(i as int)));
    }
    assert(b@.take(b@.len() as int) =~= b@);
    Ok(string_from_chars(&v))
}

/// One page of a collection of items, as the service answers it: the items
/// (if any), the link to the next page (`@odata.nextLink`) and, on the last
/// page of a change tracking, the delta link (`@odata.deltaLink`).
#[derive(Debug)]
pub struct CollectionPage<T> {
    pub value: Option<Vec<T>>,
    pub next_url: Option<String>,
    pub delta_url: Option<String>,
}

/// A page of a collection, as plain values.
pub struct CollectionPageView<T> {
    pub value: Option<Seq<T>>,
    pub next_url: Option<Seq<char>>,
    pub delta_url: Option<Seq<char>>,
}

impl<T> View for CollectionPage<T> {
    type V = CollectionPageView<T>;

    open spec fn view(&self) -> CollectionPageView<T> {
        CollectionPageView {
            value: match self.value {
                Some(v) => Some(v@),
                None => None,
            },
            next_url: self.next_url.deep_view(),
            delta_url: self.delta_url.deep_view(),
        }
    }
}

impl<T> CollectionPage<T> {
    /// The delta link that `get_latest_delta_url` asks for.
    pub fn into_latest_delta_url(self) -> (r: Result<String, UnexpectedResponse>)
        ensures
            match self@.delta_url {
                Some(d) => r matches Ok(s) && s@ == d,
                None => r == Err::<String, UnexpectedResponse>(
                    UnexpectedResponse::MissingLatestDeltaLink,
                ),
            },
    {
        match self.delta_url {
            Some(d) => Ok(d),
            None => Err(UnexpectedResponse::MissingLatestDeltaLink),
        }
    }
}

/// What fetching the next page calls for.
#[derive(Debug)]
pub enum FetchStep<T> {
    /// The items of a page already at hand.
    Page(Vec<T>),
    /// The page at this link must be fetched (see `OneDrive::follow_link_request`).
    Fetch(String),
    /// There are no more pages.
    End,
}

/// What fetching the next page calls for, as plain values.
pub enum FetchStepView<T> {
    Page(Seq<T>),
    Fetch(Seq<char>),
    End,
}

impl<T> View for FetchStep<T> {
    type V = FetchStepView<T>;

    open spec fn view(&self) -> FetchStepView<T> {
        match self {
            FetchStep::Page(v) => FetchStepView::Page(v@),
            FetchStep::Fetch(u) => FetchStepView::Fetch(u@),
            FetchStep::End => FetchStepView::End,
        }
    }
}

/// The state of a fetcher that starts from a link: nothing at hand, the link to follow.
pub open spec fn spec_resumed<T>(next_url: Seq<char>) -> CollectionPageView<T> {
    CollectionPageView { value: None, next_url: Some(next_url), delta_url: None }
}

/// The link from which fetching can resume: the next link, once the items of
/// the last page have been handed out (the first page has no link to fetch
/// it again, so its items would be lost).
pub open spec fn spec_next_url<T>(last: CollectionPageView<T>) -> Option<Seq<char>> {
    match last.value {
        None => last.next_url,
        Some(_) => None,
    }
}

/// What the next fetch calls for: the items at hand, else the next link,
/// else the end.
pub open spec fn spec_fetch_step<T>(last: CollectionPageView<T>) -> FetchStepView<T> {
    match last.value {
        Some(items) => FetchStepView::Page(items),
        None => match last.next_url {
            Some(u) => FetchStepView::Fetch(u),
            None => FetchStepView::End,
        },
    }
}

/// The state after a fetch step: items handed out are no longer at hand.
pub open spec fn spec_after_step<T>(last: CollectionPageView<T>) -> CollectionPageView<T> {
    CollectionPageView { value: None, ..last }
}

/// The items that a fetched page hands out: its items, or none.
pub open spec fn spec_page_items<T>(page: CollectionPageView<T>) -> Seq<T> {
    match page.value {
        Some(items) => items,
        None => Seq::empty(),
    }
}

/// The page fetcher of a collection of items (the children of a folder, or
/// the changes in a tracking), page after page.
#[derive(Debug)]
pub struct DriveItemFetcher<T> {
    last_response: CollectionPage<T>,
}

impl<T> View for DriveItemFetcher<T> {
    type V = CollectionPageView<T>;

    open spec fn view(&self) -> CollectionPageView<T> {
        self.spec_view()
    }
}

impl<T> DriveItemFetcher<T> {
    /// The last page answered, less the items already handed out.
    pub closed spec fn spec_view(&self) -> CollectionPageView<T> {
        self.last_response@
    }

    /// A fetcher that starts with the first page.
    pub fn new(first_response: CollectionPage<T>) -> (r: Self)
        ensures
            r@ == first_response@,
    {
        DriveItemFetcher { last_response: first_response }
    }

    /// A fetcher that resumes from a link given by `next_url`.
    pub fn resume_from(next_url: String) -> (r: Self)
        ensures
            r@ == spec_resumed::<T>(next_url@),
    {
        DriveItemFetcher {
            last_response: CollectionPage { value: None, next_url: Some(next_url), delta_url: None },
        }
    }

    /// Try to get the url to the next page, to resume fetching later.
    ///
    /// Succeeds only if there are more pages and the items of the last page
    /// have been handed out.
    pub fn next_url(&self) -> (r: Option<&str>)
        ensures
            r.deep_view() == spec_next_url(self@),
    {
        match &self.last_response.value {
            None => match &self.last_response.next_url {
                Some(u) => Some(u.as_str()),
                None => None,
            },
            Some(_) => None,
        }
    }

    /// The delta link of the last page, if it has one.
    pub fn delta_url(&self) -> (r: Option<&str>)
        ensures
            r.deep_view() == self@.delta_url,
    {
        match &self.last_response.delta_url {
            Some(u) => Some(u.as_str()),
            None => None,
        }
    }

    /// The first half of fetching the next page: hands out the items at hand,
    /// or tells which link to fetch, or that there are no more pages.
    pub fn next_step(&mut self) -> (r: FetchStep<T>)
        ensures
            r@ == spec_fetch_step(old(self)@),
            final(self)@ == spec_after_step(old(self)@),
    {
        match self.last_response.value.take() {
            Some(items) => FetchStep::Page(items),
            None => match &self.last_response.next_url {
                Some(u) => FetchStep::Fetch(u.clone()),
                None => FetchStep::End,
            },
        }
    }

    /// The second half of fetching the next page: the page fetched becomes the
    /// last page, and its items (or none) are handed out.
    pub fn receive_page(&mut self, page: CollectionPage<T>) -> (r: Vec<T>)
        ensures
            r@ == spec_page_items(page@),
            final(self)@ == spec_after_step(page@),
    {
        self.last_response = page;
        match self.last_response.value.take() {
            Some(items) => items,
            None => Vec::new(),
        }
    }
}

/// The result of fetching all the pages of a change tracking: the items, and
/// the delta link that the last page must carry.
pub fn finish_tracking<T>(items: Vec<T>, delta_url: Option<String>) -> (r: Result<
    (Vec<T>, String),
    UnexpectedResponse,
>)
    ensures
        match delta_url.deep_view() {
            Some(d) => r matches Ok((v, s)) && v@ == items@ && s@ == d,
            None => r matches Err(e) && e == UnexpectedResponse::MissingLastPageDeltaLink,
        },
{
    match delta_url {
        Some(d) => Ok((items, d)),
        None => Err(UnexpectedResponse::MissingLastPageDeltaLink),
    }
}

/// A fetcher that resumes from a link gives that link back while nothing
/// has been fetched.
pub proof fn lemma_resume_gives_link_back<T>(next_url: Seq<char>)
    ensures
        spec_next_url(spec_resumed::<T>(next_url)) == Some(next_url),
        spec_fetch_step(spec_resumed::<T>(next_url)) == FetchStepView::<T>::Fetch(next_url),
{
}

/// Items at hand are handed out once: the step after hands out no items
/// again, and a page fetched can be resumed from its next link.
pub proof fn lemma_items_handed_out_once<T>(last: CollectionPageView<T>)
    ensures
        spec_after_step(last).value is None,
        spec_next_url(spec_after_step(last)) == last.next_url,
        !(spec_fetch_step(spec_after_step(last)) is Page),
{
}

/// What fetching calls for, in every state: the items at hand first; else
/// the next link; else the end. A step keeps the links and hands out each item once.
pub proof fn lemma_fetch_steps<T>(last: CollectionPageView<T>)
    ensures
        last.value matches Some(items) ==> spec_fetch_step(last) == FetchStepView::<T>::Page(items),
        last.value is None ==> (last.next_url matches Some(u) ==> spec_fetch_step(last)
            == FetchStepView::<T>::Fetch(u)),
        last.value is None && last.next_url is None ==> spec_fetch_step(last)
            == FetchStepView::<T>::End,
        spec_after_step(last).value is None,
        spec_after_step(last).next_url == last.next_url,
        spec_after_step(last).delta_url == last.delta_url,
        last.value matches Some(items) ==> spec_page_items(last) == items,
        last.value is None ==> spec_page_items(last).len() == 0,
{
}

/// While the items of a page are at hand, there is no link to resume from.
pub proof fn lemma_no_resume_with_items_at_hand<T>(last: CollectionPageView<T>)
    requires
        last.value is Some,
    ensures
        spec_next_url(last) is None,
        spec_fetch_step(last) == FetchStepView::<T>::Page(last.value->0),
{
}

/// The monitor for checking the progress of an asynchronous `copy`
/// operation: the URL that it polls.
#[derive(Debug)]
pub struct CopyProgressMonitor {
    url: String,
}

impl View for CopyProgressMonitor {
    type V = Seq<char>;

    open spec fn view(&self) -> Seq<char> {
        self.spec_view()
    }
}

impl CopyProgressMonitor {
    /// The URL of the monitor.
    pub closed spec fn spec_view(&self) -> Seq<char> {
        self.url@
    }

    /// Make a progress monitor using existing `url` (from `url`, or from the
    /// answer of `copy`, see `copy_monitor_url`).
    pub fn from_url(url: String) -> (r: Self)
        ensures
            r@ == url@,
    {
        CopyProgressMonitor { url }
    }

    /// Get the url of this monitor.
    pub fn url(&self) -> (r: &str)
        ensures
            r@ == self@,
    {
        self.url.as_str()
    }

    /// The request of `fetch_progress`: `GET` the monitor URL, without token.
    pub fn progress_request(&self) -> (r: ApiRequest)
        ensures
            Some(r@) == spec_simple_request(Method::Get, Some(self@), None, RequestBodyView::Empty),
    {
        let r = simple_request(Method::Get, Some(String::from_str(self.url.as_str())), None, RequestBody::Empty);
        r.unwrap()
    }
}

/// The items of the pages `pages`, page after page.
pub open spec fn spec_all_items<T>(pages: Seq<CollectionPageView<T>>) -> Seq<T>
    decreases pages.len(),
{
    if pages.len() == 0 {
        Seq::empty()
    } else {
        spec_all_items(pages.drop_last()) + spec_page_items(pages.last())
    }
}

/// The state of the collection of all pages: the items collected so far,
/// and the last page answered (less the items already collected).
pub struct CollectorView<T> {
    pub items: Seq<T>,
    pub last: CollectionPageView<T>,
}

/// The collection right after it starts from the first page of a fetcher.
pub open spec fn spec_collect_start<T>(last: CollectionPageView<T>) -> CollectorView<T> {
    CollectorView { items: Seq::empty(), last }
}

/// The collection after it takes the items at hand.
pub open spec fn spec_collect_next<T>(c: CollectorView<T>) -> CollectorView<T> {
    CollectorView { items: c.items + spec_page_items(c.last), last: spec_after_step(c.last) }
}

/// The collection after it receives a fetched page.
pub open spec fn spec_collect_receive<T>(c: CollectorView<T>, page: CollectionPageView<T>) -> CollectorView<T> {
    CollectorView { items: c.items + spec_page_items(page), last: spec_after_step(page) }
}

/// The collection after it took the items at hand, then for each page of
/// `pages` received it and took the items at hand.
pub open spec fn spec_collect_run<T>(c: CollectorView<T>, pages: Seq<CollectionPageView<T>>) -> CollectorView<T>
    decreases pages.len(),
{
    if pages.len() == 0 {
        spec_collect_next(c)
    } else {
        spec_collect_next(spec_collect_receive(spec_collect_run(c, pages.drop_last()), pages.last()))
    }
}

/// Fetching all pages collects the items of the first page and then of every
/// page fetched, in order; it stops at the last page fetched, whose next link
/// tells whether there are more pages and whose delta link is kept.
pub proof fn lemma_collect_all_pages_in_order<T>(
    first: CollectionPageView<T>,
    pages: Seq<CollectionPageView<T>>,
)
    ensures
        spec_collect_run(spec_collect_start(first), pages).items == spec_all_items(
            seq![first] + pages,
        ),
        spec_collect_run(spec_collect_start(first), pages).last == spec_after_step(
            (seq![first] + pages).last(),
        ),
    decreases pages.len(),
{
    let all = seq![first] + pages;
    if pages.len() == 0 {
        assert(all.drop_last() =~= Seq::<CollectionPageView<T>>::empty());
        assert(spec_all_items(all.drop_last()) =~= Seq::<T>::empty());
        assert(spec_all_items(all) =~= spec_page_items(first));
        assert(spec_collect_run(spec_collect_start(first), pages).items =~= spec_page_items(first));
    } else {
        lemma_collect_all_pages_in_order(first, pages.drop_last());
        assert(all.drop_last() =~= seq![first] + pages.drop_last());
        let before = spec_collect_run(spec_collect_start(first), pages.drop_last());
        let received = spec_collect_receive(before, pages.last());
        assert(spec_page_items(received.last) =~= Seq::<T>::empty());
        assert(spec_collect_run(spec_collect_start(first), pages).items =~= before.items
            + spec_page_items(pages.last()));
    }
}

/// The collection of all the pages of a fetcher, page after page.
#[derive(Debug)]
pub struct PageCollector<T> {
    fetcher: DriveItemFetcher<T>,
    items: Vec<T>,
}

impl<T> View for PageCollector<T> {
    type V = CollectorView<T>;

    open spec fn view(&self) -> CollectorView<T> {
        self.spec_view()
    }
}

impl<T> PageCollector<T> {
    /// The items collected, and the state of the fetcher.
    pub closed spec fn spec_view(&self) -> CollectorView<T> {
        CollectorView { items: self.items@, last: self.fetcher@ }
    }

    /// Starts to collect all the pages of `fetcher`.
    pub fn new(fetcher: DriveItemFetcher<T>) -> (r: Self)
        ensures
            r@ == spec_collect_start(fetcher@),
    {
        PageCollector { fetcher, items: Vec::new() }
    }

    /// Collects the items at hand, and gives the link of the page to fetch
    /// next, or `None` where there are no more pages.
    pub fn next_link(&mut self) -> (r: Option<String>)
        ensures
            final(self)@ == spec_collect_next(old(self)@),
            r.deep_view() == old(self)@.last.next_url,
    {
        match self.fetcher.next_step() {
            FetchStep::Page(mut page) => {
                self.items.append(&mut page);
                match self.fetcher.next_step() {
                    FetchStep::Fetch(u) => Some(u),
                    _ => None,
                }
            },
            FetchStep::Fetch(u) => Some(u),
            FetchStep::End => None,
        }
    }

    /// Collects the items of a page fetched from the last link given.
    pub fn receive(&mut self, page: CollectionPage<T>)
        ensures
            final(self)@ == spec_collect_receive(old(self)@, page@),
    {
        let mut items = self.fetcher.receive_page(page);
        self.items.append(&mut items);
    }

    /// The items collected, and the delta link of the last page, if any.
    pub fn finish(self) -> (r: (Vec<T>, Option<String>))
        ensures
            r.0@ == self@.items,
            r.1.deep_view() == self@.last.delta_url,
    {
        let delta = match self.fetcher.delta_url() {
            Some(d) => Some(String::from_str(d)),
            None => None,
        };
        (self.items, delta)
    }
}

} // verus!
