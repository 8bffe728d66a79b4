//! The HTTP requests that the client sends, described as plain values.
use vstd::prelude::*;

use crate::ConflictBehavior;

verus! {

/// The HTTP method of a request.
#[derive(Clone, Copy, Debug, PartialEq, Eq, Structural)]
pub enum Method {
    /// `GET`
    Get,
    /// `POST`
    Post,
    /// `PUT`
    Put,
    /// `PATCH`
    Patch,
    /// `DELETE`
    Delete,
}

/// The body of a request.
#[derive(Debug)]
pub enum RequestBody {
    /// No body.
    Empty,
    /// Raw bytes (file content).
    Bytes(Vec<u8>),
    /// The JSON object `{"name": name, "folder": {},
    /// "@microsoft.graph.conflictBehavior": conflict_behavior}`.
    CreateFolder { name: String, conflict_behavior: ConflictBehavior },
    /// The JSON object `{"item": {"@microsoft.graph.conflictBehavior": conflict_behavior}}`.
    NewUploadSession { conflict_behavior: ConflictBehavior },
    /// The JSON object `{"parentReference": {"path": parent_path}, "name": name}`.
    Copy { parent_path: String, name: String },
    /// The JSON object `{"parentReference": {"path": parent_path}, "name": name,
    /// "@microsoft.graph.conflictBehavior": conflict_behavior}`, where a missing
    /// name is `null`.
    Move { parent_path: String, name: Option<String>, conflict_behavior: ConflictBehavior },
    /// The JSON of the `DriveItem` patch that the caller holds.
    ItemPatch,
}

/// The body of a request, as plain values.
pub enum RequestBodyView {
    Empty,
    Bytes(Seq<u8>),
    CreateFolder { name: Seq<char>, conflict_behavior: ConflictBehavior },
    NewUploadSession { conflict_behavior: ConflictBehavior },
    Copy { parent_path: Seq<char>, name: Seq<char> },
    Move { parent_path: Seq<char>, name: Option<Seq<char>>, conflict_behavior: ConflictBehavior },
    ItemPatch,
}

impl View for RequestBody {
    type V = RequestBodyView;

    open spec fn view(&self) -> RequestBodyView {
        match self {
            RequestBody::Empty => RequestBodyView::Empty,
            RequestBody::Bytes(b) => RequestBodyView::Bytes(b@),
            RequestBody::CreateFolder { name, conflict_behavior } => RequestBodyView::CreateFolder {
                name: name@,
                conflict_behavior: *conflict_behavior,
            },
            RequestBody::NewUploadSession { conflict_behavior } => RequestBodyView::NewUploadSession {
                conflict_behavior: *conflict_behavior,
            },
            RequestBody::Copy { parent_path, name } => RequestBodyView::Copy {
                parent_path: parent_path@,
                name: name@,
            },
            RequestBody::Move { parent_path, name, conflict_behavior } => RequestBodyView::Move {
                parent_path: parent_path@,
                name: name.deep_view(),
                conflict_behavior: *conflict_behavior,
            },
            RequestBody::ItemPatch => RequestBodyView::ItemPatch,
        }
    }
}

/// A request to send.
#[derive(Debug)]
pub struct ApiRequest {
    /// The HTTP method.
    pub method: Method,
    /// The absolute URL.
    pub url: String,
    /// The token for `Authorization: Bearer`, where the request carries one.
    pub bearer_token: Option<String>,
    /// Query parameters to add to the URL, in order.
    pub query: Vec<(String, String)>,
    /// Headers (name, value) to add, in order, such as `If-Match`.
    pub headers: Vec<(String, String)>,
    /// The value of the `Content-Range` header, where the request has one.
    pub content_range: Option<String>,
    /// The body.
    pub body: RequestBody,
}

/// A request, as plain values.
pub struct ApiRequestView {
    pub method: Method,
    pub url: Seq<char>,
    pub bearer_token: Option<Seq<char>>,
    pub query: Seq<(Seq<char>, Seq<char>)>,
    pub headers: Seq<(Seq<char>, Seq<char>)>,
    pub content_range: Option<Seq<char>>,
    pub body: RequestBodyView,
}

impl View for ApiRequest {
    type V = ApiRequestView;

    open spec fn view(&self) -> ApiRequestView {
        ApiRequestView {
            method: self.method,
            url: self.url@,
            bearer_token: self.bearer_token.deep_view(),
            query: self.query.deep_view(),
            headers: self.headers.deep_view(),
            content_range: self.content_range.deep_view(),
            body: self.body@,
        }
    }
}

/// An optional request, as plain values.
pub open spec fn request_view(r: Option<ApiRequest>) -> Option<ApiRequestView> {
    match r {
        Some(q) => Some(q@),
        None => None,
    }
}

/// A request with the given query and headers and no `Content-Range`, to
/// `url` where there is one.
pub open spec fn spec_request(
    method: Method,
    url: Option<Seq<char>>,
    bearer_token: Option<Seq<char>>,
    query: Seq<(Seq<char>, Seq<char>)>,
    headers: Seq<(Seq<char>, Seq<char>)>,
    body: RequestBodyView,
) -> Option<ApiRequestView> {
    match url {
        Some(u) => Some(
            ApiRequestView { method, url: u, bearer_token, query, headers, content_range: None, body },
        ),
        None => None,
    }
}

/// A request with neither query, headers nor `Content-Range`, to `url` where there is one.
pub open spec fn spec_simple_request(
    method: Method,
    url: Option<Seq<char>>,
    bearer_token: Option<Seq<char>>,
    body: RequestBodyView,
) -> Option<ApiRequestView> {
    spec_request(method, url, bearer_token, Seq::empty(), Seq::empty(), body)
}

/// A request is built exactly where there is a URL, and it carries what it is
/// given: the method, the URL, the bearer token (whatever the method), the
/// query and the headers in order, the body, and no `Content-Range`.
pub proof fn lemma_request_carries_what_it_is_given(
    method: Method,
    url: Option<Seq<char>>,
    bearer_token: Option<Seq<char>>,
    query: Seq<(Seq<char>, Seq<char>)>,
    headers: Seq<(Seq<char>, Seq<char>)>,
    body: RequestBodyView,
)
    ensures
        spec_request(method, url, bearer_token, query, headers, body) is Some <==> url is Some,
        spec_request(method, url, bearer_token, query, headers, body) matches Some(r) ==> {
            &&& r.method == method
            &&& Some(r.url) == url
            &&& r.bearer_token == bearer_token
            &&& r.query == query
            &&& r.headers == headers
            &&& r.content_range is None
            &&& r.body == body
        },
        spec_simple_request(method, url, bearer_token, body) matches Some(r) ==> {
            &&& r.method == method
            &&& Some(r.url) == url
            &&& r.bearer_token == bearer_token
            &&& r.query.len() == 0
            &&& r.headers.len() == 0
            &&& r.content_range is None
            &&& r.body == body
        },
        spec_simple_request(method, url, bearer_token, body) is Some <==> url is Some,
{
}

/// Builds a request with the given query and headers and no `Content-Range`.
pub fn build_request(
    method: Method,
    url: Option<String>,
    bearer_token: Option<String>,
    query: Vec<(String, String)>,
    headers: Vec<(String, String)>,
    body: RequestBody,
) -> (r: Option<ApiRequest>)
    ensures
        request_view(r) == spec_request(
            method,
            url.deep_view(),
            bearer_token.deep_view(),
            query.deep_view(),
            headers.deep_view(),
            body@,
        ),
{
    match url {
        Some(u) => Some(
            ApiRequest { method, url: u, bearer_token, query, headers, content_range: None, body },
        ),
        None => None,
    }
}

/// Builds a request with neither query, headers nor `Content-Range`.
pub fn simple_request(
    method: Method,
    url: Option<String>,
    bearer_token: Option<String>,
    body: RequestBody,
) -> (r: Option<ApiRequest>)
    ensures
        request_view(r) == spec_simple_request(
            method,
            url.deep_view(),
            bearer_token.deep_view(),
            body@,
        ),
{
    let query: Vec<(String, String)> = Vec::new();
    let headers: Vec<(String, String)> = Vec::new();
    assert(query.deep_view() =~= Seq::<(Seq<char>, Seq<char>)>::empty());
    assert(headers.deep_view() =~= Seq::<(Seq<char>, Seq<char>)>::empty());
    build_request(method, url, bearer_token, query, headers, body)
}

} // verus!
