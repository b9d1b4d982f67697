//! The request of a document operation: method, address, headers and body, as
//! plain values that a session can send.

use crate::error::{ClientError, ErrorView, TransportError, TransportErrorView};
use crate::options::{
    DocumentInsertOptions, DocumentReadOptions, DocumentRemoveOptions, DocumentReplaceOptions,
    DocumentUpdateOptions,
};
use crate::query::pairs_view;
use crate::target::{address, resolve, resolve_with_query, serialization, url_text};
use vstd::prelude::*;
use vstd::string::StringExecFns;

verus! {

/// The HTTP methods of the document operations.
#[derive(Clone, Copy, Debug, PartialEq, Eq, Structural)]
pub enum Method {
    Get,
    Post,
    Put,
    Patch,
    Delete,
}

impl Method {
    /// The method's name on the wire.
    pub open spec fn name(self) -> Seq<char> {
        match self {
            Method::Get => "GET"@,
            Method::Post => "POST"@,
            Method::Put => "PUT"@,
            Method::Patch => "PATCH"@,
            Method::Delete => "DELETE"@,
        }
    }

    /// The method's name on the wire.
    pub fn as_str(&self) -> (name: &'static str)
        ensures
            name@ == self.name(),
    {
        match self {
            Method::Get => "GET",
            Method::Post => "POST",
            Method::Put => "PUT",
            Method::Patch => "PATCH",
            Method::Delete => "DELETE",
        }
    }
}

/// What a session is asked to send.
#[derive(Clone, Debug, PartialEq, Eq)]
pub struct WireRequest {
    pub method: Method,
    /// The address, query included.
    pub url: String,
    /// The headers, name and value, in the order in which they are to be set.
    pub headers: Vec<(String, String)>,
    /// The body; empty where the operation sends none.
    pub body: String,
}

/// A request, as text.
pub ghost struct RequestView {
    pub method: Method,
    pub url: Seq<char>,
    pub headers: Seq<(Seq<char>, Seq<char>)>,
    pub body: Seq<char>,
}

impl View for WireRequest {
    type V = RequestView;

    open spec fn view(&self) -> RequestView {
        RequestView {
            method: self.method,
            url: self.url@,
            headers: pairs_view(self.headers@),
            body: self.body@,
        }
    }
}

/// An optional header, as text.
pub open spec fn header_pair_view(header: Option<(String, String)>) -> Option<
    (Seq<char>, Seq<char>),
> {
    match header {
        Some(h) => Some((h.0@, h.1@)),
        None => None,
    }
}

/// An optional revision, as text.
pub open spec fn revision_view(revision: Option<String>) -> Option<Seq<char>> {
    match revision {
        Some(r) => Some(r@),
        None => None,
    }
}

/// The header that states the condition of a read: `If-Match` or
/// `If-None-Match` with the revision as it was given, or none.
pub open spec fn conditional_header(options: DocumentReadOptions) -> Option<
    (Seq<char>, Seq<char>),
> {
    match options {
        DocumentReadOptions::IfNoneMatch(revision) => Some(("If-None-Match"@, revision@)),
        DocumentReadOptions::IfMatch(revision) => Some(("If-Match"@, revision@)),
        DocumentReadOptions::NoHeader => None,
    }
}

/// The header that holds a write to a revision: `If-Match` with the revision as
/// it was given, or none where no revision was given.
pub open spec fn if_match_header(revision: Option<Seq<char>>) -> Option<(Seq<char>, Seq<char>)> {
    match revision {
        Some(revision) => Some(("If-Match"@, revision)),
        None => None,
    }
}

/// The headers of a request with at most one header.
pub open spec fn headers_with(header: Option<(Seq<char>, Seq<char>)>) -> Seq<
    (Seq<char>, Seq<char>),
> {
    match header {
        Some(h) => seq![h],
        None => seq![],
    }
}

/// The header that states the condition of a read. The revision is handed on as
/// it is: no character of it is changed, quoted or dropped.
pub fn make_header_from_options(document_read_options: DocumentReadOptions) -> (header: Option<
    (String, String),
>)
    ensures
        header_pair_view(header) == conditional_header(document_read_options),
{
    match document_read_options {
        DocumentReadOptions::IfNoneMatch(value) => Some((String::from_str("If-None-Match"), value)),
        DocumentReadOptions::IfMatch(value) => Some((String::from_str("If-Match"), value)),
        DocumentReadOptions::NoHeader => None,
    }
}

/// The header that holds a write to a revision, where one is given.
pub fn make_if_match_header(if_match_header: Option<String>) -> (header: Option<(String, String)>)
    ensures
        header_pair_view(header) == self::if_match_header(revision_view(if_match_header)),
{
    match if_match_header {
        Some(value) => Some((String::from_str("If-Match"), value)),
        None => None,
    }
}

/// The headers of a request with at most one header.
pub fn headers_of(header: Option<(String, String)>) -> (headers: Vec<(String, String)>)
    ensures
        pairs_view(headers@) == headers_with(header_pair_view(header)),
{
    let mut headers: Vec<(String, String)> = Vec::new();
    match header {
        Some(h) => {
            headers.push(h);
        },
        None => {},
    }
    assert(pairs_view(headers@) =~= headers_with(header_pair_view(header)));
    headers
}

/// The request of an insert: `POST` to the collection's document URL, with the
/// options as its query and the payload as its body.
pub open spec fn create_request(
    document_base: Seq<char>,
    body: Seq<char>,
    options: DocumentInsertOptions,
) -> Option<RequestView> {
    match address(document_base, seq![], Some(options.spec_query())) {
        Some(url) => Some(RequestView { method: Method::Post, url, headers: seq![], body }),
        None => None,
    }
}

/// The request of a read: `GET` from the document's URL, with the header of the
/// condition and without a body.
pub open spec fn read_request(
    document_base: Seq<char>,
    key: Seq<char>,
    options: DocumentReadOptions,
) -> Option<RequestView> {
    match address(document_base, key, None) {
        Some(url) => Some(
            RequestView {
                method: Method::Get,
                url,
                headers: headers_with(conditional_header(options)),
                body: seq![],
            },
        ),
        None => None,
    }
}

/// The request of a partial update: `PATCH` to the document's URL, with the
/// options as its query and the patch, nothing else, as its body.
pub open spec fn update_request(
    document_base: Seq<char>,
    key: Seq<char>,
    body: Seq<char>,
    options: DocumentUpdateOptions,
) -> Option<RequestView> {
    match address(document_base, key, Some(options.spec_query())) {
        Some(url) => Some(RequestView { method: Method::Patch, url, headers: seq![], body }),
        None => None,
    }
}

/// The request of a replacement: `PUT` to the document's URL, with the options
/// as its query, the payload as its body, and `If-Match` where a revision is
/// given.
pub open spec fn replace_request(
    document_base: Seq<char>,
    key: Seq<char>,
    body: Seq<char>,
    options: DocumentReplaceOptions,
    revision: Option<Seq<char>>,
) -> Option<RequestView> {
    match address(document_base, key, Some(options.spec_query())) {
        Some(url) => Some(
            RequestView {
                method: Method::Put,
                url,
                headers: headers_with(if_match_header(revision)),
                body,
            },
        ),
        None => None,
    }
}

/// The request of a removal: `DELETE` at the document's URL, with the options as
/// its query, without a body, and with `If-Match` where a revision is given.
pub open spec fn remove_request(
    document_base: Seq<char>,
    key: Seq<char>,
    options: DocumentRemoveOptions,
    revision: Option<Seq<char>>,
) -> Option<RequestView> {
    match address(document_base, key, Some(options.spec_query())) {
        Some(url) => Some(
            RequestView {
                method: Method::Delete,
                url,
                headers: headers_with(if_match_header(revision)),
                body: seq![],
            },
        ),
        None => None,
    }
}

/// The failure of an operation whose request has no address.
pub open spec fn unaddressable() -> ErrorView {
    ErrorView::Transport(TransportErrorView::Unaddressable)
}

/// Whether a request was built as `request` says: it is that request, or, where
/// there is none, the failure of a request without an address.
pub open spec fn built_as(built: Result<WireRequest, ClientError>, request: Option<RequestView>) -> bool {
    match built {
        Ok(built) => request == Some(built@),
        Err(error) => request is None && error@ == unaddressable(),
    }
}

fn addressed(
    method: Method,
    url: Option<url::Url>,
    header: Option<(String, String)>,
    body: String,
) -> (built: Result<WireRequest, ClientError>)
    ensures
        built_as(
            built,
            match url {
                Some(url) => Some(
                    RequestView {
                        method,
                        url: url_text(url),
                        headers: headers_with(header_pair_view(header)),
                        body: body@,
                    },
                ),
                None => None,
            },
        ),
{
    match url {
        Some(url) => Ok(
            WireRequest {
                method,
                url: serialization(&url).to_owned(),
                headers: headers_of(header),
                body,
            },
        ),
        None => Err(ClientError::Transport(TransportError::Unaddressable)),
    }
}

/// The request of an insert of the payload written as `body` into the collection
/// whose documents are under `document_base`.
pub fn create_document_request(
    document_base: &url::Url,
    body: String,
    insert_options: DocumentInsertOptions,
) -> (built: Result<WireRequest, ClientError>)
    ensures
        built_as(built, create_request(url_text(*document_base), body@, insert_options)),
{
    let query = insert_options.to_query();
    let url = resolve_with_query(document_base, "", query.as_str());
    proof {
        reveal_strlit("");
        assert(""@ =~= Seq::<char>::empty());
    }
    addressed(Method::Post, url, None, body)
}

/// The request of a read of the document `_key`.
pub fn read_document_request(
    document_base: &url::Url,
    _key: &str,
    read_options: DocumentReadOptions,
) -> (built: Result<WireRequest, ClientError>)
    ensures
        built_as(built, read_request(url_text(*document_base), _key@, read_options)),
{
    let url = resolve(document_base, _key);
    let header = make_header_from_options(read_options);
    proof {
        reveal_strlit("");
        assert(""@ =~= Seq::<char>::empty());
    }
    addressed(Method::Get, url, header, String::from_str(""))
}

/// The request of a partial update of the document `_key` by the patch written
/// as `body`.
pub fn update_document_request(
    document_base: &url::Url,
    _key: &str,
    body: String,
    update_options: DocumentUpdateOptions,
) -> (built: Result<WireRequest, ClientError>)
    ensures
        built_as(built, update_request(url_text(*document_base), _key@, body@, update_options)),
{
    let query = update_options.to_query();
    let url = resolve_with_query(document_base, _key, query.as_str());
    addressed(Method::Patch, url, None, body)
}

/// The request of a replacement of the document `_key` by the payload written as
/// `body`.
pub fn replace_document_request(
    document_base: &url::Url,
    _key: &str,
    body: String,
    replace_options: DocumentReplaceOptions,
    if_match_header: Option<String>,
) -> (built: Result<WireRequest, ClientError>)
    ensures
        built_as(
            built,
            replace_request(
                url_text(*document_base),
                _key@,
                body@,
                replace_options,
                revision_view(if_match_header),
            ),
        ),
{
    let query = replace_options.to_query();
    let url = resolve_with_query(document_base, _key, query.as_str());
    let header = make_if_match_header(if_match_header);
    addressed(Method::Put, url, header, body)
}

/// The request of a removal of the document `_key`.
pub fn remove_document_request(
    document_base: &url::Url,
    _key: &str,
    remove_options: DocumentRemoveOptions,
    if_match_header: Option<String>,
) -> (built: Result<WireRequest, ClientError>)
    ensures
        built_as(
            built,
            remove_request(
                url_text(*document_base),
                _key@,
                remove_options,
                revision_view(if_match_header),
            ),
        ),
{
    let query = remove_options.to_query();
    let url = resolve_with_query(document_base, _key, query.as_str());
    let header = make_if_match_header(if_match_header);
    proof {
        reveal_strlit("");
        assert(""@ =~= Seq::<char>::empty());
    }
    addressed(Method::Delete, url, header, String::from_str(""))
}

/// The condition of a read is sent as one header that holds the revision as it
/// was given; a read without a condition sends no header.
pub proof fn lemma_condition_is_sent_as_given(
    document_base: Seq<char>,
    key: Seq<char>,
    revision: String,
)
    ensures
        read_request(document_base, key, DocumentReadOptions::IfMatch(revision)) matches Some(
            request,
        ) ==> request.headers == seq![("If-Match"@, revision@)],
        read_request(document_base, key, DocumentReadOptions::IfNoneMatch(revision)) matches Some(
            request,
        ) ==> request.headers == seq![("If-None-Match"@, revision@)],
        read_request(document_base, key, DocumentReadOptions::NoHeader) matches Some(request)
            ==> request.headers == Seq::<(Seq<char>, Seq<char>)>::empty(),
{
}

/// A replacement and a removal send `If-Match` exactly where a revision is given
/// beside the payload, and then with that revision as it was given.
pub proof fn lemma_if_match_is_sent_only_when_given(
    document_base: Seq<char>,
    key: Seq<char>,
    body: Seq<char>,
    replace_options: DocumentReplaceOptions,
    remove_options: DocumentRemoveOptions,
    revision: Option<Seq<char>>,
)
    ensures
        replace_request(document_base, key, body, replace_options, revision) matches Some(request)
            ==> request.headers == match revision {
            Some(revision) => seq![("If-Match"@, revision)],
            None => seq![],
        },
        remove_request(document_base, key, remove_options, revision) matches Some(request)
            ==> request.headers == match revision {
            Some(revision) => seq![("If-Match"@, revision)],
            None => seq![],
        },
{
}

/// What a write sends as its body is the payload and nothing else: the patch of
/// an update, the document of an insert or a replacement. A read and a removal
/// send no body. The options never reach the body, nor the payload the address.
pub proof fn lemma_body_is_the_payload(
    document_base: Seq<char>,
    key: Seq<char>,
    body: Seq<char>,
    insert_options: DocumentInsertOptions,
    update_options: DocumentUpdateOptions,
    replace_options: DocumentReplaceOptions,
    remove_options: DocumentRemoveOptions,
    read_options: DocumentReadOptions,
    revision: Option<Seq<char>>,
)
    ensures
        create_request(document_base, body, insert_options) matches Some(request) ==> request.body
            == body && request.method == Method::Post && Some(request.url) == address(
            document_base,
            seq![],
            Some(insert_options.spec_query()),
        ),
        update_request(document_base, key, body, update_options) matches Some(request)
            ==> request.body == body && request.method == Method::Patch && Some(request.url)
            == address(document_base, key, Some(update_options.spec_query())),
        replace_request(document_base, key, body, replace_options, revision) matches Some(request)
            ==> request.body == body && request.method == Method::Put && Some(request.url)
            == address(document_base, key, Some(replace_options.spec_query())),
        remove_request(document_base, key, remove_options, revision) matches Some(request)
            ==> request.body == Seq::<char>::empty() && request.method == Method::Delete && Some(
            request.url,
        ) == address(document_base, key, Some(remove_options.spec_query())),
        read_request(document_base, key, read_options) matches Some(request) ==> request.body
            == Seq::<char>::empty() && request.method == Method::Get && Some(request.url)
            == address(document_base, key, None),
{
}

} // verus!
