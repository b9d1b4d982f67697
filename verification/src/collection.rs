//! A collection and the operations on its documents. Each operation builds one
//! request, hands it to the session once and reads the answer.

use crate::client::{reply_view, ClientExt};
use crate::document::{
    Document, DocumentHeader, DocumentResponse, DocumentView, HeaderView, ResponseView,
};
use crate::error::{
    ClientError, ErrorView, TransportError, TransportErrorView, NOT_FOUND_STATUS,
    PRECONDITION_FAILED_STATUS,
};
use crate::json::{encode, json_text, json_writable};
use crate::options::{
    DocumentInsertOptions, DocumentReadOptions, DocumentRemoveOptions, DocumentReplaceOptions,
    DocumentUpdateOptions,
};
use crate::request::{
    built_as, create_document_request, create_request, read_document_request, read_request,
    remove_document_request, remove_request, replace_document_request, replace_request,
    revision_view, unaddressable, update_document_request, update_request, RequestView,
    WireRequest,
};
use crate::response::{
    envelope_in_body, header_outcome, interpret_header, interpret_read, interpret_write,
    read_header_view, read_outcome, read_view, write_outcome, write_view, WireResponse,
};
use crate::target::{address, resolve, url_text};
use std::sync::Arc;
use vstd::prelude::*;
use vstd::string::StringExecFns;

verus! {

/// The kind of a collection.
#[derive(Clone, Copy, Debug, PartialEq, Eq, Structural)]
pub enum CollectionType {
    Document,
    Edge,
}

/// A collection of documents, reached through a session.
#[derive(Debug)]
pub struct Collection<C: ClientExt> {
    id: String,
    name: String,
    collection_type: CollectionType,
    base_url: url::Url,
    document_base_url: url::Url,
    session: Arc<C>,
}

/// `Arc::clone`: another handle to the same value.
#[verifier::external_body]
fn share<C>(session: &Arc<C>) -> (shared: Arc<C>)
    ensures
        shared == *session,
{
    Arc::clone(session)
}

/// The path of a collection's own URL under its database.
pub open spec fn collection_path(name: Seq<char>) -> Seq<char> {
    "_api/collection/"@ + name + "/"@
}

/// The path of the URL of a collection's documents under its database.
pub open spec fn document_path(name: Seq<char>) -> Seq<char> {
    "_api/document/"@ + name + "/"@
}

/// The URLs of the collection `name` in the database at `database`: its own and
/// that of its documents, where the name resolves to both.
pub open spec fn urls_of(database: Seq<char>, name: Seq<char>) -> Option<(Seq<char>, Seq<char>)> {
    match (
        address(database, collection_path(name), None),
        address(database, document_path(name), None),
    ) {
        (Some(base), Some(document_base)) => Some((base, document_base)),
        _ => None,
    }
}

/// The URLs of the collection `name` in the database at `database_url`, whose URL
/// ends in `/`: the collection's own and that of its documents.
pub fn collection_urls(database_url: &url::Url, name: &str) -> (urls: Option<(url::Url, url::Url)>)
    ensures
        match urls {
            Some((base, document_base)) => urls_of(url_text(*database_url), name@) == Some(
                (url_text(base), url_text(document_base)),
            ),
            None => urls_of(url_text(*database_url), name@) is None,
        },
{
    let path = String::from_str("_api/collection/").concat(name).concat("/");
    let document_path = String::from_str("_api/document/").concat(name).concat("/");
    match (resolve(database_url, path.as_str()), resolve(database_url, document_path.as_str())) {
        (Some(base), Some(document_base)) => Some((base, document_base)),
        _ => None,
    }
}

/// What a write comes to, given the session's reply.
pub open spec fn write_exchange(
    reply: Result<(u16, Seq<u8>), TransportErrorView>,
    silent: bool,
) -> Result<ResponseView, ErrorView> {
    match reply {
        Ok((status, body)) => write_outcome(status, body, silent),
        Err(error) => Err(ErrorView::Transport(error)),
    }
}

/// What a read comes to, given the session's reply.
pub open spec fn read_exchange(reply: Result<(u16, Seq<u8>), TransportErrorView>) -> Result<
    DocumentView,
    ErrorView,
> {
    match reply {
        Ok((status, body)) => read_outcome(status, body),
        Err(error) => Err(ErrorView::Transport(error)),
    }
}

/// What a read of the header comes to, given the session's reply.
pub open spec fn header_exchange(reply: Result<(u16, Seq<u8>), TransportErrorView>) -> Result<
    HeaderView,
    ErrorView,
> {
    match reply {
        Ok((status, body)) => header_outcome(status, body),
        Err(error) => Err(ErrorView::Transport(error)),
    }
}

/// The result of a write, from the session's reply. A failure of the session is
/// handed on as it is.
pub fn settle_write(reply: Result<WireResponse, TransportError>, silent: bool) -> (result: Result<
    DocumentResponse<serde_json::Value>,
    ClientError,
>)
    ensures
        write_view(result) == write_exchange(reply_view(reply), silent),
{
    match reply {
        Ok(response) => interpret_write(response.status, response.body.as_slice(), silent),
        Err(error) => Err(ClientError::Transport(error)),
    }
}

/// The result of a read, from the session's reply. A failure of the session is
/// handed on as it is.
pub fn settle_read(reply: Result<WireResponse, TransportError>) -> (result: Result<
    Document<serde_json::Value>,
    ClientError,
>)
    ensures
        read_view(result) == read_exchange(reply_view(reply)),
{
    match reply {
        Ok(response) => interpret_read(response.status, response.body.as_slice()),
        Err(error) => Err(ClientError::Transport(error)),
    }
}

/// The result of a read of the header, from the session's reply. A failure of
/// the session is handed on as it is.
pub fn settle_header(reply: Result<WireResponse, TransportError>) -> (result: Result<
    DocumentHeader,
    ClientError,
>)
    ensures
        read_header_view(result) == header_exchange(reply_view(reply)),
{
    match reply {
        Ok(response) => interpret_header(response.status, response.body.as_slice()),
        Err(error) => Err(ClientError::Transport(error)),
    }
}

impl<C: ClientExt> Collection<C> {
    /// The name.
    pub closed spec fn spec_name(&self) -> Seq<char> {
        self.name@
    }

    /// The identifier.
    pub closed spec fn spec_id(&self) -> Seq<char> {
        self.id@
    }

    /// The kind.
    pub closed spec fn spec_collection_type(&self) -> CollectionType {
        self.collection_type
    }

    /// The serialization of the collection's own URL.
    pub closed spec fn base(&self) -> Seq<char> {
        url_text(self.base_url)
    }

    /// The serialization of the URL under which the documents are.
    pub closed spec fn document_base(&self) -> Seq<char> {
        url_text(self.document_base_url)
    }

    /// The session.
    pub closed spec fn spec_session(&self) -> C {
        *self.session
    }

    /// Whether `result` is what a write comes to when `request` is handed to the
    /// session: without an address nothing is sent; else the session gave some
    /// reply to this very request, and the result is read from it.
    pub open spec fn write_settled(
        &self,
        request: Option<RequestView>,
        silent: bool,
        result: Result<ResponseView, ErrorView>,
    ) -> bool {
        match request {
            Some(request) => exists|reply: Result<(u16, Seq<u8>), TransportErrorView>|
                #[trigger] self.spec_session().answers(request, reply) && result == write_exchange(
                    reply,
                    silent,
                ),
            None => result == Err::<ResponseView, ErrorView>(unaddressable()),
        }
    }

    /// Whether `result` is what a write of the payload with text `payload` comes
    /// to: where the payload cannot be written as JSON the write fails before
    /// anything is sent; else it is what `request` comes to.
    pub open spec fn payload_write_settled(
        &self,
        payload: Seq<char>,
        request: Option<RequestView>,
        silent: bool,
        result: Result<ResponseView, ErrorView>,
    ) -> bool {
        if json_writable(payload) {
            self.write_settled(request, silent, result)
        } else {
            result == Err::<ResponseView, ErrorView>(ErrorView::Serialization)
        }
    }

    /// Whether `result` is what a read comes to when `request` is handed to the
    /// session.
    pub open spec fn read_settled(
        &self,
        request: Option<RequestView>,
        result: Result<DocumentView, ErrorView>,
    ) -> bool {
        match request {
            Some(request) => exists|reply: Result<(u16, Seq<u8>), TransportErrorView>|
                #[trigger] self.spec_session().answers(request, reply) && result == read_exchange(
                    reply,
                ),
            None => result == Err::<DocumentView, ErrorView>(unaddressable()),
        }
    }

    /// Whether `result` is what a read of the header comes to when `request` is
    /// handed to the session.
    pub open spec fn header_read_settled(
        &self,
        request: Option<RequestView>,
        result: Result<HeaderView, ErrorView>,
    ) -> bool {
        match request {
            Some(request) => exists|reply: Result<(u16, Seq<u8>), TransportErrorView>|
                #[trigger] self.spec_session().answers(request, reply) && result
                    == header_exchange(reply),
            None => result == Err::<HeaderView, ErrorView>(unaddressable()),
        }
    }

    /// The collection `name` of the database at `database_url`, whose URL ends in
    /// `/`. It fails where the name does not resolve against that URL.
    pub fn new(
        session: Arc<C>,
        database_url: &url::Url,
        name: &str,
        id: &str,
        collection_type: CollectionType,
    ) -> (made: Result<Self, ClientError>)
        ensures
            match urls_of(url_text(*database_url), name@) {
                Some((base, document_base)) => made matches Ok(collection) && collection.base()
                    == base && collection.document_base() == document_base
                    && collection.spec_name() == name@ && collection.spec_id() == id@
                    && collection.spec_collection_type() == collection_type
                    && collection.spec_session() == *session,
                None => made matches Err(error) && error@ == unaddressable(),
            },
    {
        match collection_urls(database_url, name) {
            Some((base_url, document_base_url)) => Ok(
                Collection {
                    id: id.to_owned(),
                    name: name.to_owned(),
                    collection_type,
                    base_url,
                    document_base_url,
                    session,
                },
            ),
            None => Err(ClientError::Transport(TransportError::Unaddressable)),
        }
    }

    /// The kind.
    pub fn collection_type(&self) -> (kind: &CollectionType)
        ensures
            *kind == self.spec_collection_type(),
    {
        &self.collection_type
    }

    /// The identifier.
    pub fn id(&self) -> (id: &str)
        ensures
            id@ == self.spec_id(),
    {
        self.id.as_str()
    }

    /// The name.
    pub fn name(&self) -> (name: &str)
        ensures
            name@ == self.spec_name(),
    {
        self.name.as_str()
    }

    /// The collection's own URL.
    pub fn url(&self) -> (url: &url::Url)
        ensures
            url_text(*url) == self.base(),
    {
        &self.base_url
    }

    /// The URL under which the collection's documents are.
    pub fn document_url(&self) -> (url: &url::Url)
        ensures
            url_text(*url) == self.document_base(),
    {
        &self.document_base_url
    }

    /// Another handle to the session.
    pub fn session(&self) -> (session: Arc<C>)
        ensures
            *session == self.spec_session(),
    {
        share(&self.session)
    }

    fn exchange_write(&self, built: Result<WireRequest, ClientError>, silent: bool) -> (result:
        Result<DocumentResponse<serde_json::Value>, ClientError>)
        ensures
            forall|request: Option<RequestView>|
                built_as(built, request) ==> self.write_settled(request, silent, write_view(result)),
    {
        match built {
            Ok(request) => {
                let ghost sent = request@;
                let reply = self.session.request(request);
                assert(self.spec_session().answers(sent, reply_view(reply)));
                settle_write(reply, silent)
            },
            Err(error) => Err(error),
        }
    }

    fn exchange_read(&self, built: Result<WireRequest, ClientError>) -> (reply: Result<
        Result<WireResponse, TransportError>,
        ClientError,
    >)
        ensures
            forall|request: Option<RequestView>|
                built_as(built, request) ==> match reply {
                    Ok(reply) => request matches Some(request) && self.spec_session().answers(
                        request,
                        reply_view(reply),
                    ),
                    Err(error) => request is None && error@ == unaddressable(),
                },
    {
        match built {
            Ok(request) => Ok(self.session.request(request)),
            Err(error) => Err(error),
        }
    }

    /// Inserts `doc`: one `POST` with the options as the query and the payload as
    /// the body. Where the payload cannot be written as JSON, nothing is sent.
    pub fn create_document(&self, doc: serde_json::Value, insert_options: DocumentInsertOptions) -> (result:
        Result<DocumentResponse<serde_json::Value>, ClientError>)
        ensures
            self.payload_write_settled(
                json_text(doc),
                create_request(self.document_base(), json_text(doc), insert_options),
                insert_options.silent,
                write_view(result),
            ),
    {
        match encode(&doc) {
            Ok(body) => {
                let built = create_document_request(&self.document_base_url, body, insert_options);
                self.exchange_write(built, insert_options.silent)
            },
            Err(_) => Err(ClientError::Serialization),
        }
    }

    /// Reads the document `_key`, whatever its revision.
    pub fn read_document(&self, _key: &str) -> (result: Result<
        Document<serde_json::Value>,
        ClientError,
    >)
        ensures
            self.read_settled(
                read_request(self.document_base(), _key@, DocumentReadOptions::NoHeader),
                read_view(result),
            ),
    {
        self.read_document_with_options(_key, Default::default())
    }

    /// Reads the document `_key` under the condition of `read_options`: one `GET`
    /// with the condition as a header.
    pub fn read_document_with_options(&self, _key: &str, read_options: DocumentReadOptions) -> (result:
        Result<Document<serde_json::Value>, ClientError>)
        ensures
            self.read_settled(read_request(self.document_base(), _key@, read_options), read_view(result)),
    {
        let built = read_document_request(&self.document_base_url, _key, read_options);
        match self.exchange_read(built) {
            Ok(reply) => settle_read(reply),
            Err(error) => Err(error),
        }
    }

    /// Reads the system attributes of the document `_key`, whatever its revision.
    pub fn read_document_header(&self, _key: &str) -> (result: Result<DocumentHeader, ClientError>)
        ensures
            self.header_read_settled(
                read_request(self.document_base(), _key@, DocumentReadOptions::NoHeader),
                read_header_view(result),
            ),
    {
        self.read_document_header_with_options(_key, Default::default())
    }

    /// Reads the system attributes of the document `_key` under the condition of
    /// `read_options`. The request is that of a read of the document; of the
    /// answer only the attributes are kept.
    pub fn read_document_header_with_options(
        &self,
        _key: &str,
        read_options: DocumentReadOptions,
    ) -> (result: Result<DocumentHeader, ClientError>)
        ensures
            self.header_read_settled(
                read_request(self.document_base(), _key@, read_options),
                read_header_view(result),
            ),
    {
        let built = read_document_request(&self.document_base_url, _key, read_options);
        match self.exchange_read(built) {
            Ok(reply) => settle_header(reply),
            Err(error) => Err(error),
        }
    }

    /// Updates the document `_key` by the patch `doc`: one `PATCH` whose body is
    /// the patch and nothing else. Where the patch cannot be written as JSON,
    /// nothing is sent.
    pub fn update_document(
        &self,
        _key: &str,
        doc: serde_json::Value,
        update_options: DocumentUpdateOptions,
    ) -> (result: Result<DocumentResponse<serde_json::Value>, ClientError>)
        ensures
            self.payload_write_settled(
                json_text(doc),
                update_request(self.document_base(), _key@, json_text(doc), update_options),
                update_options.silent,
                write_view(result),
            ),
    {
        match encode(&doc) {
            Ok(body) => {
                let built = update_document_request(
                    &self.document_base_url,
                    _key,
                    body,
                    update_options,
                );
                self.exchange_write(built, update_options.silent)
            },
            Err(_) => Err(ClientError::Serialization),
        }
    }

    /// Replaces the document `_key` by `doc`: one `PUT`. A revision in
    /// `if_match_header` is sent as `If-Match`, whatever `_rev` the payload
    /// holds: where both are there, the server goes by the header. Where the
    /// payload cannot be written as JSON, nothing is sent.
    pub fn replace_document(
        &self,
        _key: &str,
        doc: serde_json::Value,
        replace_options: DocumentReplaceOptions,
        if_match_header: Option<String>,
    ) -> (result: Result<DocumentResponse<serde_json::Value>, ClientError>)
        ensures
            self.payload_write_settled(
                json_text(doc),
                replace_request(
                    self.document_base(),
                    _key@,
                    json_text(doc),
                    replace_options,
                    revision_view(if_match_header),
                ),
                replace_options.silent,
                write_view(result),
            ),
    {
        match encode(&doc) {
            Ok(body) => {
                let built = replace_document_request(
                    &self.document_base_url,
                    _key,
                    body,
                    replace_options,
                    if_match_header,
                );
                self.exchange_write(built, replace_options.silent)
            },
            Err(_) => Err(ClientError::Serialization),
        }
    }

    /// Removes the document `_key`: one `DELETE` without a body. A revision in
    /// `if_match_header` is sent as `If-Match`.
    pub fn remove_document(
        &self,
        _key: &str,
        remove_options: DocumentRemoveOptions,
        if_match_header: Option<String>,
    ) -> (result: Result<DocumentResponse<serde_json::Value>, ClientError>)
        ensures
            self.write_settled(
                remove_request(
                    self.document_base(),
                    _key@,
                    remove_options,
                    revision_view(if_match_header),
                ),
                remove_options.silent,
                write_view(result),
            ),
    {
        let built = remove_document_request(
            &self.document_base_url,
            _key,
            remove_options,
            if_match_header,
        );
        self.exchange_write(built, remove_options.silent)
    }
}

/// Whatever else the options of a write ask for, where they ask for silence the
/// operation shows nothing: if it succeeds, its answer is the silent one.
pub proof fn lemma_silent_operation_shows_nothing<C: ClientExt>(
    collection: Collection<C>,
    request: Option<RequestView>,
    result: Result<DocumentResponse<serde_json::Value>, ClientError>,
)
    requires
        collection.write_settled(request, true, write_view(result)),
    ensures
        result matches Ok(response) ==> response is Silent && response.shown_header() is None
            && response.shown_old() is None && response.shown_new() is None,
{
}

/// An operation hands a failure of the session on as a transport failure: it is
/// never taken for an answer of the server.
pub proof fn lemma_transport_failure_is_kept(error: TransportErrorView, silent: bool)
    ensures
        write_exchange(Err(error), silent) == Err::<ResponseView, ErrorView>(
            ErrorView::Transport(error),
        ),
        read_exchange(Err(error)) == Err::<DocumentView, ErrorView>(ErrorView::Transport(error)),
        header_exchange(Err(error)) == Err::<HeaderView, ErrorView>(ErrorView::Transport(error)),
{
}

/// Whether the session can answer `request` only with `status` and a body that
/// holds the server's envelope.
pub open spec fn refuses<C: ClientExt>(session: C, request: RequestView, status: u16) -> bool {
    forall|reply: Result<(u16, Seq<u8>), TransportErrorView>| #[trigger]
        session.answers(request, reply) ==> (reply matches Ok((answered, body)) && answered
            == status && envelope_in_body(body) is Some)
}

/// The failure that a refusal with 404 or 412 stands for.
pub open spec fn refusal(status: u16) -> ErrorView {
    if status == NOT_FOUND_STATUS {
        ErrorView::NotFound
    } else {
        ErrorView::PreconditionFailed
    }
}

/// Where the server refuses a request with 404 and its envelope, the operation
/// fails with `NotFound`; where it refuses with 412, with `PreconditionFailed`.
/// So fails a removal of a document that was removed before, and a read or a
/// write that is held to a revision which the document does not have.
pub proof fn lemma_refusal_is_told_apart<C: ClientExt>(
    collection: Collection<C>,
    request: RequestView,
    status: u16,
    silent: bool,
    written: Result<ResponseView, ErrorView>,
    read: Result<DocumentView, ErrorView>,
    header: Result<HeaderView, ErrorView>,
)
    requires
        refuses(collection.spec_session(), request, status),
        status == NOT_FOUND_STATUS || status == PRECONDITION_FAILED_STATUS,
    ensures
        collection.write_settled(Some(request), silent, written) ==> written == Err::<
            ResponseView,
            ErrorView,
        >(refusal(status)),
        collection.read_settled(Some(request), read) ==> read == Err::<DocumentView, ErrorView>(
            refusal(status),
        ),
        collection.header_read_settled(Some(request), header) ==> header == Err::<
            HeaderView,
            ErrorView,
        >(refusal(status)),
{
}

} // verus!
