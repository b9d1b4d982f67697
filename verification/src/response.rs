//! Reading the server's answer: from a status and a body to a document, a
//! header, the answer to a write, or a failure.
//!
//! A status of 400 or more is a failure, and its body holds the server's
//! envelope. Below that, a silent write is done without a look at the body; any
//! other answer is read from the JSON object in the body.

use crate::document::{
    document_view, header_view, Document, DocumentHeader, DocumentResponse, DocumentView,
    HeaderView, ResponseView, VerboseResponse, VerboseView,
};
use crate::error::{
    classify_failure, envelope_view, failure_of, ClientError, EnvelopeView, ErrorEnvelope,
    ErrorView, FAILURE_STATUS, NOT_FOUND_STATUS, PRECONDITION_FAILED_STATUS,
};
use crate::json::{
    json_is_object, json_member, json_parsed, json_string, json_text, json_unsigned, member,
    parse,
};
use vstd::prelude::*;

verus! {

/// What a session hands back: the status and the body as it came.
#[derive(Clone, Debug, PartialEq, Eq)]
pub struct WireResponse {
    pub status: u16,
    pub body: Vec<u8>,
}

/// The string under `key` in the object with text `object`, if there is one.
pub open spec fn string_member(object: Seq<char>, key: Seq<char>) -> Option<Seq<char>> {
    match json_member(object, key) {
        Some(value) => json_string(value),
        None => None,
    }
}

/// The unsigned number under `key` in the object with text `object`, if there is
/// one.
pub open spec fn unsigned_member(object: Seq<char>, key: Seq<char>) -> Option<u64> {
    match json_member(object, key) {
        Some(value) => json_unsigned(value),
        None => None,
    }
}

/// The header that the object with text `object` holds: `_id`, `_key` and
/// `_rev`, where all three are strings.
pub open spec fn header_in(object: Seq<char>) -> Option<HeaderView> {
    match (
        string_member(object, "_id"@),
        string_member(object, "_key"@),
        string_member(object, "_rev"@),
    ) {
        (Some(id), Some(key), Some(rev)) => Some(HeaderView { id, key, rev }),
        _ => None,
    }
}

/// The system attribute under `key` in the object with text `object`: empty
/// where the object holds no such string.
pub open spec fn attribute_in(object: Seq<char>, key: Seq<char>) -> Seq<char> {
    match string_member(object, key) {
        Some(value) => value,
        None => seq![],
    }
}

/// The object with text `object`, as a document: the object is the payload, and
/// the system attributes are those that it holds.
pub open spec fn document_in(object: Seq<char>) -> DocumentView {
    DocumentView {
        header: HeaderView {
            id: attribute_in(object, "_id"@),
            key: attribute_in(object, "_key"@),
            rev: attribute_in(object, "_rev"@),
        },
        document: object,
    }
}

/// The document under `key` in the object with text `object`: there is one where
/// the member is an object.
pub open spec fn snapshot_in(object: Seq<char>, key: Seq<char>) -> Option<DocumentView> {
    match json_member(object, key) {
        Some(value) => if json_is_object(value) {
            Some(document_in(value))
        } else {
            None
        },
        None => None,
    }
}

/// What the object with text `object` tells of a write.
pub open spec fn verbose_in(object: Seq<char>) -> VerboseView {
    VerboseView {
        header: header_in(object),
        old: snapshot_in(object, "old"@),
        new: snapshot_in(object, "new"@),
    }
}

/// The envelope that the object with text `object` holds: `errorNum`,
/// `errorMessage` and `code`, where the first and the last are unsigned numbers,
/// the last no more than a status can be, and the message is a string.
pub open spec fn envelope_in(object: Seq<char>) -> Option<EnvelopeView> {
    match (
        unsigned_member(object, "errorNum"@),
        string_member(object, "errorMessage"@),
        unsigned_member(object, "code"@),
    ) {
        (Some(error_num), Some(error_message), Some(code)) => if code <= u16::MAX {
            Some(EnvelopeView { error_num, error_message, code: code as u16 })
        } else {
            None
        },
        _ => None,
    }
}

/// The envelope in a body, if the body is JSON and holds one.
pub open spec fn envelope_in_body(body: Seq<u8>) -> Option<EnvelopeView> {
    match json_parsed(body) {
        Some(object) => envelope_in(object),
        None => None,
    }
}

/// The JSON object in a body, if the body is one.
pub open spec fn object_in_body(body: Seq<u8>) -> Option<Seq<char>> {
    match json_parsed(body) {
        Some(object) => if json_is_object(object) {
            Some(object)
        } else {
            None
        },
        None => None,
    }
}

/// The answer to a write, for a status and a body, where the caller asked for
/// silence or not.
pub open spec fn write_outcome(status: u16, body: Seq<u8>, silent: bool) -> Result<
    ResponseView,
    ErrorView,
> {
    if status >= FAILURE_STATUS {
        Err(failure_of(status, envelope_in_body(body)))
    } else if silent {
        Ok(ResponseView::Silent)
    } else {
        match object_in_body(body) {
            Some(object) => Ok(ResponseView::Verbose(verbose_in(object))),
            None => Err(ErrorView::MalformedResponse),
        }
    }
}

/// The answer to a read, for a status and a body.
pub open spec fn read_outcome(status: u16, body: Seq<u8>) -> Result<DocumentView, ErrorView> {
    if status >= FAILURE_STATUS {
        Err(failure_of(status, envelope_in_body(body)))
    } else {
        match object_in_body(body) {
            Some(object) => Ok(document_in(object)),
            None => Err(ErrorView::MalformedResponse),
        }
    }
}

/// The answer to a read of the header, for a status and a body.
pub open spec fn header_outcome(status: u16, body: Seq<u8>) -> Result<HeaderView, ErrorView> {
    if status >= FAILURE_STATUS {
        Err(failure_of(status, envelope_in_body(body)))
    } else {
        match json_parsed(body) {
            Some(object) => match header_in(object) {
                Some(header) => Ok(header),
                None => Err(ErrorView::MalformedResponse),
            },
            None => Err(ErrorView::MalformedResponse),
        }
    }
}

/// The result of a write, as text.
pub open spec fn write_view(
    result: Result<DocumentResponse<serde_json::Value>, ClientError>,
) -> Result<ResponseView, ErrorView> {
    match result {
        Ok(response) => Ok(response@),
        Err(error) => Err(error@),
    }
}

/// The result of a read, as text.
pub open spec fn read_view(result: Result<Document<serde_json::Value>, ClientError>) -> Result<
    DocumentView,
    ErrorView,
> {
    match result {
        Ok(document) => Ok(document@),
        Err(error) => Err(error@),
    }
}

/// The result of a read of the header, as text.
pub open spec fn read_header_view(result: Result<DocumentHeader, ClientError>) -> Result<
    HeaderView,
    ErrorView,
> {
    match result {
        Ok(header) => Ok(header@),
        Err(error) => Err(error@),
    }
}

/// The answer to a write, once the body has been read: `envelope` is what a
/// failure's body held, `verbose` what the body of a success told.
pub fn decide_write<T>(
    status: u16,
    silent: bool,
    envelope: Option<ErrorEnvelope>,
    verbose: Option<VerboseResponse<T>>,
) -> (result: Result<DocumentResponse<T>, ClientError>)
    ensures
        status >= FAILURE_STATUS ==> result is Err && result->Err_0@ == failure_of(
            status,
            envelope_view(envelope),
        ),
        status < FAILURE_STATUS && silent ==> result == Ok::<DocumentResponse<T>, ClientError>(
            DocumentResponse::Silent,
        ),
        status < FAILURE_STATUS && !silent ==> result == match verbose {
            Some(v) => Ok::<DocumentResponse<T>, ClientError>(DocumentResponse::Verbose(v)),
            None => Err(ClientError::MalformedResponse),
        },
{
    if status >= FAILURE_STATUS {
        Err(classify_failure(status, envelope))
    } else if silent {
        Ok(DocumentResponse::Silent)
    } else {
        match verbose {
            Some(verbose) => Ok(DocumentResponse::Verbose(verbose)),
            None => Err(ClientError::MalformedResponse),
        }
    }
}

/// The answer to a read, once the body has been read: `envelope` is what a
/// failure's body held, `found` what the body of a success held.
pub fn decide_read<T>(status: u16, envelope: Option<ErrorEnvelope>, found: Option<T>) -> (result:
    Result<T, ClientError>)
    ensures
        status >= FAILURE_STATUS ==> result is Err && result->Err_0@ == failure_of(
            status,
            envelope_view(envelope),
        ),
        status < FAILURE_STATUS ==> result == match found {
            Some(value) => Ok::<T, ClientError>(value),
            None => Err(ClientError::MalformedResponse),
        },
{
    if status >= FAILURE_STATUS {
        Err(classify_failure(status, envelope))
    } else {
        match found {
            Some(value) => Ok(value),
            None => Err(ClientError::MalformedResponse),
        }
    }
}

fn string_member_of(object: &serde_json::Value, key: &str) -> (found: Option<String>)
    ensures
        match found {
            Some(s) => string_member(json_text(*object), key@) == Some(s@),
            None => string_member(json_text(*object), key@) is None,
        },
{
    match member(object, key) {
        Some(value) => match value.as_str() {
            Some(s) => Some(s.to_owned()),
            None => None,
        },
        None => None,
    }
}

fn unsigned_member_of(object: &serde_json::Value, key: &str) -> (found: Option<u64>)
    ensures
        found == unsigned_member(json_text(*object), key@),
{
    match member(object, key) {
        Some(value) => value.as_u64(),
        None => None,
    }
}

fn attribute_of(object: &serde_json::Value, key: &str) -> (attribute: String)
    ensures
        attribute@ == attribute_in(json_text(*object), key@),
{
    match string_member_of(object, key) {
        Some(value) => value,
        None => String::new(),
    }
}

/// The header that a JSON value holds: `_id`, `_key` and `_rev`, where all three
/// are strings.
pub fn header_of(object: &serde_json::Value) -> (header: Option<DocumentHeader>)
    ensures
        header_view(header) == header_in(json_text(*object)),
{
    let id = string_member_of(object, "_id");
    let key = string_member_of(object, "_key");
    let rev = string_member_of(object, "_rev");
    match (id, key, rev) {
        (Some(_id), Some(_key), Some(_rev)) => Some(DocumentHeader { _id, _key, _rev }),
        _ => None,
    }
}

/// A JSON value as a document: the value is the payload, and the system
/// attributes are those that it holds.
pub fn document_of(object: &serde_json::Value) -> (document: Document<serde_json::Value>)
    ensures
        document@ == document_in(json_text(*object)),
{
    Document {
        header: DocumentHeader {
            _id: attribute_of(object, "_id"),
            _key: attribute_of(object, "_key"),
            _rev: attribute_of(object, "_rev"),
        },
        document: object.clone(),
    }
}

fn snapshot_of(object: &serde_json::Value, key: &str) -> (snapshot: Option<
    Document<serde_json::Value>,
>)
    ensures
        document_view(snapshot) == snapshot_in(json_text(*object), key@),
{
    match member(object, key) {
        Some(value) => if value.is_object() {
            Some(document_of(value))
        } else {
            None
        },
        None => None,
    }
}

/// What a JSON value tells of a write: its header and the documents under `old`
/// and `new`.
pub fn verbose_of(object: &serde_json::Value) -> (verbose: VerboseResponse<serde_json::Value>)
    ensures
        verbose@ == verbose_in(json_text(*object)),
{
    VerboseResponse {
        header: header_of(object),
        old: snapshot_of(object, "old"),
        new: snapshot_of(object, "new"),
    }
}

/// The envelope that a JSON value holds.
pub fn envelope_of(object: &serde_json::Value) -> (envelope: Option<ErrorEnvelope>)
    ensures
        envelope_view(envelope) == envelope_in(json_text(*object)),
{
    let error_num = unsigned_member_of(object, "errorNum");
    let error_message = string_member_of(object, "errorMessage");
    let code = unsigned_member_of(object, "code");
    match (error_num, error_message, code) {
        (Some(error_num), Some(error_message), Some(code)) => if code <= 0xffff {
            Some(ErrorEnvelope { error_num, error_message, code: code as u16 })
        } else {
            None
        },
        _ => None,
    }
}

fn envelope_of_body(body: &[u8]) -> (envelope: Option<ErrorEnvelope>)
    ensures
        envelope_view(envelope) == envelope_in_body(body@),
{
    match parse(body) {
        Ok(object) => envelope_of(&object),
        Err(_) => None,
    }
}

fn object_of_body(body: &[u8]) -> (object: Option<serde_json::Value>)
    ensures
        match object {
            Some(o) => object_in_body(body@) == Some(json_text(o)),
            None => object_in_body(body@) is None,
        },
{
    match parse(body) {
        Ok(object) => if object.is_object() {
            Some(object)
        } else {
            None
        },
        Err(_) => None,
    }
}

/// The failure that an answer with a status of 400 or more stands for.
pub fn interpret_failure(status: u16, body: &[u8]) -> (error: ClientError)
    ensures
        error@ == failure_of(status, envelope_in_body(body@)),
{
    classify_failure(status, envelope_of_body(body))
}

/// The answer to a write. `silent` says whether the caller asked for silence.
pub fn interpret_write(status: u16, body: &[u8], silent: bool) -> (result: Result<
    DocumentResponse<serde_json::Value>,
    ClientError,
>)
    ensures
        write_view(result) == write_outcome(status, body@, silent),
{
    if status >= FAILURE_STATUS {
        decide_write(status, silent, envelope_of_body(body), None)
    } else if silent {
        decide_write(status, silent, None, None)
    } else {
        let verbose = match object_of_body(body) {
            Some(object) => Some(verbose_of(&object)),
            None => None,
        };
        decide_write(status, silent, None, verbose)
    }
}

/// The answer to a read.
pub fn interpret_read(status: u16, body: &[u8]) -> (result: Result<
    Document<serde_json::Value>,
    ClientError,
>)
    ensures
        read_view(result) == read_outcome(status, body@),
{
    if status >= FAILURE_STATUS {
        decide_read(status, envelope_of_body(body), None)
    } else {
        let found = match object_of_body(body) {
            Some(object) => Some(document_of(&object)),
            None => None,
        };
        decide_read(status, None, found)
    }
}

/// The answer to a read of the header.
pub fn interpret_header(status: u16, body: &[u8]) -> (result: Result<DocumentHeader, ClientError>)
    ensures
        read_header_view(result) == header_outcome(status, body@),
{
    if status >= FAILURE_STATUS {
        decide_read(status, envelope_of_body(body), None)
    } else {
        let found = match parse(body) {
            Ok(object) => header_of(&object),
            Err(_) => None,
        };
        decide_read(status, None, found)
    }
}

/// A write that asked for silence and did not fail shows nothing: it is the
/// silent answer, with no header and no document, whatever the body holds.
pub proof fn lemma_silent_write_shows_nothing(
    status: u16,
    body: Seq<u8>,
    result: Result<DocumentResponse<serde_json::Value>, ClientError>,
)
    requires
        write_view(result) == write_outcome(status, body, true),
    ensures
        status < FAILURE_STATUS ==> result == Ok::<DocumentResponse<serde_json::Value>, ClientError>(
            DocumentResponse::Silent,
        ),
        result matches Ok(response) ==> response.shown_header() is None && response.shown_old()
            is None && response.shown_new() is None,
{
}

/// An object that holds none of `_id`, `_key`, `_rev`, `old` and `new` tells
/// nothing of a write: the answer is verbose, with header and documents absent.
pub proof fn lemma_bare_object_tells_nothing(status: u16, body: Seq<u8>)
    requires
        status < FAILURE_STATUS,
        object_in_body(body) matches Some(object) && json_member(object, "_id"@) is None
            && json_member(object, "_key"@) is None && json_member(object, "_rev"@) is None
            && json_member(object, "old"@) is None && json_member(object, "new"@) is None,
    ensures
        write_outcome(status, body, false) == Ok::<ResponseView, ErrorView>(
            ResponseView::Verbose(VerboseView { header: None, old: None, new: None }),
        ),
{
}

/// A failure is never taken for a success: with a status of 400 or more every
/// kind of answer is an error, and it is `PreconditionFailed` for 412 and
/// `NotFound` for 404 exactly where the body holds the server's envelope.
pub proof fn lemma_failure_status_fails(status: u16, body: Seq<u8>, silent: bool)
    requires
        status >= FAILURE_STATUS,
    ensures
        write_outcome(status, body, silent) is Err,
        read_outcome(status, body) is Err,
        header_outcome(status, body) is Err,
        write_outcome(status, body, silent)->Err_0 == read_outcome(status, body)->Err_0,
        read_outcome(status, body)->Err_0 == header_outcome(status, body)->Err_0,
        envelope_in_body(body) is None ==> read_outcome(status, body)->Err_0
            == ErrorView::MalformedResponse,
        envelope_in_body(body) is Some && status == PRECONDITION_FAILED_STATUS ==> read_outcome(
            status,
            body,
        )->Err_0 == ErrorView::PreconditionFailed,
        envelope_in_body(body) is Some && status == NOT_FOUND_STATUS ==> read_outcome(
            status,
            body,
        )->Err_0 == ErrorView::NotFound,
        envelope_in_body(body) matches Some(envelope) ==> (status != PRECONDITION_FAILED_STATUS
            && status != NOT_FOUND_STATUS ==> read_outcome(status, body)->Err_0
            == ErrorView::ServerError(envelope.code, envelope.error_message)),
{
}

/// Header, earlier and later document of a verbose answer are read one
/// independently of the other: each is there exactly where the body holds it,
/// and a part that is absent does not make the answer a failure.
pub proof fn lemma_verbose_parts_are_independent(status: u16, body: Seq<u8>, object: Seq<char>)
    requires
        status < FAILURE_STATUS,
        object_in_body(body) == Some(object),
    ensures
        write_outcome(status, body, false) matches Ok(ResponseView::Verbose(verbose)) && (
        verbose.header is Some <==> string_member(object, "_id"@) is Some && string_member(
            object,
            "_key"@,
        ) is Some && string_member(object, "_rev"@) is Some) && (verbose.old is Some <==> (
        json_member(object, "old"@) matches Some(old) && json_is_object(old))) && (verbose.new
            is Some <==> (json_member(object, "new"@) matches Some(new) && json_is_object(new))),
{
}

/// What is read is what the body holds: the document of a read is the object in
/// the body, whole, with the system attributes that the object holds.
pub proof fn lemma_read_gives_the_body(status: u16, body: Seq<u8>, object: Seq<char>)
    requires
        status < FAILURE_STATUS,
        object_in_body(body) == Some(object),
    ensures
        read_outcome(status, body) matches Ok(document) && document.document == object
            && document.header.id == attribute_in(object, "_id"@) && document.header.key
            == attribute_in(object, "_key"@) && document.header.rev == attribute_in(
            object,
            "_rev"@,
        ),
        header_in(object) matches Some(header) ==> header_outcome(status, body) == Ok::<
            HeaderView,
            ErrorView,
        >(header) && read_outcome(status, body)->Ok_0.header == header,
{
}

/// A document is read in one way wherever it stands: where the server sends the
/// same object under `new` or `old` of a write's answer and as the body of a
/// read, the write shows and the read gives the same document.
pub proof fn lemma_document_reads_the_same(
    write_status: u16,
    write_body: Seq<u8>,
    read_status: u16,
    read_body: Seq<u8>,
    told: Seq<char>,
    object: Seq<char>,
)
    requires
        write_status < FAILURE_STATUS,
        read_status < FAILURE_STATUS,
        object_in_body(write_body) == Some(told),
        object_in_body(read_body) == Some(object),
    ensures
        write_outcome(write_status, write_body, false) matches Ok(ResponseView::Verbose(verbose))
            && (json_member(told, "new"@) == Some(object) ==> Ok::<DocumentView, ErrorView>(
            verbose.new->Some_0,
        ) == read_outcome(read_status, read_body)) && (json_member(told, "old"@) == Some(object)
            ==> Ok::<DocumentView, ErrorView>(verbose.old->Some_0) == read_outcome(
            read_status,
            read_body,
        )),
{
}

/// An answer below 400 whose body is no JSON object gives no document: a read
/// fails with `MalformedResponse`, and so does a write that was not silent.
/// This is how a read ends that the server answers with 304 and no body.
pub proof fn lemma_answer_without_object_is_malformed(status: u16, body: Seq<u8>)
    requires
        status < FAILURE_STATUS,
        object_in_body(body) is None,
    ensures
        read_outcome(status, body) == Err::<DocumentView, ErrorView>(ErrorView::MalformedResponse),
        write_outcome(status, body, false) == Err::<ResponseView, ErrorView>(
            ErrorView::MalformedResponse,
        ),
        json_parsed(body) is None ==> header_outcome(status, body) == Err::<HeaderView, ErrorView>(
            ErrorView::MalformedResponse,
        ),
{
}

} // verus!
