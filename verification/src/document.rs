//! Documents, their system attributes and the answers to a write.

use crate::json::json_text;
use vstd::prelude::*;

pub use crate::options::{
    DocumentInsertOptions, DocumentInsertOptionsBuilder, DocumentOverwriteMode,
    DocumentReadOptions, DocumentRemoveOptions, DocumentRemoveOptionsBuilder,
    DocumentReplaceOptions, DocumentReplaceOptionsBuilder, DocumentUpdateOptions,
    DocumentUpdateOptionsBuilder,
};

verus! {

/// The system attributes of a document. An attribute that is not known is empty.
#[derive(Clone, Debug, PartialEq, Eq)]
pub struct DocumentHeader {
    /// The collection's name, `/` and the key.
    pub _id: String,
    /// The key, which is unique within the collection.
    pub _key: String,
    /// The revision, which the server changes with every change of the document.
    pub _rev: String,
}

/// The system attributes, as text.
pub ghost struct HeaderView {
    pub id: Seq<char>,
    pub key: Seq<char>,
    pub rev: Seq<char>,
}

impl HeaderView {
    /// The attributes of a document that the server has not seen.
    pub open spec fn unknown() -> HeaderView {
        HeaderView { id: seq![], key: seq![], rev: seq![] }
    }
}

impl View for DocumentHeader {
    type V = HeaderView;

    open spec fn view(&self) -> HeaderView {
        HeaderView { id: self._id@, key: self._key@, rev: self._rev@ }
    }
}

/// An optional header, as text.
pub open spec fn header_view(header: Option<DocumentHeader>) -> Option<HeaderView> {
    match header {
        Some(h) => Some(h@),
        None => None,
    }
}

/// A payload with the system attributes of the document that holds it.
#[derive(Clone, Debug, PartialEq)]
pub struct Document<T> {
    pub header: DocumentHeader,
    pub document: T,
}

impl<T> Document<T> {
    /// A document that the server has not seen: the payload, with no system
    /// attribute known.
    pub fn new(data: T) -> (document: Self)
        ensures
            document.document == data,
            document.header@ == HeaderView::unknown(),
    {
        Document {
            header: DocumentHeader { _id: String::new(), _key: String::new(), _rev: String::new() },
            document: data,
        }
    }
}

/// A JSON document, as text: its attributes and the text of its payload.
pub ghost struct DocumentView {
    pub header: HeaderView,
    pub document: Seq<char>,
}

impl View for Document<serde_json::Value> {
    type V = DocumentView;

    open spec fn view(&self) -> DocumentView {
        DocumentView { header: self.header@, document: json_text(self.document) }
    }
}

/// An optional JSON document, as text.
pub open spec fn document_view(document: Option<Document<serde_json::Value>>) -> Option<
    DocumentView,
> {
    match document {
        Some(d) => Some(d@),
        None => None,
    }
}

/// What the server tells of a write that was not silent. Each part is there only
/// if the server sent it.
#[derive(Clone, Debug, PartialEq)]
pub struct VerboseResponse<T> {
    /// The attributes of the document written; absent where nothing was written.
    pub header: Option<DocumentHeader>,
    /// The document as it was before the write.
    pub old: Option<Document<T>>,
    /// The document as it is after the write.
    pub new: Option<Document<T>>,
}

/// A verbose answer in JSON, as text.
pub ghost struct VerboseView {
    pub header: Option<HeaderView>,
    pub old: Option<DocumentView>,
    pub new: Option<DocumentView>,
}

impl View for VerboseResponse<serde_json::Value> {
    type V = VerboseView;

    open spec fn view(&self) -> VerboseView {
        VerboseView {
            header: header_view(self.header),
            old: document_view(self.old),
            new: document_view(self.new),
        }
    }
}

/// The answer to a write.
#[derive(Clone, Debug, PartialEq)]
pub enum DocumentResponse<T> {
    /// The caller asked for no body, and none was read.
    Silent,
    /// What the server told of the write.
    Verbose(VerboseResponse<T>),
}

/// An answer in JSON, as text.
pub ghost enum ResponseView {
    Silent,
    Verbose(VerboseView),
}

impl View for DocumentResponse<serde_json::Value> {
    type V = ResponseView;

    open spec fn view(&self) -> ResponseView {
        match self {
            DocumentResponse::Silent => ResponseView::Silent,
            DocumentResponse::Verbose(verbose) => ResponseView::Verbose(verbose@),
        }
    }
}

impl<T> DocumentResponse<T> {
    /// The attributes that the answer shows: none where it is silent.
    pub open spec fn shown_header(self) -> Option<DocumentHeader> {
        match self {
            DocumentResponse::Silent => None,
            DocumentResponse::Verbose(verbose) => verbose.header,
        }
    }

    /// The earlier document that the answer shows: none where it is silent.
    pub open spec fn shown_old(self) -> Option<Document<T>> {
        match self {
            DocumentResponse::Silent => None,
            DocumentResponse::Verbose(verbose) => verbose.old,
        }
    }

    /// The later document that the answer shows: none where it is silent.
    pub open spec fn shown_new(self) -> Option<Document<T>> {
        match self {
            DocumentResponse::Silent => None,
            DocumentResponse::Verbose(verbose) => verbose.new,
        }
    }

    /// Whether the answer is the silent one.
    pub fn is_silent(&self) -> (silent: bool)
        ensures
            silent == (*self is Silent),
    {
        match self {
            DocumentResponse::Silent => true,
            DocumentResponse::Verbose(_) => false,
        }
    }

    /// Whether the answer tells anything of the write.
    pub fn has_response(&self) -> (verbose: bool)
        ensures
            verbose == (*self is Verbose),
    {
        match self {
            DocumentResponse::Silent => false,
            DocumentResponse::Verbose(_) => true,
        }
    }

    /// What the server told of the write, if the answer is not silent.
    pub fn get_response(self) -> (verbose: Option<VerboseResponse<T>>)
        ensures
            verbose == match self {
                DocumentResponse::Silent => None::<VerboseResponse<T>>,
                DocumentResponse::Verbose(v) => Some(v),
            },
    {
        match self {
            DocumentResponse::Silent => None,
            DocumentResponse::Verbose(verbose) => Some(verbose),
        }
    }
}

} // verus!
