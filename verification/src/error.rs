//! The failures of a document operation.

use vstd::prelude::*;

verus! {

/// Why no answer of the server was obtained.
#[derive(Clone, Debug, PartialEq, Eq)]
pub enum TransportError {
    /// The request has no address: the key does not resolve against the
    /// collection's URL, or the URL is longer than a request can carry.
    Unaddressable,
    /// The session gave the request up before an answer came.
    Cancelled,
    /// The session failed, with its own account of it.
    Failed(String),
}

/// A transport failure, as text.
pub ghost enum TransportErrorView {
    Unaddressable,
    Cancelled,
    Failed(Seq<char>),
}

impl View for TransportError {
    type V = TransportErrorView;

    open spec fn view(&self) -> TransportErrorView {
        match self {
            TransportError::Unaddressable => TransportErrorView::Unaddressable,
            TransportError::Cancelled => TransportErrorView::Cancelled,
            TransportError::Failed(message) => TransportErrorView::Failed(message@),
        }
    }
}

/// Why a document operation failed.
#[derive(Clone, Debug, PartialEq, Eq)]
pub enum ClientError {
    /// No answer was obtained.
    Transport(TransportError),
    /// The answer's body has none of the shapes that its status allows.
    MalformedResponse,
    /// Status 412: the document is not at the revision asked for.
    PreconditionFailed,
    /// Status 404: there is no such document.
    NotFound,
    /// Any other failure that the server reported, with its code and message.
    ServerError(u16, String),
    /// The payload could not be written as JSON.
    Serialization,
}

/// A failure, as text.
pub ghost enum ErrorView {
    Transport(TransportErrorView),
    MalformedResponse,
    PreconditionFailed,
    NotFound,
    ServerError(u16, Seq<char>),
    Serialization,
}

impl View for ClientError {
    type V = ErrorView;

    open spec fn view(&self) -> ErrorView {
        match self {
            ClientError::Transport(e) => ErrorView::Transport(e@),
            ClientError::MalformedResponse => ErrorView::MalformedResponse,
            ClientError::PreconditionFailed => ErrorView::PreconditionFailed,
            ClientError::NotFound => ErrorView::NotFound,
            ClientError::ServerError(code, message) => ErrorView::ServerError(*code, message@),
            ClientError::Serialization => ErrorView::Serialization,
        }
    }
}

/// What the server writes into the body of a failure.
#[derive(Clone, Debug, PartialEq, Eq)]
pub struct ErrorEnvelope {
    /// The server's own number of the error (`errorNum`).
    pub error_num: u64,
    /// The server's message (`errorMessage`).
    pub error_message: String,
    /// The status that the server reports (`code`).
    pub code: u16,
}

/// An envelope, as text.
pub ghost struct EnvelopeView {
    pub error_num: u64,
    pub error_message: Seq<char>,
    pub code: u16,
}

impl View for ErrorEnvelope {
    type V = EnvelopeView;

    open spec fn view(&self) -> EnvelopeView {
        EnvelopeView {
            error_num: self.error_num,
            error_message: self.error_message@,
            code: self.code,
        }
    }
}

/// An optional envelope, as text.
pub open spec fn envelope_view(envelope: Option<ErrorEnvelope>) -> Option<EnvelopeView> {
    match envelope {
        Some(e) => Some(e@),
        None => None,
    }
}

/// The least status that reports a failure.
pub const FAILURE_STATUS: u16 = 400;

/// Status of a missing document.
pub const NOT_FOUND_STATUS: u16 = 404;

/// Status of a revision that does not match.
pub const PRECONDITION_FAILED_STATUS: u16 = 412;

/// The failure that a status and the envelope read from the body stand for:
/// without an envelope the answer is malformed, whatever the status.
pub open spec fn failure_of(status: u16, envelope: Option<EnvelopeView>) -> ErrorView {
    match envelope {
        None => ErrorView::MalformedResponse,
        Some(envelope) => if status == PRECONDITION_FAILED_STATUS {
            ErrorView::PreconditionFailed
        } else if status == NOT_FOUND_STATUS {
            ErrorView::NotFound
        } else {
            ErrorView::ServerError(envelope.code, envelope.error_message)
        },
    }
}

/// The failure that a status and the envelope read from the body stand for.
pub fn classify_failure(status: u16, envelope: Option<ErrorEnvelope>) -> (error: ClientError)
    ensures
        error@ == failure_of(status, envelope_view(envelope)),
{
    match envelope {
        None => ClientError::MalformedResponse,
        Some(envelope) => {
            if status == PRECONDITION_FAILED_STATUS {
                ClientError::PreconditionFailed
            } else if status == NOT_FOUND_STATUS {
                ClientError::NotFound
            } else {
                ClientError::ServerError(envelope.code, envelope.error_message)
            }
        },
    }
}

} // verus!
