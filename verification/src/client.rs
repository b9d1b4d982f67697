//! The session: whatever sends a request to the server and hands back the
//! answer. The library builds the request and reads the answer; it never sends
//! anything itself.

use crate::error::{TransportError, TransportErrorView};
use crate::request::{RequestView, WireRequest};
use crate::response::WireResponse;
use vstd::prelude::*;

verus! {

/// What a session hands back, as text: the status and the body, or why there is
/// none.
pub open spec fn reply_view(reply: Result<WireResponse, TransportError>) -> Result<
    (u16, Seq<u8>),
    TransportErrorView,
> {
    match reply {
        Ok(response) => Ok((response.status, response.body@)),
        Err(error) => Err(error@),
    }
}

/// A session with the server. An operation of the library calls `request` once,
/// and does nothing else through the session.
pub trait ClientExt {
    /// The session's own account of itself: whether it may hand back `reply` when
    /// it is asked to send `request`. The library assumes nothing of it: it only
    /// says of each operation which request the reply belongs to.
    open spec fn answers(
        &self,
        request: RequestView,
        reply: Result<(u16, Seq<u8>), TransportErrorView>,
    ) -> bool {
        true
    }

    /// Sends the request and hands back the answer as it came, or the reason why
    /// there is none.
    fn request(&self, request: WireRequest) -> (reply: Result<WireResponse, TransportError>)
        ensures
            self.answers(request@, reply_view(reply)),
    ;
}

} // verus!
