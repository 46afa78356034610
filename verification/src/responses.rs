//! Response envelopes, server to client.

use vstd::prelude::*;

verus! {

/// Body of a `Sum` response.
#[derive(Clone, Copy, Debug, PartialEq, Eq, Structural)]
pub struct SumResponse {
    pub sum: u64,
}

/// A response envelope: it echoes the correlation id of the request it
/// answers and carries the operation's result.
#[derive(Debug, PartialEq, Eq)]
pub enum Response {
    Sum { request_id: String, body: SumResponse },
}

/// What a response envelope says, as plain mathematical values.
pub enum ResponseView {
    Sum { request_id: Seq<char>, body: SumResponse },
}

impl ResponseView {
    /// The correlation id the envelope echoes.
    pub open spec fn id(&self) -> Seq<char> {
        match *self {
            ResponseView::Sum { request_id, body } => request_id,
        }
    }
}

impl View for Response {
    type V = ResponseView;

    open spec fn view(&self) -> ResponseView {
        match *self {
            Response::Sum { request_id, body } => ResponseView::Sum { request_id: request_id@, body },
        }
    }
}

impl Response {
    /// Builds the envelope of a `Sum` result.
    pub fn sum(request_id: String, sum: u64) -> (response: Response)
        ensures
            response@ == (ResponseView::Sum { request_id: request_id@, body: SumResponse { sum } }),
    {
        Response::Sum { request_id, body: SumResponse { sum } }
    }
}

} // verus!
