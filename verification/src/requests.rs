//! Request envelopes, client to server.

use vstd::prelude::*;

verus! {

/// Body of a `Sum` request.
#[derive(Debug, PartialEq, Eq)]
pub struct SumRequest {
    pub operands: Vec<usize>,
}

/// A request envelope: the operation is the variant, and every variant
/// carries the correlation id and the operation's body.
#[derive(Debug, PartialEq, Eq)]
pub enum Request {
    Sum { request_id: String, body: SumRequest },
}

/// What a request envelope says, as plain mathematical values.
pub enum RequestView {
    Sum { request_id: Seq<char>, operands: Seq<usize> },
}

impl View for Request {
    type V = RequestView;

    open spec fn view(&self) -> RequestView {
        match *self {
            Request::Sum { request_id, body } => RequestView::Sum {
                request_id: request_id@,
                operands: body.operands@,
            },
        }
    }
}

impl Request {
    /// The correlation id the envelope carries.
    pub open spec fn id(&self) -> Seq<char> {
        match *self {
            Request::Sum { request_id, body } => request_id@,
        }
    }

    /// Builds the envelope of a `Sum` call.
    pub fn sum(request_id: String, operands: &[usize]) -> (request: Request)
        ensures
            request@ == (RequestView::Sum { request_id: request_id@, operands: operands@ }),
    {
        Request::Sum { request_id, body: SumRequest { operands: vstd::slice::slice_to_vec(operands) } }
    }

    /// The correlation id the envelope carries.
    pub fn request_id(&self) -> (id: &String)
        ensures
            id@ == self.id(),
    {
        match self {
            Request::Sum { request_id, body: _ } => request_id,
        }
    }
}

} // verus!
