//! Envelopes on the wire: MessagePack frames, one envelope each.
//!
//! A frame is the MessagePack encoding of the triple of operation name,
//! correlation id and body. The encoding itself is the codec's business;
//! which triple stands for which envelope is decided here.

use vstd::prelude::*;
use crate::requests::Request;
use crate::requests::RequestView;
use crate::responses::Response;
use crate::responses::ResponseView;
use crate::responses::SumResponse;

verus! {

/// The frame that the codec writes for a request triple, `None` where it
/// refuses the value.
pub uninterp spec fn packed_envelope(
    operation: Seq<char>,
    request_id: Seq<char>,
    operands: Seq<usize>,
) -> Option<Seq<u8>>;

/// The response triple that the codec reads from a frame, `None` where
/// the frame does not hold one.
pub uninterp spec fn unpacked_envelope(payload: Seq<u8>) -> Option<(Seq<char>, Seq<char>, u64)>;

/// A frame that may be missing, as mathematical bytes.
pub open spec fn frame_view(frame: Option<Vec<u8>>) -> Option<Seq<u8>> {
    match frame {
        Some(bytes) => Some(bytes@),
        None => None,
    }
}

/// A response triple that may be missing, as mathematical values.
pub open spec fn fields_view(fields: Option<(String, String, u64)>) -> Option<
    (Seq<char>, Seq<char>, u64),
> {
    match fields {
        Some(triple) => Some((triple.0@, triple.1@, triple.2)),
        None => None,
    }
}

/// A response that may be missing, as mathematical values.
pub open spec fn response_view(response: Option<Response>) -> Option<ResponseView> {
    match response {
        Some(envelope) => Some(envelope@),
        None => None,
    }
}

/// Encodes a request triple with `rmp_serde::to_vec`, which writes it in
/// MessagePack's compact form as an array of three. Nothing is claimed of
/// the bytes but that they depend on the three values alone; an error of
/// the encoder becomes `None`.
#[verifier::external_body]
fn pack_envelope(operation: &str, request_id: &str, operands: &Vec<usize>) -> (frame: Option<
    Vec<u8>,
>)
    ensures
        frame_view(frame) == packed_envelope(operation@, request_id@, operands@),
{
    rmp_serde::to_vec(&(operation, request_id, operands)).ok()
}

/// Decodes a response triple with `rmp_serde::from_slice`. Nothing is
/// claimed of the triple but that it depends on the bytes alone; an error
/// of the decoder becomes `None`.
#[verifier::external_body]
fn unpack_envelope(payload: &Vec<u8>) -> (fields: Option<(String, String, u64)>)
    ensures
        fields_view(fields) == unpacked_envelope(payload@),
{
    rmp_serde::from_slice::<(String, String, u64)>(payload.as_slice()).ok()
}

/// The name of the `Sum` operation on the wire.
pub open spec fn sum_operation() -> Seq<char> {
    "Sum"@
}

/// The triple that stands for a request envelope on the wire.
pub open spec fn request_fields(request: RequestView) -> (Seq<char>, Seq<char>, Seq<usize>) {
    match request {
        RequestView::Sum { request_id, operands } => (sum_operation(), request_id, operands),
    }
}

/// The request envelope that a triple stands for, if it stands for one.
pub open spec fn request_of(fields: (Seq<char>, Seq<char>, Seq<usize>)) -> Option<RequestView> {
    if fields.0 == sum_operation() {
        Some(RequestView::Sum { request_id: fields.1, operands: fields.2 })
    } else {
        None
    }
}

/// The triple that stands for a response envelope on the wire.
pub open spec fn response_fields(response: ResponseView) -> (Seq<char>, Seq<char>, u64) {
    match response {
        ResponseView::Sum { request_id, body } => (sum_operation(), request_id, body.sum),
    }
}

/// The frame of a request envelope.
pub open spec fn request_frame(request: RequestView) -> Option<Seq<u8>> {
    packed_envelope(
        request_fields(request).0,
        request_fields(request).1,
        request_fields(request).2,
    )
}

/// The response envelope that a decoded triple stands for: the operation
/// name selects the variant, and a name that is no operation's selects
/// none.
pub open spec fn response_of(fields: Option<(Seq<char>, Seq<char>, u64)>) -> Option<ResponseView> {
    match fields {
        Some(triple) => if triple.0 == sum_operation() {
            Some(ResponseView::Sum { request_id: triple.1, body: SumResponse { sum: triple.2 } })
        } else {
            None
        },
        None => None,
    }
}

/// Every envelope is read back from the triple that stands for it: the
/// step between envelopes and triples loses nothing, for every operation
/// and every body. What the codec makes of the triples is not part of
/// this statement.
pub proof fn lemma_envelope_fields_round_trip(request: RequestView, response: ResponseView)
    ensures
        request_of(request_fields(request)) == Some(request),
        response_of(Some(response_fields(response))) == Some(response),
{
}

/// Encodes a request envelope into one frame.
pub fn serialize(request: &Request) -> (frame: Option<Vec<u8>>)
    ensures
        frame_view(frame) == request_frame(request@),
{
    match request {
        Request::Sum { request_id, body } => pack_envelope(
            "Sum",
            request_id.as_str(),
            &body.operands,
        ),
    }
}

/// Builds the response envelope that a decoded triple stands for.
pub fn response_from_fields(fields: Option<(String, String, u64)>) -> (response: Option<Response>)
    ensures
        response_view(response) == response_of(fields_view(fields)),
{
    match fields {
        Some((operation, request_id, sum)) => {
            let expected = "Sum".to_string();
            if operation == expected {
                Some(Response::Sum { request_id, body: SumResponse { sum } })
            } else {
                None
            }
        },
        None => None,
    }
}

/// Decodes one frame into a response envelope; `None` for a frame that
/// holds none.
pub fn deserialize(payload: &Vec<u8>) -> (response: Option<Response>)
    ensures
        response_view(response) == response_of(unpacked_envelope(payload@)),
{
    response_from_fields(unpack_envelope(payload))
}

} // verus!
