//! The call protocol and the dispatch of inbound responses.

use vstd::prelude::*;
use crate::connection::Lifecycle;
use crate::global_state::GlobalCell;
use crate::global_state::Resolver;
use crate::global_state::registered;
use crate::global_state::removed;
use crate::global_state::resolved;
use crate::messagepack_helpers::deserialize;
use crate::messagepack_helpers::frame_view;
use crate::messagepack_helpers::request_frame;
use crate::messagepack_helpers::response_of;
use crate::messagepack_helpers::response_view;
use crate::messagepack_helpers::serialize;
use crate::messagepack_helpers::unpacked_envelope;
use crate::requests::Request;
use crate::responses::Response;
use crate::responses::ResponseView;
use crate::responses::SumResponse;

verus! {

/// Why a call failed.
#[derive(Clone, Copy, Debug, PartialEq, Eq, Structural)]
pub enum CallError {
    /// No connection state is installed.
    NotInitialized,
    /// The request could not be encoded.
    EncodeFailed,
    /// The transport did not take the frame.
    SendFailed,
    /// The completion was settled without a response.
    ResolveFailed,
}

impl CallError {
    /// The text of the failure.
    pub open spec fn text(&self) -> Seq<char> {
        match *self {
            CallError::NotInitialized => "GLOBAL_STATE not set"@,
            CallError::EncodeFailed => "failed to encode"@,
            CallError::SendFailed => "failed to send"@,
            CallError::ResolveFailed => "failed to resolve"@,
        }
    }

    /// The text of the failure, as it is shown to the caller.
    pub fn message(&self) -> (message: String)
        ensures
            message@ == self.text(),
    {
        match self {
            CallError::NotInitialized => "GLOBAL_STATE not set".to_string(),
            CallError::EncodeFailed => "failed to encode".to_string(),
            CallError::SendFailed => "failed to send".to_string(),
            CallError::ResolveFailed => "failed to resolve".to_string(),
        }
    }
}

/// What became of an inbound response.
#[derive(Debug, PartialEq, Eq)]
pub enum Delivery {
    /// The response matched a pending call: `resolver` is to be resolved
    /// with `body`, once.
    Resolved { resolver: Resolver, body: SumResponse },
    /// No call was pending under the id: a stray or duplicate response.
    Unmatched { request_id: String },
}

/// What became of an inbound response, as plain mathematical values.
pub enum DeliveryView {
    Resolved { resolver: Resolver, body: SumResponse },
    Unmatched { request_id: Seq<char> },
}

impl View for Delivery {
    type V = DeliveryView;

    open spec fn view(&self) -> DeliveryView {
        match *self {
            Delivery::Resolved { resolver, body } => DeliveryView::Resolved { resolver, body },
            Delivery::Unmatched { request_id } => DeliveryView::Unmatched {
                request_id: request_id@,
            },
        }
    }
}

/// Why an inbound frame was not dispatched.
#[derive(Clone, Copy, Debug, PartialEq, Eq, Structural)]
pub enum DispatchError {
    /// The frame did not decode to a response envelope.
    Malformed,
    /// No connection state is installed.
    NotInitialized,
}

/// What the dispatch of `response` yields on the registry `pending`.
pub open spec fn delivery_of(pending: Map<Seq<char>, Resolver>, response: ResponseView) -> DeliveryView {
    match response {
        ResponseView::Sum { request_id, body } => match resolved(pending, request_id) {
            Some(resolver) => DeliveryView::Resolved { resolver, body },
            None => DeliveryView::Unmatched { request_id },
        },
    }
}

/// What the dispatch of a frame yields: `decoded` is what the frame holds,
/// `set` whether a connection state is installed, `pending` its registry.
pub open spec fn dispatch_outcome(
    set: bool,
    pending: Map<Seq<char>, Resolver>,
    decoded: Option<ResponseView>,
) -> Result<DeliveryView, DispatchError> {
    match decoded {
        None => Err(DispatchError::Malformed),
        Some(response) => if set {
            Ok(delivery_of(pending, response))
        } else {
            Err(DispatchError::NotInitialized)
        },
    }
}

/// The registry after the dispatch of a frame that holds `decoded`.
pub open spec fn dispatch_pending(
    pending: Map<Seq<char>, Resolver>,
    decoded: Option<ResponseView>,
) -> Map<Seq<char>, Resolver> {
    match decoded {
        None => pending,
        Some(response) => removed(pending, response.id()),
    }
}

/// The outcome of a dispatch, as plain mathematical values.
pub open spec fn delivery_view(outcome: Result<Delivery, DispatchError>) -> Result<
    DeliveryView,
    DispatchError,
> {
    match outcome {
        Ok(delivery) => Ok(delivery@),
        Err(error) => Err(error),
    }
}

/// Routes one inbound frame, given as the codec decoded it (`None` for a
/// frame that holds no response), to the call that waits for it.
///
/// A malformed frame is dropped and touches nothing, and so is a response
/// that comes before initialization. Otherwise the entry under the
/// response's id leaves the registry in this same step, and the
/// completion that was registered there is handed back together with the
/// body; a response that matches nothing changes nothing.
pub fn dispatch_response(cell: &mut GlobalCell, decoded: Option<Response>) -> (outcome: Result<
    Delivery,
    DispatchError,
>)
    ensures
        delivery_view(outcome) == dispatch_outcome(
            old(cell).is_set(),
            old(cell).state().pending(),
            response_view(decoded),
        ),
        final(cell).is_set() == old(cell).is_set(),
        decoded is None || !old(cell).is_set() ==> *final(cell) == *old(cell),
        old(cell).is_set() ==> final(cell).state().websocket == old(cell).state().websocket,
        old(cell).is_set() ==> final(cell).state().pending() == dispatch_pending(
            old(cell).state().pending(),
            response_view(decoded),
        ),
        !(outcome is Ok && outcome->Ok_0 is Resolved) && old(cell).is_set() ==> final(
            cell).state().pending() == old(cell).state().pending(),
{
    match decoded {
        None => Err(DispatchError::Malformed),
        Some(Response::Sum { request_id, body }) => match &mut cell.slot {
            None => Err(DispatchError::NotInitialized),
            Some(state) => match state.resolve_and_remove(request_id.as_str()) {
                Some(resolver) => Ok(Delivery::Resolved { resolver, body }),
                None => Ok(Delivery::Unmatched { request_id }),
            },
        },
    }
}

/// Consumes one inbound frame: decodes it and routes the response to the
/// call that waits for it.
///
/// A frame that holds no response is dropped and touches nothing, and so
/// is a response that comes before initialization. For any other frame,
/// the entry under the response's id leaves the registry in this same
/// step and its completion is handed back with the body, to be resolved
/// once; a response that matches nothing changes nothing.
pub fn on_websocket_message(cell: &mut GlobalCell, payload: &Vec<u8>) -> (outcome: Result<
    Delivery,
    DispatchError,
>)
    ensures
        delivery_view(outcome) == dispatch_outcome(
            old(cell).is_set(),
            old(cell).state().pending(),
            response_of(unpacked_envelope(payload@)),
        ),
        final(cell).is_set() == old(cell).is_set(),
        response_of(unpacked_envelope(payload@)) is None || !old(cell).is_set() ==> *final(cell)
            == *old(cell),
        old(cell).is_set() ==> final(cell).state().websocket == old(cell).state().websocket,
        old(cell).is_set() ==> final(cell).state().pending() == dispatch_pending(
            old(cell).state().pending(),
            response_of(unpacked_envelope(payload@)),
        ),
        !(outcome is Ok && outcome->Ok_0 is Resolved) && old(cell).is_set() ==> final(
            cell).state().pending() == old(cell).state().pending(),
{
    let decoded = deserialize(payload);
    dispatch_response(cell, decoded)
}

/// What the start of a call yields: `set` says whether a connection state
/// is installed, `state` where its connection stands, `frame` what the
/// codec made of the request.
pub open spec fn call_outcome(set: bool, state: Lifecycle, frame: Option<Seq<u8>>) -> Result<
    Seq<u8>,
    CallError,
> {
    if !set {
        Err(CallError::NotInitialized)
    } else {
        match frame {
            None => Err(CallError::EncodeFailed),
            Some(bytes) => if state == Lifecycle::Open {
                Ok(bytes)
            } else {
                Err(CallError::SendFailed)
            },
        }
    }
}

/// The outcome of the start of a call, as plain mathematical values.
pub open spec fn call_view(outcome: Result<Vec<u8>, CallError>) -> Result<Seq<u8>, CallError> {
    match outcome {
        Ok(bytes) => Ok(bytes@),
        Err(error) => Err(error),
    }
}

/// Starts a call whose request the codec has turned into `frame` (`None`
/// where it refused): registers `resolver` under `request_id`, then
/// decides whether the frame goes out.
///
/// Before initialization the call fails and nothing is registered. After
/// it, the registration always happens, and happens before the frame is
/// released for sending; the frame is released, unchanged, exactly when
/// there is one and the connection is open. A call that fails after its
/// registration stays registered.
pub fn start_call(
    cell: &mut GlobalCell,
    request_id: &String,
    resolver: Resolver,
    frame: Option<Vec<u8>>,
) -> (outcome: Result<Vec<u8>, CallError>)
    ensures
        call_view(outcome) == call_outcome(
            old(cell).is_set(),
            old(cell).state().websocket.state,
            frame_view(frame),
        ),
        final(cell).is_set() == old(cell).is_set(),
        !old(cell).is_set() ==> *final(cell) == *old(cell),
        old(cell).is_set() ==> final(cell).state().websocket == old(cell).state().websocket,
        old(cell).is_set() ==> final(cell).state().pending() == registered(
            old(cell).state().pending(),
            request_id@,
            resolver,
        ),
{
    match &mut cell.slot {
        None => Err(CallError::NotInitialized),
        Some(state) => {
            state.register(request_id.clone(), resolver);
            match frame {
                None => Err(CallError::EncodeFailed),
                Some(bytes) => match state.websocket.send(bytes) {
                    Ok(released) => Ok(released),
                    Err(_) => Err(CallError::SendFailed),
                },
            }
        },
    }
}

/// Starts the call `request` under `request_id`: registers `resolver`,
/// encodes the request and decides whether the frame goes out.
///
/// Before initialization the call fails and nothing is registered. After
/// it, `resolver` is registered under `request_id` whatever follows, and
/// the request's frame is released for sending exactly when the codec
/// made one and the connection is open.
pub fn call_websocket_api(
    cell: &mut GlobalCell,
    request_id: &String,
    request: &Request,
    resolver: Resolver,
) -> (outcome: Result<Vec<u8>, CallError>)
    ensures
        call_view(outcome) == call_outcome(
            old(cell).is_set(),
            old(cell).state().websocket.state,
            request_frame(request@),
        ),
        final(cell).is_set() == old(cell).is_set(),
        !old(cell).is_set() ==> *final(cell) == *old(cell),
        old(cell).is_set() ==> final(cell).state().websocket == old(cell).state().websocket,
        old(cell).is_set() ==> final(cell).state().pending() == registered(
            old(cell).state().pending(),
            request_id@,
            resolver,
        ),
{
    let frame = serialize(request);
    start_call(cell, request_id, resolver, frame)
}

/// Ends a call whose frame was released for sending: `sent` says whether
/// the transport took the frame, `settled` what the completion was settled
/// with (`None` for a rejection).
///
/// A frame that the transport refused fails the call without a wait;
/// otherwise the call returns the body it was resolved with.
pub fn complete_call(sent: bool, settled: Option<SumResponse>) -> (outcome: Result<
    SumResponse,
    CallError,
>)
    ensures
        !sent ==> outcome == Err::<SumResponse, CallError>(CallError::SendFailed),
        sent && settled is None ==> outcome == Err::<SumResponse, CallError>(
            CallError::ResolveFailed,
        ),
        sent && settled is Some ==> outcome == Ok::<SumResponse, CallError>(settled->0),
{
    if !sent {
        Err(CallError::SendFailed)
    } else {
        match settled {
            Some(body) => Ok(body),
            None => Err(CallError::ResolveFailed),
        }
    }
}

} // verus!
