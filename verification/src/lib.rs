//! Request/response correlation for remote calls over one duplex connection.
//!
//! Every outgoing call is tagged with a fresh identifier and parked in a
//! registry of pending completions; every inbound response is routed back to
//! the completion registered under its identifier and resolves it exactly
//! once. The transport, the codec and the suspension of callers live outside
//! this crate: it decides, they perform.

pub mod connection;
pub mod global_state;
pub mod laws;
pub mod messagepack_helpers;
pub mod request_id;
pub mod requests;
pub mod responses;
pub mod websocket_api;

use vstd::prelude::*;
use crate::connection::Connection;
use crate::connection::Lifecycle;
use crate::connection::TransportEvent;
use crate::global_state::GlobalCell;
use crate::global_state::Resolver;
use crate::global_state::registered;
use crate::request_id::is_request_id;
use crate::requests::Request;
use crate::requests::RequestView;
use crate::messagepack_helpers::request_frame;
use crate::websocket_api::CallError;
use crate::websocket_api::call_outcome;
use crate::websocket_api::call_view;

verus! {

/// Why the connection was not set up.
#[derive(Clone, Copy, Debug, PartialEq, Eq, Structural)]
pub enum InitError {
    /// The transport did not become ready.
    TransportFailed,
}

/// Ends the handshake of a new connection with `event`, the report that
/// the transport answered the connection attempt with.
///
/// Only `Opened` makes the connection ready; it is then installed in
/// `cell`, unless a state is installed there already, which stays as it
/// is. On any other report the call fails and installs nothing.
pub fn init_websocket(cell: &mut GlobalCell, event: TransportEvent) -> (outcome: Result<
    bool,
    InitError,
>)
    ensures
        event == TransportEvent::Opened ==> outcome == Ok::<bool, InitError>(true),
        event == TransportEvent::Opened ==> final(cell).is_set(),
        event == TransportEvent::Opened && !old(cell).is_set() ==> final(cell).state().websocket.state == Lifecycle::Open,
        event == TransportEvent::Opened && !old(cell).is_set() ==> final(cell).state().pending()
            == Map::<Seq<char>, Resolver>::empty(),
        event != TransportEvent::Opened ==> outcome == Err::<bool, InitError>(
            InitError::TransportFailed,
        ),
        event != TransportEvent::Opened || old(cell).is_set() ==> *final(cell) == *old(cell),
{
    let mut websocket = Connection::new();
    websocket.on_event(TransportEvent::Connect);
    websocket.on_event(event);
    if websocket.is_open() {
        global_state::init(cell, websocket);
        Ok(true)
    } else {
        Err(InitError::TransportFailed)
    }
}

/// Starts a `Sum` call over `operands`: draws a fresh correlation id,
/// builds the request envelope around it and starts the call with it.
///
/// Before initialization the call fails and nothing is registered.
/// After it, `resolver` is registered under the fresh id, whichever id was
/// drawn, and the frame of the envelope that carries that id and the
/// operands is released for sending exactly when the codec made one and
/// the connection is open.
pub fn sum(cell: &mut GlobalCell, operands: &[usize], resolver: Resolver) -> (outcome: Result<
    Vec<u8>,
    CallError,
>)
    ensures
        final(cell).is_set() == old(cell).is_set(),
        !old(cell).is_set() ==> outcome == Err::<Vec<u8>, CallError>(CallError::NotInitialized),
        !old(cell).is_set() ==> *final(cell) == *old(cell),
        old(cell).is_set() ==> final(cell).state().websocket == old(cell).state().websocket,
        old(cell).is_set() ==> exists|id: Seq<char>|
            {
                &&& is_request_id(id)
                &&& #[trigger] registered(old(cell).state().pending(), id, resolver) == final(
                    cell).state().pending()
                &&& call_view(outcome) == call_outcome(
                    true,
                    old(cell).state().websocket.state,
                    request_frame(RequestView::Sum { request_id: id, operands: operands@ }),
                )
            },
{
    let request_id = request_id::new_request_id();
    let request = Request::sum(request_id.clone(), operands);
    let outcome = websocket_api::call_websocket_api(cell, &request_id, &request, resolver);
    proof {
        if old(cell).is_set() {
            assert(registered(old(cell).state().pending(), request_id@, resolver) == final(
                cell).state().pending());
        }
    }
    outcome
}

} // verus!
