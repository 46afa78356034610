use ws_rpc_client::connection::{Connection, Lifecycle, SendError, TransportEvent};
use ws_rpc_client::global_state::{get_global_state, init, GlobalCell, GlobalState, Resolver, StateError};
use ws_rpc_client::messagepack_helpers::{deserialize, response_from_fields, serialize};
use ws_rpc_client::requests::{Request, SumRequest};
use ws_rpc_client::responses::{Response, SumResponse};
use ws_rpc_client::websocket_api::{
    call_websocket_api, complete_call, dispatch_response, on_websocket_message, start_call,
    CallError, Delivery, DispatchError,
};
use ws_rpc_client::{init_websocket, sum, InitError};

fn open_cell() -> GlobalCell {
    let mut cell = GlobalCell::new();
    assert_eq!(init_websocket(&mut cell, TransportEvent::Opened), Ok(true));
    cell
}

fn pending_count(cell: &GlobalCell) -> usize {
    get_global_state(cell).ok().unwrap().pending_count()
}

fn request_fields(frame: &[u8]) -> (String, String, Vec<usize>) {
    rmp_serde::from_slice::<(String, String, Vec<usize>)>(frame).unwrap()
}

fn response_frame(operation: &str, request_id: &str, sum: u64) -> Vec<u8> {
    rmp_serde::to_vec(&(operation, request_id, sum)).unwrap()
}

#[test]
fn out_of_order_responses_reach_their_own_callers() {
    let mut cell = open_cell();
    let x_frame = sum(&mut cell, &[1, 2], Resolver { handle: 1 }).unwrap();
    let y_frame = sum(&mut cell, &[10, 20], Resolver { handle: 2 }).unwrap();
    let (_, x, x_operands) = request_fields(&x_frame);
    let (_, y, y_operands) = request_fields(&y_frame);
    assert_eq!(x_operands, vec![1, 2]);
    assert_eq!(y_operands, vec![10, 20]);
    assert_ne!(x, y);
    assert_eq!(pending_count(&cell), 2);

    let first = on_websocket_message(&mut cell, &response_frame("Sum", &y, 30));
    assert_eq!(
        first,
        Ok(Delivery::Resolved { resolver: Resolver { handle: 2 }, body: SumResponse { sum: 30 } })
    );
    assert_eq!(pending_count(&cell), 1);
    assert!(get_global_state(&cell).ok().unwrap().is_pending(&x));

    let second = on_websocket_message(&mut cell, &response_frame("Sum", &x, 3));
    assert_eq!(
        second,
        Ok(Delivery::Resolved { resolver: Resolver { handle: 1 }, body: SumResponse { sum: 3 } })
    );
    assert_eq!(pending_count(&cell), 0);
}

#[test]
fn stray_response_changes_nothing_and_later_call_works() {
    let mut cell = open_cell();
    let known = "known".to_string();
    let request = Request::sum(known.clone(), &[4]);
    call_websocket_api(&mut cell, &known, &request, Resolver { handle: 9 }).unwrap();

    let stray = on_websocket_message(&mut cell, &response_frame("Sum", "never-registered", 1));
    assert_eq!(stray, Ok(Delivery::Unmatched { request_id: "never-registered".to_string() }));
    assert_eq!(pending_count(&cell), 1);
    assert!(get_global_state(&cell).ok().unwrap().is_pending("known"));

    let frame = sum(&mut cell, &[5, 6], Resolver { handle: 10 }).unwrap();
    let (_, id, _) = request_fields(&frame);
    assert_eq!(
        on_websocket_message(&mut cell, &response_frame("Sum", &id, 11)),
        Ok(Delivery::Resolved { resolver: Resolver { handle: 10 }, body: SumResponse { sum: 11 } })
    );
    assert_eq!(pending_count(&cell), 1);
}

#[test]
fn failed_initialization_leaves_calls_uninitialized() {
    let mut cell = GlobalCell::new();
    assert_eq!(init_websocket(&mut cell, TransportEvent::Error), Err(InitError::TransportFailed));
    assert!(!cell.is_initialized());
    assert_eq!(get_global_state(&cell).err(), Some(StateError::NotSet));
    assert_eq!(sum(&mut cell, &[1, 2], Resolver { handle: 1 }), Err(CallError::NotInitialized));
    assert!(!cell.is_initialized());
}

#[test]
fn handshake_ends_only_on_opened() {
    for event in [TransportEvent::Connect, TransportEvent::Error, TransportEvent::Closed] {
        let mut cell = GlobalCell::new();
        assert_eq!(init_websocket(&mut cell, event), Err(InitError::TransportFailed));
        assert!(!cell.is_initialized());
    }
}

#[test]
fn call_before_initialization_fails() {
    let mut cell = GlobalCell::new();
    let id = "a".to_string();
    let request = Request::sum(id.clone(), &[1]);
    assert_eq!(
        call_websocket_api(&mut cell, &id, &request, Resolver { handle: 1 }),
        Err(CallError::NotInitialized)
    );
    assert_eq!(
        start_call(&mut cell, &id, Resolver { handle: 1 }, Some(vec![1, 2, 3])),
        Err(CallError::NotInitialized)
    );
    assert!(!cell.is_initialized());
}

#[test]
fn duplicate_response_is_a_noop() {
    let mut cell = open_cell();
    let keep = "keep".to_string();
    let once = "once".to_string();
    start_call(&mut cell, &keep, Resolver { handle: 1 }, Some(vec![0])).unwrap();
    start_call(&mut cell, &once, Resolver { handle: 2 }, Some(vec![0])).unwrap();
    let frame = response_frame("Sum", "once", 7);
    assert_eq!(
        on_websocket_message(&mut cell, &frame),
        Ok(Delivery::Resolved { resolver: Resolver { handle: 2 }, body: SumResponse { sum: 7 } })
    );
    assert_eq!(pending_count(&cell), 1);
    assert_eq!(
        on_websocket_message(&mut cell, &frame),
        Ok(Delivery::Unmatched { request_id: once.clone() })
    );
    assert_eq!(pending_count(&cell), 1);
    assert!(get_global_state(&cell).ok().unwrap().is_pending("keep"));
}

#[test]
fn malformed_frame_is_dropped() {
    let mut cell = open_cell();
    let id = "waiting".to_string();
    start_call(&mut cell, &id, Resolver { handle: 3 }, Some(vec![0])).unwrap();
    assert_eq!(on_websocket_message(&mut cell, &vec![0xc1, 0x00]), Err(DispatchError::Malformed));
    assert_eq!(on_websocket_message(&mut cell, &vec![]), Err(DispatchError::Malformed));
    assert_eq!(
        on_websocket_message(&mut cell, &rmp_serde::to_vec(&("Sum", 5u64)).unwrap()),
        Err(DispatchError::Malformed)
    );
    assert_eq!(dispatch_response(&mut cell, None), Err(DispatchError::Malformed));
    assert_eq!(pending_count(&cell), 1);
    assert_eq!(
        on_websocket_message(&mut cell, &response_frame("Sum", "waiting", 1)),
        Ok(Delivery::Resolved { resolver: Resolver { handle: 3 }, body: SumResponse { sum: 1 } })
    );
}

#[test]
fn unknown_operation_is_malformed() {
    let mut cell = open_cell();
    let id = "waiting".to_string();
    start_call(&mut cell, &id, Resolver { handle: 3 }, Some(vec![0])).unwrap();
    assert_eq!(
        on_websocket_message(&mut cell, &response_frame("Product", "waiting", 1)),
        Err(DispatchError::Malformed)
    );
    assert_eq!(pending_count(&cell), 1);
    assert_eq!(deserialize(&response_frame("sum", "waiting", 1)), None);
    assert_eq!(response_from_fields(Some(("Sum ".to_string(), "w".to_string(), 1))), None);
    assert_eq!(response_from_fields(None), None);
}

#[test]
fn response_before_initialization_is_refused() {
    let mut cell = GlobalCell::new();
    assert_eq!(
        on_websocket_message(&mut cell, &response_frame("Sum", "a", 1)),
        Err(DispatchError::NotInitialized)
    );
    assert_eq!(on_websocket_message(&mut cell, &vec![0xc1]), Err(DispatchError::Malformed));
    assert!(!cell.is_initialized());
}

#[test]
fn request_frame_is_the_packed_triple() {
    let request = Request::sum("ab".to_string(), &[1, 2]);
    let frame = serialize(&request).unwrap();
    assert_eq!(
        frame,
        vec![0x93, 0xa3, b'S', b'u', b'm', 0xa2, b'a', b'b', 0x92, 0x01, 0x02]
    );
    assert_eq!(request_fields(&frame), ("Sum".to_string(), "ab".to_string(), vec![1, 2]));
}

#[test]
fn envelopes_survive_the_codec() {
    for operands in [vec![], vec![0], vec![1, 2, 3], vec![usize::MAX, 70000, 255, 256]] {
        let request = Request::sum("3f2c-id".to_string(), &operands);
        let frame = serialize(&request).unwrap();
        let (operation, request_id, decoded) = request_fields(&frame);
        assert_eq!(operation, "Sum");
        assert_eq!(Request::sum(request_id, &decoded), request);
    }
    for sum in [0u64, 1, 127, 128, 65536, u64::MAX] {
        let response = Response::sum("some id".to_string(), sum);
        assert_eq!(deserialize(&response_frame("Sum", "some id", sum)), Some(response));
    }
    assert_eq!(
        deserialize(&vec![0x93, 0xa3, b'S', b'u', b'm', 0xa1, b'q', 0x2a]),
        Some(Response::Sum { request_id: "q".to_string(), body: SumResponse { sum: 42 } })
    );
}

#[test]
fn envelope_builders_fill_every_field() {
    let request = Request::sum("r".to_string(), &[7, 8]);
    assert_eq!(
        request,
        Request::Sum { request_id: "r".to_string(), body: SumRequest { operands: vec![7, 8] } }
    );
    assert_eq!(request.request_id(), "r");
    assert_eq!(
        Response::sum("r".to_string(), 15),
        Response::Sum { request_id: "r".to_string(), body: SumResponse { sum: 15 } }
    );
}

#[test]
fn fresh_ids_have_the_hyphenated_shape_and_differ() {
    let mut cell = open_cell();
    let mut seen: Vec<String> = Vec::new();
    for handle in 0..16u64 {
        let frame = sum(&mut cell, &[1], Resolver { handle }).unwrap();
        let (operation, id, _) = request_fields(&frame);
        assert_eq!(operation, "Sum");
        assert_eq!(id.len(), 36);
        for (i, c) in id.chars().enumerate() {
            if i == 8 || i == 13 || i == 18 || i == 23 {
                assert_eq!(c, '-');
            } else {
                assert!(matches!(c, '0'..='9' | 'a'..='f'));
            }
        }
        assert!(get_global_state(&cell).ok().unwrap().is_pending(&id));
        assert!(!seen.contains(&id));
        seen.push(id);
    }
    assert_eq!(pending_count(&cell), 16);
}

#[test]
fn failed_send_leaves_the_call_registered() {
    let mut cell = open_cell();
    cell.on_transport_event(TransportEvent::Closed);
    assert_eq!(get_global_state(&cell).ok().unwrap().websocket.state(), Lifecycle::Closed);
    assert_eq!(sum(&mut cell, &[1, 2], Resolver { handle: 1 }), Err(CallError::SendFailed));
    assert_eq!(pending_count(&cell), 1);
    let id = "late".to_string();
    assert_eq!(
        start_call(&mut cell, &id, Resolver { handle: 2 }, None),
        Err(CallError::EncodeFailed)
    );
    assert_eq!(pending_count(&cell), 2);
    assert_eq!(
        on_websocket_message(&mut cell, &response_frame("Sum", "late", 1)),
        Ok(Delivery::Resolved { resolver: Resolver { handle: 2 }, body: SumResponse { sum: 1 } })
    );
}

#[test]
fn encode_failure_is_reported_on_an_open_connection() {
    let mut cell = open_cell();
    let id = "e".to_string();
    assert_eq!(
        start_call(&mut cell, &id, Resolver { handle: 2 }, None),
        Err(CallError::EncodeFailed)
    );
    assert_eq!(
        start_call(&mut cell, &id, Resolver { handle: 3 }, Some(vec![9, 8])),
        Ok(vec![9, 8])
    );
    assert_eq!(pending_count(&cell), 1);
    assert_eq!(
        dispatch_response(&mut cell, Some(Response::sum(id.clone(), 4))),
        Ok(Delivery::Resolved { resolver: Resolver { handle: 3 }, body: SumResponse { sum: 4 } })
    );
}

#[test]
fn call_completion_maps_each_outcome() {
    assert_eq!(complete_call(false, None), Err(CallError::SendFailed));
    assert_eq!(complete_call(false, Some(SumResponse { sum: 1 })), Err(CallError::SendFailed));
    assert_eq!(complete_call(true, None), Err(CallError::ResolveFailed));
    assert_eq!(complete_call(true, Some(SumResponse { sum: 3 })), Ok(SumResponse { sum: 3 }));
}

#[test]
fn first_initialization_is_final() {
    let mut cell = GlobalCell::new();
    assert!(!cell.is_initialized());
    assert_eq!(init_websocket(&mut cell, TransportEvent::Opened), Ok(true));
    let id = "p".to_string();
    start_call(&mut cell, &id, Resolver { handle: 1 }, Some(vec![1])).unwrap();
    assert_eq!(init_websocket(&mut cell, TransportEvent::Opened), Ok(true));
    assert_eq!(pending_count(&cell), 1);
    init(&mut cell, Connection::new());
    assert_eq!(pending_count(&cell), 1);
    assert_eq!(get_global_state(&cell).ok().unwrap().websocket.state(), Lifecycle::Open);
    assert_eq!(init_websocket(&mut cell, TransportEvent::Error), Err(InitError::TransportFailed));
    assert_eq!(pending_count(&cell), 1);
}

#[test]
fn registry_registers_resolves_and_removes() {
    let mut state = GlobalState::new(Connection::new());
    assert_eq!(state.pending_count(), 0);
    state.register("a".to_string(), Resolver { handle: 1 });
    state.register("b".to_string(), Resolver { handle: 2 });
    state.register("a".to_string(), Resolver { handle: 3 });
    assert_eq!(state.pending_count(), 2);
    assert!(state.is_pending("a"));
    assert!(!state.is_pending("c"));
    assert_eq!(state.resolve_and_remove("c"), None);
    assert_eq!(state.resolve_and_remove("a"), Some(Resolver { handle: 3 }));
    assert_eq!(state.resolve_and_remove("a"), None);
    assert_eq!(state.pending_count(), 1);
    assert_eq!(state.resolve_and_remove("b"), Some(Resolver { handle: 2 }));
    assert_eq!(state.pending_count(), 0);
}

#[test]
fn lifecycle_follows_the_transport() {
    let mut connection = Connection::new();
    assert_eq!(connection.state(), Lifecycle::Uninitialized);
    assert_eq!(connection.send(vec![1]), Err(SendError::NotOpen));
    connection.on_event(TransportEvent::Opened);
    assert_eq!(connection.state(), Lifecycle::Uninitialized);
    connection.on_event(TransportEvent::Connect);
    assert_eq!(connection.state(), Lifecycle::Connecting);
    assert!(!connection.is_open());
    assert_eq!(connection.send(vec![1]), Err(SendError::NotOpen));
    connection.on_event(TransportEvent::Opened);
    assert_eq!(connection.state(), Lifecycle::Open);
    assert!(connection.is_open());
    assert_eq!(connection.send(vec![1, 2]), Ok(vec![1, 2]));
    connection.on_event(TransportEvent::Connect);
    assert_eq!(connection.state(), Lifecycle::Open);
    connection.on_event(TransportEvent::Error);
    assert_eq!(connection.state(), Lifecycle::Closed);
    for event in [
        TransportEvent::Connect,
        TransportEvent::Opened,
        TransportEvent::Error,
        TransportEvent::Closed,
    ] {
        connection.on_event(event);
        assert_eq!(connection.state(), Lifecycle::Closed);
    }
    assert_eq!(connection.send(vec![1]), Err(SendError::NotOpen));
}

#[test]
fn error_while_connecting_closes() {
    let mut connection = Connection::new();
    connection.on_event(TransportEvent::Connect);
    connection.on_event(TransportEvent::Error);
    assert_eq!(connection.state(), Lifecycle::Closed);
    let mut other = Connection::new();
    other.on_event(TransportEvent::Connect);
    other.on_event(TransportEvent::Closed);
    assert_eq!(other.state(), Lifecycle::Closed);
}

#[test]
fn many_calls_resolve_in_any_order() {
    let mut cell = open_cell();
    let ids: Vec<String> = (0..8).map(|i| format!("call-{i}")).collect();
    for (i, id) in ids.iter().enumerate() {
        let request = Request::sum(id.clone(), &[i]);
        call_websocket_api(&mut cell, id, &request, Resolver { handle: i as u64 }).unwrap();
    }
    for i in [5usize, 0, 7, 2, 3, 6, 1, 4] {
        assert_eq!(
            on_websocket_message(&mut cell, &response_frame("Sum", &ids[i], i as u64 * 2)),
            Ok(Delivery::Resolved {
                resolver: Resolver { handle: i as u64 },
                body: SumResponse { sum: i as u64 * 2 }
            })
        );
    }
    assert_eq!(pending_count(&cell), 0);
}

#[test]
fn failures_have_their_texts() {
    assert_eq!(CallError::NotInitialized.message(), "GLOBAL_STATE not set");
    assert_eq!(CallError::EncodeFailed.message(), "failed to encode");
    assert_eq!(CallError::SendFailed.message(), "failed to send");
    assert_eq!(CallError::ResolveFailed.message(), "failed to resolve");
    assert_eq!(StateError::NotSet.message(), "GLOBAL_STATE not set");
}

#[test]
fn transport_event_before_initialization_is_ignored() {
    let mut cell = GlobalCell::new();
    cell.on_transport_event(TransportEvent::Opened);
    assert!(!cell.is_initialized());
    let mut cell = open_cell();
    cell.on_transport_event(TransportEvent::Error);
    assert_eq!(get_global_state(&cell).ok().unwrap().websocket.state(), Lifecycle::Closed);
    cell.on_transport_event(TransportEvent::Opened);
    assert_eq!(get_global_state(&cell).ok().unwrap().websocket.state(), Lifecycle::Closed);
}
