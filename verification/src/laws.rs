//! What holds of the registry across several calls and responses.

use vstd::prelude::*;
use crate::global_state::Resolver;
use crate::global_state::registered;
use crate::global_state::removed;
use crate::global_state::resolved;
use crate::responses::ResponseView;
use crate::responses::SumResponse;
use crate::websocket_api::DeliveryView;
use crate::websocket_api::delivery_of;
use crate::websocket_api::dispatch_pending;

verus! {

/// One outstanding call: its correlation id and its completion.
pub struct Call {
    pub request_id: Seq<char>,
    pub resolver: Resolver,
}

/// The registry after every call of `calls` was registered, first to last.
pub open spec fn register_all(pending: Map<Seq<char>, Resolver>, calls: Seq<Call>) -> Map<
    Seq<char>,
    Resolver,
>
    decreases calls.len(),
{
    if calls.len() == 0 {
        pending
    } else {
        registered(
            register_all(pending, calls.drop_last()),
            calls.last().request_id,
            calls.last().resolver,
        )
    }
}

/// The registry after a response arrived for every id of `arrivals`, first
/// to last.
pub open spec fn dispatch_all(pending: Map<Seq<char>, Resolver>, arrivals: Seq<Seq<char>>) -> Map<
    Seq<char>,
    Resolver,
>
    decreases arrivals.len(),
{
    if arrivals.len() == 0 {
        pending
    } else {
        removed(dispatch_all(pending, arrivals.drop_last()), arrivals.last())
    }
}

/// No two calls of `calls` share a correlation id.
pub open spec fn distinct_ids(calls: Seq<Call>) -> bool {
    forall|i: int, j: int|
        0 <= i < j < calls.len() ==> (#[trigger] calls[i]).request_id != (
        #[trigger] calls[j]).request_id
}

/// Each index of `order` names a call of `calls`, and none comes twice.
pub open spec fn is_arrival_order(order: Seq<int>, calls: Seq<Call>) -> bool {
    &&& forall|k: int| 0 <= k < order.len() ==> 0 <= #[trigger] order[k] < calls.len()
    &&& forall|k: int, l: int| 0 <= k < l < order.len() ==> #[trigger] order[k] != #[trigger] order[l]
}

/// The ids of the first `k` responses of an arrival order.
pub open spec fn arrived(calls: Seq<Call>, order: Seq<int>, k: int) -> Seq<Seq<char>> {
    Seq::new(k as nat, |l: int| calls[order[l]].request_id)
}

/// After calls with distinct ids were registered, each id holds the
/// completion of its own call.
pub proof fn lemma_registered_calls(pending: Map<Seq<char>, Resolver>, calls: Seq<Call>, i: int)
    requires
        distinct_ids(calls),
        0 <= i < calls.len(),
    ensures
        resolved(register_all(pending, calls), calls[i].request_id) == Some(calls[i].resolver),
    decreases calls.len(),
{
    let n = calls.len() - 1;
    if i < n {
        let before = calls.drop_last();
        assert(before[i] == calls[i]);
        assert(distinct_ids(before)) by {
            assert forall|a: int, b: int| 0 <= a < b < before.len() implies (
            #[trigger] before[a]).request_id != (#[trigger] before[b]).request_id by {
                assert(before[a] == calls[a]);
                assert(before[b] == calls[b]);
            }
        }
        lemma_registered_calls(pending, before, i);
        assert(calls[i].request_id != calls[n].request_id);
    }
}

/// Responses for other ids leave the entry of an id as it is.
pub proof fn lemma_other_arrivals_keep_entry(
    pending: Map<Seq<char>, Resolver>,
    arrivals: Seq<Seq<char>>,
    request_id: Seq<char>,
)
    requires
        forall|l: int| 0 <= l < arrivals.len() ==> #[trigger] arrivals[l] != request_id,
    ensures
        resolved(dispatch_all(pending, arrivals), request_id) == resolved(pending, request_id),
    decreases arrivals.len(),
{
    if arrivals.len() > 0 {
        let before = arrivals.drop_last();
        assert forall|l: int| 0 <= l < before.len() implies #[trigger] before[l] != request_id by {
            assert(before[l] == arrivals[l]);
        }
        lemma_other_arrivals_keep_entry(pending, before, request_id);
        assert(arrivals.last() == arrivals[arrivals.len() - 1]);
    }
}

/// Calls with distinct ids are paired with their own responses whatever
/// the order of arrival: when the `k`-th response comes in, after the
/// responses before it were dispatched, it resolves the completion of the
/// call whose id it carries, with the body it carries, and no other.
pub proof fn lemma_each_call_resolves_its_own(
    pending: Map<Seq<char>, Resolver>,
    calls: Seq<Call>,
    order: Seq<int>,
    k: int,
    body: SumResponse,
)
    requires
        distinct_ids(calls),
        is_arrival_order(order, calls),
        0 <= k < order.len(),
    ensures
        resolved(
            dispatch_all(register_all(pending, calls), arrived(calls, order, k)),
            calls[order[k]].request_id,
        ) == Some(calls[order[k]].resolver),
        delivery_of(
            dispatch_all(register_all(pending, calls), arrived(calls, order, k)),
            ResponseView::Sum { request_id: calls[order[k]].request_id, body },
        ) == (DeliveryView::Resolved { resolver: calls[order[k]].resolver, body }),
{
    let earlier = arrived(calls, order, k);
    let request_id = calls[order[k]].request_id;
    assert forall|l: int| 0 <= l < earlier.len() implies #[trigger] earlier[l] != request_id by {
        assert(order[l] != order[k]);
        if order[l] < order[k] {
            assert(calls[order[l]].request_id != calls[order[k]].request_id);
        } else {
            assert(calls[order[k]].request_id != calls[order[l]].request_id);
        }
    }
    lemma_other_arrivals_keep_entry(register_all(pending, calls), earlier, request_id);
    lemma_registered_calls(pending, calls, order[k]);
}

/// A second response for an id that was resolved and removed finds
/// nothing to resolve and leaves the registry, and so its size, as it is.
pub proof fn lemma_second_response_is_noop(
    pending: Map<Seq<char>, Resolver>,
    request_id: Seq<char>,
    body: SumResponse,
)
    ensures
        resolved(removed(pending, request_id), request_id) is None,
        delivery_of(removed(pending, request_id), ResponseView::Sum { request_id, body }) == (
        DeliveryView::Unmatched { request_id }),
        dispatch_pending(
            removed(pending, request_id),
            Some(ResponseView::Sum { request_id, body }),
        ) == removed(pending, request_id),
        removed(removed(pending, request_id), request_id) == removed(pending, request_id),
        removed(removed(pending, request_id), request_id).len() == removed(
            pending,
            request_id,
        ).len(),
{
    assert(removed(removed(pending, request_id), request_id) =~= removed(pending, request_id));
}

/// A response for an id that was never registered finds nothing to
/// resolve and leaves the registry as it is.
pub proof fn lemma_unknown_response_is_noop(pending: Map<Seq<char>, Resolver>, request_id: Seq<char>)
    requires
        !pending.contains_key(request_id),
    ensures
        resolved(pending, request_id) is None,
        removed(pending, request_id) == pending,
{
    assert(removed(pending, request_id) =~= pending);
}

/// Registering a call and dispatching its response leaves every other
/// pending call as it was, and hands back the completion just registered.
pub proof fn lemma_register_then_resolve(
    pending: Map<Seq<char>, Resolver>,
    request_id: Seq<char>,
    resolver: Resolver,
)
    requires
        !pending.contains_key(request_id),
    ensures
        resolved(registered(pending, request_id, resolver), request_id) == Some(resolver),
        removed(registered(pending, request_id, resolver), request_id) == pending,
{
    assert(removed(registered(pending, request_id, resolver), request_id) =~= pending);
}

} // verus!
