//! The connection state: the connection and the registry of pending
//! completions, kept together as one unit.

use vstd::prelude::*;
use vstd::hash_map::StringHashMap;
use crate::connection::Connection;
use crate::connection::TransportEvent;
use crate::connection::lifecycle_step;

verus! {

/// Handle of a pending completion: the one-shot resolver a caller waits on.
#[derive(Clone, Copy, Debug, PartialEq, Eq, Structural)]
pub struct Resolver {
    pub handle: u64,
}

/// The registry after `resolver` is registered under `request_id`.
pub open spec fn registered(
    pending: Map<Seq<char>, Resolver>,
    request_id: Seq<char>,
    resolver: Resolver,
) -> Map<Seq<char>, Resolver> {
    pending.insert(request_id, resolver)
}

/// The completion that a response for `request_id` resolves, if any.
pub open spec fn resolved(pending: Map<Seq<char>, Resolver>, request_id: Seq<char>) -> Option<
    Resolver,
> {
    if pending.contains_key(request_id) {
        Some(pending[request_id])
    } else {
        None
    }
}

/// The registry after a response for `request_id` was dispatched.
pub open spec fn removed(pending: Map<Seq<char>, Resolver>, request_id: Seq<char>) -> Map<
    Seq<char>,
    Resolver,
> {
    pending.remove(request_id)
}

/// The connection together with the calls that wait on it.
pub struct GlobalState {
    pub websocket: Connection,
    pub pending_requests: StringHashMap<Resolver>,
}

impl GlobalState {
    /// The registry as a map from correlation id to completion.
    pub open spec fn pending(&self) -> Map<Seq<char>, Resolver> {
        self.pending_requests@
    }

    /// A state around `websocket` with no call pending.
    pub fn new(websocket: Connection) -> (state: GlobalState)
        ensures
            state.websocket == websocket,
            state.pending() == Map::<Seq<char>, Resolver>::empty(),
    {
        GlobalState { websocket, pending_requests: StringHashMap::new() }
    }

    /// Records `resolver` as the completion of the call `request_id`. An
    /// entry already under that id is replaced.
    pub fn register(&mut self, request_id: String, resolver: Resolver)
        ensures
            final(self).pending() == registered(old(self).pending(), request_id@, resolver),
            final(self).websocket == old(self).websocket,
    {
        self.pending_requests.insert(request_id, resolver);
    }

    /// Takes the completion registered under `request_id` out of the
    /// registry and hands it back for its one resolution; `None`, and no
    /// change, where nothing is registered under that id.
    pub fn resolve_and_remove(&mut self, request_id: &str) -> (resolver: Option<Resolver>)
        ensures
            resolver == resolved(old(self).pending(), request_id@),
            final(self).pending() == removed(old(self).pending(), request_id@),
            resolver is None ==> final(self).pending() == old(self).pending(),
            final(self).websocket == old(self).websocket,
    {
        let found = match self.pending_requests.get(request_id) {
            Some(resolver) => Some(*resolver),
            None => None,
        };
        self.pending_requests.remove(request_id);
        proof {
            if found is None {
                assert(old(self).pending().remove(request_id@) =~= old(self).pending());
            }
        }
        found
    }

    /// Whether a call is waiting under `request_id`.
    pub fn is_pending(&self, request_id: &str) -> (waiting: bool)
        ensures
            waiting == self.pending().contains_key(request_id@),
    {
        self.pending_requests.contains_key(request_id)
    }

    /// How many calls are waiting, abandoned ones included.
    pub fn pending_count(&self) -> (count: usize)
        ensures
            count == self.pending().len(),
    {
        self.pending_requests.len()
    }

    /// Records a transport event on the connection; the registry is left
    /// as it is, so calls pending on a closed connection stay abandoned.
    pub fn on_transport_event(&mut self, event: TransportEvent)
        ensures
            final(self).websocket.state == lifecycle_step(old(self).websocket.state, event),
            final(self).pending() == old(self).pending(),
    {
        self.websocket.on_event(event);
    }
}

/// Why the connection state could not be had.
#[derive(Clone, Copy, Debug, PartialEq, Eq, Structural)]
pub enum StateError {
    NotSet,
}

impl StateError {
    /// The text of the failure.
    pub open spec fn text(&self) -> Seq<char> {
        "GLOBAL_STATE not set"@
    }

    /// The text of the failure, as it is shown to the caller.
    pub fn message(&self) -> (message: String)
        ensures
            message@ == self.text(),
    {
        "GLOBAL_STATE not set".to_string()
    }
}

/// The place of the one connection state: empty until `init` fills it.
pub struct GlobalCell {
    pub slot: Option<GlobalState>,
}

impl GlobalCell {
    /// Whether a connection state is installed.
    pub open spec fn is_set(&self) -> bool {
        self.slot is Some
    }

    /// The installed connection state.
    pub open spec fn state(&self) -> GlobalState
        recommends
            self.is_set(),
    {
        self.slot->0
    }

    /// An empty cell.
    pub fn new() -> (cell: GlobalCell)
        ensures
            !cell.is_set(),
    {
        GlobalCell { slot: None }
    }

    /// Whether a connection state is installed.
    pub fn is_initialized(&self) -> (set: bool)
        ensures
            set == self.is_set(),
    {
        self.slot.is_some()
    }

    /// Records a transport event on the installed connection; before any
    /// installation there is nothing to record it on. The registry is left
    /// as it is either way.
    pub fn on_transport_event(&mut self, event: TransportEvent)
        ensures
            final(self).is_set() == old(self).is_set(),
            !old(self).is_set() ==> *final(self) == *old(self),
            old(self).is_set() ==> final(self).state().websocket.state == lifecycle_step(
                old(self).state().websocket.state,
                event,
            ),
            old(self).is_set() ==> final(self).state().pending() == old(self).state().pending(),
    {
        match &mut self.slot {
            Some(state) => state.on_transport_event(event),
            None => {},
        }
    }
}

/// The installed connection state, or `NotSet` before any `init`.
pub fn get_global_state(cell: &GlobalCell) -> (state: Result<&GlobalState, StateError>)
    ensures
        cell.is_set() ==> state is Ok && *state->Ok_0 == cell.state(),
        !cell.is_set() ==> state == Err::<&GlobalState, StateError>(StateError::NotSet),
{
    match &cell.slot {
        Some(state) => Ok(state),
        None => Err(StateError::NotSet),
    }
}

/// Installs a connection state around `websocket` with an empty registry.
/// The first installation is final: on a cell that is set nothing changes.
pub fn init(cell: &mut GlobalCell, websocket: Connection)
    ensures
        final(cell).is_set(),
        old(cell).is_set() ==> *final(cell) == *old(cell),
        !old(cell).is_set() ==> final(cell).state().websocket == websocket,
        !old(cell).is_set() ==> final(cell).state().pending() == Map::<Seq<char>, Resolver>::empty(),
{
    if cell.slot.is_none() {
        cell.slot = Some(GlobalState::new(websocket));
    }
}

} // verus!
