//! Lifecycle of the single duplex connection.

use vstd::prelude::*;

verus! {

/// Where a connection stands in its life.
#[derive(Clone, Copy, Debug, PartialEq, Eq, Structural)]
pub enum Lifecycle {
    Uninitialized,
    Connecting,
    Open,
    Closed,
}

/// What the transport reports about a connection.
#[derive(Clone, Copy, Debug, PartialEq, Eq, Structural)]
pub enum TransportEvent {
    /// The handshake has been started.
    Connect,
    /// The transport became ready.
    Opened,
    /// The transport reported an error.
    Error,
    /// The transport was closed.
    Closed,
}

/// Why a frame was not handed to the transport.
#[derive(Clone, Copy, Debug, PartialEq, Eq, Structural)]
pub enum SendError {
    NotOpen,
}

/// The lifecycle after `event` is observed in state `state`.
///
/// `Uninitialized → Connecting → Open → Closed`; an error or a close ends a
/// connection that was started, and events that do not apply are ignored.
pub open spec fn lifecycle_step(state: Lifecycle, event: TransportEvent) -> Lifecycle {
    match state {
        Lifecycle::Uninitialized => match event {
            TransportEvent::Connect => Lifecycle::Connecting,
            _ => Lifecycle::Uninitialized,
        },
        Lifecycle::Connecting => match event {
            TransportEvent::Connect => Lifecycle::Connecting,
            TransportEvent::Opened => Lifecycle::Open,
            _ => Lifecycle::Closed,
        },
        Lifecycle::Open => match event {
            TransportEvent::Error => Lifecycle::Closed,
            TransportEvent::Closed => Lifecycle::Closed,
            _ => Lifecycle::Open,
        },
        Lifecycle::Closed => Lifecycle::Closed,
    }
}

/// The lifecycle after a whole run of events, applied first to last.
pub open spec fn lifecycle_run(state: Lifecycle, events: Seq<TransportEvent>) -> Lifecycle
    decreases events.len(),
{
    if events.len() == 0 {
        state
    } else {
        lifecycle_step(lifecycle_run(state, events.drop_last()), events.last())
    }
}

/// One duplex transport session, as far as the call logic reads it.
#[derive(Clone, Copy, Debug, PartialEq, Eq, Structural)]
pub struct Connection {
    pub state: Lifecycle,
}

impl Connection {
    /// A connection on which nothing has happened yet.
    pub fn new() -> (connection: Connection)
        ensures
            connection.state == Lifecycle::Uninitialized,
    {
        Connection { state: Lifecycle::Uninitialized }
    }

    /// The current lifecycle state.
    pub fn state(&self) -> (state: Lifecycle)
        ensures
            state == self.state,
    {
        self.state
    }

    /// Whether frames can be written.
    pub fn is_open(&self) -> (open: bool)
        ensures
            open == (self.state == Lifecycle::Open),
    {
        match self.state {
            Lifecycle::Open => true,
            _ => false,
        }
    }

    /// Records one transport event.
    pub fn on_event(&mut self, event: TransportEvent)
        ensures
            final(self).state == lifecycle_step(old(self).state, event),
    {
        let next = match self.state {
            Lifecycle::Uninitialized => match event {
                TransportEvent::Connect => Lifecycle::Connecting,
                _ => Lifecycle::Uninitialized,
            },
            Lifecycle::Connecting => match event {
                TransportEvent::Connect => Lifecycle::Connecting,
                TransportEvent::Opened => Lifecycle::Open,
                _ => Lifecycle::Closed,
            },
            Lifecycle::Open => match event {
                TransportEvent::Error => Lifecycle::Closed,
                TransportEvent::Closed => Lifecycle::Closed,
                _ => Lifecycle::Open,
            },
            Lifecycle::Closed => Lifecycle::Closed,
        };
        self.state = next;
    }

    /// Decides whether `frame` goes to the transport: it does exactly when
    /// the connection is open, and then unchanged.
    pub fn send(&self, frame: Vec<u8>) -> (outcome: Result<Vec<u8>, SendError>)
        ensures
            self.state == Lifecycle::Open ==> outcome == Ok::<Vec<u8>, SendError>(frame),
            self.state != Lifecycle::Open ==> outcome == Err::<Vec<u8>, SendError>(
                SendError::NotOpen,
            ),
    {
        if self.is_open() {
            Ok(frame)
        } else {
            Err(SendError::NotOpen)
        }
    }
}

/// A closed connection stays closed whatever the transport reports.
pub proof fn lemma_closed_is_terminal(events: Seq<TransportEvent>)
    ensures
        lifecycle_run(Lifecycle::Closed, events) == Lifecycle::Closed,
    decreases events.len(),
{
    if events.len() > 0 {
        lemma_closed_is_terminal(events.drop_last());
    }
}

/// A connection is open after a run of events only if the run holds a
/// `Connect` and, later, an `Opened`, or it was open before the run.
pub proof fn lemma_open_needs_handshake(state: Lifecycle, events: Seq<TransportEvent>)
    requires
        state != Lifecycle::Open,
        lifecycle_run(state, events) == Lifecycle::Open,
    ensures
        exists|i: int|
            0 <= i < events.len() && #[trigger] events[i] == TransportEvent::Opened
                && lifecycle_run(state, events.take(i)) == Lifecycle::Connecting,
    decreases events.len(),
{
    if events.len() > 0 {
        let before = events.drop_last();
        let n = events.len() - 1;
        assert(events.take(n) == before);
        if lifecycle_run(state, before) == Lifecycle::Open {
            lemma_open_needs_handshake(state, before);
            let i = choose|i: int|
                0 <= i < before.len() && #[trigger] before[i] == TransportEvent::Opened
                    && lifecycle_run(state, before.take(i)) == Lifecycle::Connecting;
            assert(events.take(i) == before.take(i));
            assert(events[i] == TransportEvent::Opened);
        } else {
            assert(events[n] == TransportEvent::Opened);
        }
    }
}

} // verus!
