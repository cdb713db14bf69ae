//! The advertising and connection manager: the peripheral advertises,
//! serves one connection at a time, advertises again when that connection
//! ends, and gives up for good when the transport fails.

use vstd::prelude::*;

verus! {

/// The most connections that are ever served at once.
pub const CONNECTIONS_MAX: usize = 1;

/// Where the peripheral stands.
#[derive(Clone, Copy, Debug, PartialEq, Eq)]
pub enum LinkState {
    /// Broadcasting, waiting for a central to connect.
    Advertising,
    /// Bound to the one active connection.
    Connected,
    /// The transport failed; the peripheral role has ended.
    Halted,
}

/// What the transport reports to the manager.
#[derive(Clone, Copy, Debug, PartialEq, Eq)]
pub enum LinkEvent {
    /// A central completed connection setup.
    Accepted,
    /// The connection ended, by a disconnect or by a dispatcher error.
    Closed,
    /// Advertising, accepting or the transport itself failed.
    Failed,
}

/// What the manager asks for next.
#[derive(Clone, Copy, Debug, PartialEq, Eq)]
pub enum LinkAction {
    /// Start advertising.
    Advertise,
    /// Run the dispatcher on the connection that was accepted.
    Serve,
    /// Stop: the failure is not recoverable here.
    Halt,
    /// Carry on with what is already under way.
    Continue,
}

/// How many connections are up in `state`.
pub open spec fn spec_connections(state: LinkState) -> nat {
    match state {
        LinkState::Connected => 1,
        _ => 0,
    }
}

/// The state after `event`, and the action that the event calls for.
///
/// A failure is final in every state. While a connection is up no second
/// one is taken on; when it closes the peripheral advertises again.
pub open spec fn spec_transition(state: LinkState, event: LinkEvent) -> (LinkState, LinkAction) {
    match (state, event) {
        (LinkState::Halted, _) => (LinkState::Halted, LinkAction::Halt),
        (_, LinkEvent::Failed) => (LinkState::Halted, LinkAction::Halt),
        (LinkState::Advertising, LinkEvent::Accepted) => (LinkState::Connected, LinkAction::Serve),
        (LinkState::Connected, LinkEvent::Closed) => (
            LinkState::Advertising,
            LinkAction::Advertise,
        ),
        (LinkState::Advertising, LinkEvent::Closed) => (
            LinkState::Advertising,
            LinkAction::Continue,
        ),
        (LinkState::Connected, LinkEvent::Accepted) => (LinkState::Connected, LinkAction::Continue),
    }
}

/// The manager of the peripheral role.
#[derive(Debug)]
pub struct ConnectionManager {
    state: LinkState,
}

impl View for ConnectionManager {
    type V = LinkState;

    closed spec fn view(&self) -> LinkState {
        self.state
    }
}

impl ConnectionManager {
    /// A manager that is about to advertise.
    pub fn new() -> (manager: ConnectionManager)
        ensures
            manager@ == LinkState::Advertising,
    {
        ConnectionManager { state: LinkState::Advertising }
    }

    pub fn state(&self) -> (state: LinkState)
        ensures
            state == self@,
    {
        self.state
    }

    /// The number of connections that are up: one while connected, none
    /// otherwise.
    pub fn connections(&self) -> (count: usize)
        ensures
            count == spec_connections(self@),
            count <= CONNECTIONS_MAX,
    {
        match self.state {
            LinkState::Connected => 1,
            _ => 0,
        }
    }

    /// Takes in one report of the transport and says what to do next.
    pub fn on_event(&mut self, event: LinkEvent) -> (action: LinkAction)
        ensures
            (final(self)@, action) == spec_transition(old(self)@, event),
    {
        let (next, action) = match (self.state, event) {
            (LinkState::Halted, _) => (LinkState::Halted, LinkAction::Halt),
            (_, LinkEvent::Failed) => (LinkState::Halted, LinkAction::Halt),
            (LinkState::Advertising, LinkEvent::Accepted) => (
                LinkState::Connected,
                LinkAction::Serve,
            ),
            (LinkState::Connected, LinkEvent::Closed) => (
                LinkState::Advertising,
                LinkAction::Advertise,
            ),
            (LinkState::Advertising, LinkEvent::Closed) => (
                LinkState::Advertising,
                LinkAction::Continue,
            ),
            (LinkState::Connected, LinkEvent::Accepted) => (
                LinkState::Connected,
                LinkAction::Continue,
            ),
        };
        self.state = next;
        action
    }
}

/// No report of the transport ever brings more than one connection up.
pub proof fn lemma_one_connection_at_most(state: LinkState, event: LinkEvent)
    ensures
        spec_connections(spec_transition(state, event).0) <= CONNECTIONS_MAX,
{
}

/// When a connection ends, for whatever reason short of a transport
/// failure, the peripheral advertises again.
pub proof fn lemma_closed_connection_readvertises()
    ensures
        spec_transition(LinkState::Connected, LinkEvent::Closed) == (
            LinkState::Advertising,
            LinkAction::Advertise,
        ),
{
}

/// A halted peripheral stays halted.
pub proof fn lemma_halt_is_final(event: LinkEvent)
    ensures
        spec_transition(LinkState::Halted, event) == (LinkState::Halted, LinkAction::Halt),
{
}

} // verus!
