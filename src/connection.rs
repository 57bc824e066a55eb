//! The connection manager: the lifecycle of one peripheral session, as a
//! state machine. The caller performs each action it asks for against the
//! transport and records the outcome.
use vstd::prelude::*;

verus! {

/// Failures that abort a whole retrieval.
#[derive(Clone, Copy, Debug, PartialEq, Eq, Structural)]
pub enum RetrievalError {
    /// No matching device was found, or no adapter is available.
    DiscoveryFailed,
    /// The transport refused the connection or the attempt timed out.
    ConnectionFailed,
    /// Service discovery failed on a connected peripheral.
    ServiceDiscoveryFailed,
}

/// Where a peripheral session stands.
#[derive(Clone, Copy, Debug, PartialEq, Eq, Structural)]
pub enum LinkState {
    Disconnected,
    /// A connect attempt has been issued and its outcome is not yet known.
    Connecting,
    Connected,
    ServicesDiscovered,
    Failed(RetrievalError),
}

/// What the caller is to do next.
#[derive(Clone, Copy, Debug, PartialEq, Eq, Structural)]
pub enum LinkAction {
    /// Issue one connect attempt, bounded by a timeout.
    Connect,
    /// A connect attempt is in flight: record its outcome first.
    AwaitConnect,
    /// Discover the peripheral's services.
    DiscoverServices,
    /// The peripheral is ready for characteristic reads.
    Ready,
    /// Give up the retrieval with this error.
    Abort(RetrievalError),
}

/// The outcome of an action, as the transport reported it.
#[derive(Clone, Copy, Debug, PartialEq, Eq, Structural)]
pub enum LinkEvent {
    ConnectSucceeded,
    /// Refused, or timed out.
    ConnectFailed,
    DiscoverySucceeded,
    DiscoveryFailed,
}

/// The action asked for in a state.
pub open spec fn action_for(s: LinkState) -> LinkAction {
    match s {
        LinkState::Disconnected => LinkAction::Connect,
        LinkState::Connecting => LinkAction::AwaitConnect,
        LinkState::Connected => LinkAction::DiscoverServices,
        LinkState::ServicesDiscovered => LinkAction::Ready,
        LinkState::Failed(e) => LinkAction::Abort(e),
    }
}

/// The state once the action of `s` has been handed out.
pub open spec fn state_after_action(s: LinkState) -> LinkState {
    match s {
        LinkState::Disconnected => LinkState::Connecting,
        _ => s,
    }
}

/// The state once an outcome has been recorded. An outcome that does not
/// answer an action of the current state leaves it unchanged.
pub open spec fn state_after_event(s: LinkState, ev: LinkEvent) -> LinkState {
    match (s, ev) {
        (LinkState::Connecting, LinkEvent::ConnectSucceeded) => LinkState::Connected,
        (LinkState::Connecting, LinkEvent::ConnectFailed) => LinkState::Failed(
            RetrievalError::ConnectionFailed,
        ),
        (LinkState::Connected, LinkEvent::DiscoverySucceeded) => LinkState::ServicesDiscovered,
        (LinkState::Connected, LinkEvent::DiscoveryFailed) => LinkState::Failed(
            RetrievalError::ServiceDiscoveryFailed,
        ),
        _ => s,
    }
}

/// One peripheral session. It never disconnects by itself.
pub struct ConnectionManager {
    state: LinkState,
}

impl ConnectionManager {
    pub closed spec fn spec_state(&self) -> LinkState {
        self.state
    }

    /// A session on a peripheral that the transport reports as connected or
    /// not.
    pub fn new(already_connected: bool) -> (m: ConnectionManager)
        ensures
            m.spec_state() == (if already_connected {
                LinkState::Connected
            } else {
                LinkState::Disconnected
            }),
    {
        if already_connected {
            ConnectionManager { state: LinkState::Connected }
        } else {
            ConnectionManager { state: LinkState::Disconnected }
        }
    }

    pub fn state(&self) -> (s: LinkState)
        ensures
            s == self.spec_state(),
    {
        self.state
    }

    /// Asks what must happen before characteristics can be read: a connect
    /// only when not connected, then a service discovery, and nothing once
    /// services are discovered.
    pub fn ensure_ready(&mut self) -> (a: LinkAction)
        ensures
            a == action_for(old(self).spec_state()),
            final(self).spec_state() == state_after_action(old(self).spec_state()),
    {
        match self.state {
            LinkState::Disconnected => {
                self.state = LinkState::Connecting;
                LinkAction::Connect
            },
            LinkState::Connecting => LinkAction::AwaitConnect,
            LinkState::Connected => LinkAction::DiscoverServices,
            LinkState::ServicesDiscovered => LinkAction::Ready,
            LinkState::Failed(e) => LinkAction::Abort(e),
        }
    }

    /// Records the outcome of the action last performed.
    pub fn record(&mut self, ev: LinkEvent)
        ensures
            final(self).spec_state() == state_after_event(old(self).spec_state(), ev),
    {
        let next = match (self.state, ev) {
            (LinkState::Connecting, LinkEvent::ConnectSucceeded) => LinkState::Connected,
            (LinkState::Connecting, LinkEvent::ConnectFailed) => LinkState::Failed(
                RetrievalError::ConnectionFailed,
            ),
            (LinkState::Connected, LinkEvent::DiscoverySucceeded) => LinkState::ServicesDiscovered,
            (LinkState::Connected, LinkEvent::DiscoveryFailed) => LinkState::Failed(
                RetrievalError::ServiceDiscoveryFailed,
            ),
            _ => self.state,
        };
        self.state = next;
    }
}

/// Once services are discovered, asking again for readiness asks for no
/// connect and no discovery, and leaves the session as it was, however
/// often it is asked.
pub proof fn lemma_ready_is_idempotent(s: LinkState)
    requires
        s == LinkState::ServicesDiscovered,
    ensures
        action_for(s) == LinkAction::Ready,
        state_after_action(s) == s,
        action_for(state_after_action(s)) == LinkAction::Ready,
        state_after_action(state_after_action(s)) == s,
{
}

/// A failed session stays failed whatever is recorded, and only ever asks
/// to abort with its error: a failed connect is never retried.
pub proof fn lemma_failure_is_terminal(e: RetrievalError, ev: LinkEvent)
    ensures
        action_for(LinkState::Failed(e)) == LinkAction::Abort(e),
        state_after_action(LinkState::Failed(e)) == LinkState::Failed(e),
        state_after_event(LinkState::Failed(e), ev) == LinkState::Failed(e),
        state_after_event(LinkState::Connecting, LinkEvent::ConnectFailed) == LinkState::Failed(
            RetrievalError::ConnectionFailed,
        ),
{
}

} // verus!
