//! The reconnectable session model.
use vstd::prelude::*;

verus! {

/// Identifier of a session.
#[derive(Debug, Clone, PartialEq, Eq)]
pub struct SessionId(pub String);

/// A session with a server, which may be disconnected and reconnected.
#[derive(Debug, Clone, PartialEq, Eq)]
pub struct SessionState {
    pub id: SessionId,
    pub connected: bool,
    pub server: String,
}

impl SessionState {
    /// The session after a reconnect: connected, with the same id and server.
    pub open spec fn reconnected(self) -> Self {
        SessionState { id: self.id, connected: true, server: self.server }
    }

    /// The session after a disconnect: disconnected, with the same id and
    /// server.
    pub open spec fn disconnected(self) -> Self {
        SessionState { id: self.id, connected: false, server: self.server }
    }

    /// A new session with server `server`; it starts disconnected.
    pub fn new(id: String, server: String) -> (session: Self)
        ensures
            session.id == SessionId(id),
            !session.connected,
            session.server == server,
    {
        SessionState { id: SessionId(id), connected: false, server }
    }

    /// Marks the session connected.
    pub fn reconnect(&mut self)
        ensures
            *final(self) == old(self).reconnected(),
    {
        self.connected = true;
    }

    /// Marks the session disconnected.
    pub fn disconnect(&mut self)
        ensures
            *final(self) == old(self).disconnected(),
    {
        self.connected = false;
    }
}

/// Reconnecting and disconnecting never change which session it is: the id
/// and the server stay, and only the connected flag moves.
pub proof fn lemma_transitions_keep_identity(s: SessionState)
    ensures
        s.reconnected().id == s.id,
        s.reconnected().server == s.server,
        s.reconnected().connected,
        s.disconnected().id == s.id,
        s.disconnected().server == s.server,
        !s.disconnected().connected,
{
}

/// The last transition decides the state: reconnecting or disconnecting twice
/// is the same as once, and a disconnect undoes a reconnect (and the other way
/// round) up to the flag it sets.
pub proof fn lemma_last_transition_wins(s: SessionState)
    ensures
        s.reconnected().reconnected() == s.reconnected(),
        s.disconnected().disconnected() == s.disconnected(),
        s.reconnected().disconnected() == s.disconnected(),
        s.disconnected().reconnected() == s.reconnected(),
        !s.connected ==> s.reconnected().disconnected() == s,
        s.connected ==> s.disconnected().reconnected() == s,
{
}

} // verus!
