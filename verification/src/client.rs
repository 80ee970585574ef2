//! Access to the one client session of a process.

use vstd::prelude::*;

verus! {

/// The place of a process's client session. Whoever starts the application
/// fills it; every operation resolves the handle from it.
pub struct ClientSlot<C> {
    client: Option<C>,
}

impl<C> View for ClientSlot<C> {
    type V = Option<C>;

    /// The session that the slot holds, if any.
    closed spec fn view(&self) -> Option<C> {
        self.client
    }
}

impl<C> ClientSlot<C> {
    /// The slot before the session is started.
    pub fn empty() -> (slot: ClientSlot<C>)
        ensures
            slot@ is None,
    {
        ClientSlot { client: None }
    }

    /// The slot of a started session.
    pub fn holding(client: C) -> (slot: ClientSlot<C>)
        ensures
            slot@ == Some(client),
    {
        ClientSlot { client: Some(client) }
    }

    /// Whether a session has been started.
    pub fn is_initialized(&self) -> (initialized: bool)
        ensures
            initialized == (self@ is Some),
    {
        self.client.is_some()
    }

    /// The handle of the session. It is a plain lookup: the slot is left as
    /// it is, so every call gives the same handle. Without a session there is
    /// nothing to give, and asking is the caller's fault.
    pub fn resolve_client(&self) -> (client: &C)
        requires
            self@ is Some,
        ensures
            self@ == Some(*client),
    {
        self.client.as_ref().unwrap()
    }
}

} // verus!
