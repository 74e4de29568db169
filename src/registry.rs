use std::collections::HashMap;
use vstd::prelude::*;

use crate::signaling::{Envelope, Payload};

verus! {

broadcast use vstd::std_specs::hash::group_hash_axioms;

/// What the dispatcher does with one inbound envelope.
#[derive(Clone, Copy, Debug, PartialEq, Eq, Structural)]
pub enum Route {
    /// A session for the sender exists: apply the payload to it.
    Deliver,
    /// No session exists and the payload is an offer: create a responder
    /// session for the sender, then apply the payload to it.
    Respond,
    /// No session exists and the payload is not an offer: an orphaned
    /// negotiation message, dropped.
    Discard,
}

/// The route of an inbound payload, given whether its sender already has a
/// session.
pub open spec fn route_spec(known: bool, payload: Payload) -> Route {
    if known {
        Route::Deliver
    } else if payload.is_offer_spec() {
        Route::Respond
    } else {
        Route::Discard
    }
}

/// The per-identity arena of peer sessions and data channels, both keyed by
/// the remote peer's identity. At most one session and one tracked channel
/// exist per remote identity.
pub struct Registry<S, C> {
    sessions: HashMap<u128, S>,
    channels: HashMap<u128, C>,
}

impl<S, C> Registry<S, C> {
    /// The sessions, by remote identity.
    pub closed spec fn sessions(&self) -> Map<u128, S> {
        self.sessions@
    }

    /// The tracked data channels, by remote identity.
    pub closed spec fn channels(&self) -> Map<u128, C> {
        self.channels@
    }

    pub fn new() -> (r: Self)
        ensures
            r.sessions() == Map::<u128, S>::empty(),
            r.channels() == Map::<u128, C>::empty(),
    {
        Registry { sessions: HashMap::new(), channels: HashMap::new() }
    }

    pub fn has_session(&self, remote: u128) -> (r: bool)
        ensures
            r == self.sessions().contains_key(remote),
    {
        self.sessions.contains_key(&remote)
    }

    pub fn session(&self, remote: u128) -> (r: Option<&S>)
        ensures
            match r {
                Some(s) => self.sessions().contains_key(remote) && *s == self.sessions()[remote],
                None => !self.sessions().contains_key(remote),
            },
    {
        self.sessions.get(&remote)
    }

    pub fn has_channel(&self, remote: u128) -> (r: bool)
        ensures
            r == self.channels().contains_key(remote),
    {
        self.channels.contains_key(&remote)
    }

    pub fn session_count(&self) -> (r: usize)
        ensures
            r == self.sessions().len(),
    {
        self.sessions.len()
    }

    pub fn channel_count(&self) -> (r: usize)
        ensures
            r == self.channels().len(),
    {
        self.channels.len()
    }

    /// Decides what to do with an inbound envelope; `env.address` names its
    /// sender.
    pub fn route(&self, env: &Envelope) -> (r: Route)
        ensures
            r == route_spec(self.sessions().contains_key(env.address), env.payload),
    {
        if self.sessions.contains_key(&env.address) {
            Route::Deliver
        } else if env.payload.is_offer() {
            Route::Respond
        } else {
            Route::Discard
        }
    }

    /// Records `session` as the session with `remote`, in either role.
    pub fn insert_session(&mut self, remote: u128, session: S)
        ensures
            final(self).sessions() == old(self).sessions().insert(remote, session),
            final(self).channels() == old(self).channels(),
    {
        self.sessions.insert(remote, session);
    }

    /// Removes the session with `remote` and hands it out, so that the caller
    /// can drive it and put it back with `insert_session`.
    pub fn take_session(&mut self, remote: u128) -> (r: Option<S>)
        ensures
            final(self).sessions() == old(self).sessions().remove(remote),
            final(self).channels() == old(self).channels(),
            match r {
                Some(s) => old(self).sessions().contains_key(remote) && s == old(self).sessions()[remote],
                None => !old(self).sessions().contains_key(remote),
            },
    {
        self.sessions.remove(&remote)
    }

    /// Records `channel` as the data channel tracked for `remote`.
    pub fn insert_channel(&mut self, remote: u128, channel: C)
        ensures
            final(self).channels() == old(self).channels().insert(remote, channel),
            final(self).sessions() == old(self).sessions(),
    {
        self.channels.insert(remote, channel);
    }

    /// Drops every session and channel, as when the relay connection ends.
    pub fn clear(&mut self)
        ensures
            final(self).sessions() == Map::<u128, S>::empty(),
            final(self).channels() == Map::<u128, C>::empty(),
    {
        self.sessions.clear();
        self.channels.clear();
    }
}

} // verus!
