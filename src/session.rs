use vstd::prelude::*;

use crate::registry::{route_spec, Registry, Route};
use crate::signaling::{connect_target, connect_target_spec, Envelope, Payload};

verus! {

broadcast use vstd::std_specs::hash::group_hash_axioms;

/// The text form of a peer identity as uuid prints it (lower-case hex
/// digits in hyphenated groups).
pub uninterp spec fn uuid_text(id: u128) -> Seq<char>;

/// Relies on uuid's `Uuid::from_u128` and the `Display` of `Hyphenated`: the
/// text depends on the identity alone and is `Hyphenated::LENGTH` (36)
/// characters long.
#[verifier::external_body]
fn hyphenated(id: u128) -> (r: String)
    ensures
        r@ == uuid_text(id),
        r@.len() == 36,
{
    uuid::Uuid::from_u128(id).hyphenated().to_string()
}

/// The greeting a peer sends over a data channel once it is usable.
pub open spec fn greeting_spec(id: u128) -> Seq<char> {
    "Hello from "@ + uuid_text(id)
}

/// The greeting `"Hello from {id}"` that `id` sends to its counterpart.
pub fn greeting(id: u128) -> (r: String)
    ensures
        r@ == greeting_spec(id),
{
    let text = hyphenated(id);
    let prefix = String::from_str("Hello from ");
    proof {
        reveal_strlit("Hello from ");
    }
    prefix.concat(text.as_str())
}

/// The state of one local identity's session loop: the registry it owns,
/// whether its single connect-intent has been consumed, and whether the
/// relay connection has ended.
pub struct PeerLoop<S, C> {
    pub local: u128,
    pub registry: Registry<S, C>,
    pub intent_taken: bool,
    pub finished: bool,
}

impl<S, C> PeerLoop<S, C> {
    pub open spec fn wf(&self) -> bool {
        self.finished ==> self.registry.sessions().is_empty() && self.registry.channels().is_empty()
    }

    pub fn new(local: u128) -> (r: Self)
        ensures
            r.wf(),
            r.local == local,
            !r.intent_taken,
            !r.finished,
            r.registry.sessions().is_empty(),
            r.registry.channels().is_empty(),
    {
        PeerLoop { local, registry: Registry::new(), intent_taken: false, finished: false }
    }

    /// Consumes a connect-intent. Only the first intent of a loop counts; it
    /// yields the remote identity to initiate towards, unless it names the
    /// local identity. The registry is left as it is: the caller builds the
    /// session and hands it to `begin_initiator`.
    pub fn take_intent(&mut self, intent: u128) -> (r: Option<u128>)
        ensures
            final(self).intent_taken,
            final(self).local == old(self).local,
            final(self).finished == old(self).finished,
            final(self).registry == old(self).registry,
            r == if old(self).intent_taken || old(self).finished {
                None
            } else {
                connect_target_spec(old(self).local, intent)
            },
    {
        if self.intent_taken || self.finished {
            self.intent_taken = true;
            return None;
        }
        self.intent_taken = true;
        connect_target(self.local, intent)
    }

    /// Records the initiator session towards `remote`.
    pub fn begin_initiator(&mut self, remote: u128, session: S)
        requires
            !old(self).finished,
            remote != old(self).local,
        ensures
            final(self).local == old(self).local,
            final(self).intent_taken == old(self).intent_taken,
            !final(self).finished,
            final(self).registry.sessions() == old(self).registry.sessions().insert(
                remote,
                session,
            ),
            final(self).registry.channels() == old(self).registry.channels(),
    {
        self.registry.insert_session(remote, session);
    }

    /// Decides what to do with an envelope that arrived from the relay.
    pub fn on_inbound(&self, env: &Envelope) -> (r: Route)
        ensures
            r == route_spec(self.registry.sessions().contains_key(env.address), env.payload),
    {
        self.registry.route(env)
    }

    /// Records the responder session created for the sender of an offer.
    /// A sender that already has a session keeps it.
    pub fn admit_responder(&mut self, remote: u128, session: S) -> (created: bool)
        requires
            !old(self).finished,
        ensures
            created == !old(self).registry.sessions().contains_key(remote),
            final(self).local == old(self).local,
            final(self).intent_taken == old(self).intent_taken,
            !final(self).finished,
            final(self).registry.sessions() == if created {
                old(self).registry.sessions().insert(remote, session)
            } else {
                old(self).registry.sessions()
            },
            final(self).registry.channels() == old(self).registry.channels(),
    {
        if self.registry.has_session(remote) {
            false
        } else {
            self.registry.insert_session(remote, session);
            true
        }
    }

    /// Records a data channel that became usable with `remote`.
    pub fn channel_ready(&mut self, remote: u128, channel: C)
        requires
            !old(self).finished,
        ensures
            final(self).local == old(self).local,
            final(self).intent_taken == old(self).intent_taken,
            !final(self).finished,
            final(self).registry.sessions() == old(self).registry.sessions(),
            final(self).registry.channels() == old(self).registry.channels().insert(
                remote,
                channel,
            ),
    {
        self.registry.insert_channel(remote, channel);
    }

    /// The relay connection ended: every session and channel is dropped.
    pub fn relay_closed(&mut self)
        ensures
            final(self).wf(),
            final(self).finished,
            final(self).local == old(self).local,
            final(self).intent_taken == old(self).intent_taken,
            final(self).registry.sessions().is_empty(),
            final(self).registry.channels().is_empty(),
    {
        self.registry.clear();
        self.finished = true;
    }
}

/// An offer from an unknown sender creates exactly one session; a second
/// offer from the same sender finds that session and creates none.
pub proof fn lemma_offer_creates_one_session<S>(
    sessions: Map<u128, S>,
    remote: u128,
    offer: Payload,
    session: S,
)
    requires
        sessions.dom().finite(),
        !sessions.contains_key(remote),
        offer.is_offer_spec(),
    ensures
        route_spec(sessions.contains_key(remote), offer) == Route::Respond,
        sessions.insert(remote, session).len() == sessions.len() + 1,
        route_spec(sessions.insert(remote, session).contains_key(remote), offer) == Route::Deliver,
{
}

/// An answer or a candidate from a sender without a session is dropped.
pub proof fn lemma_orphan_dropped<S>(sessions: Map<u128, S>, env: Envelope)
    requires
        !sessions.contains_key(env.address),
        !env.payload.is_offer_spec(),
    ensures
        route_spec(sessions.contains_key(env.address), env.payload) == Route::Discard,
{
}

} // verus!
