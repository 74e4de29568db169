use vstd::prelude::*;

verus! {

/// Which side of the negotiation a session description comes from.
#[derive(Clone, Copy, Debug, PartialEq, Eq, Structural)]
pub enum DescriptionRole {
    Offer,
    Answer,
}

/// Negotiation metadata carried by one envelope. Bodies are opaque to this
/// library: they are produced and consumed by the transport-negotiation layer.
#[derive(Clone, Debug)]
pub enum Payload {
    Description { role: DescriptionRole, body: String },
    Candidate { body: String, mid: String },
}

/// One relayed signaling message.
///
/// `address` has a direction-dependent meaning: on an envelope being sent it
/// names the intended remote peer; on an envelope received from the relay it
/// names the peer the envelope came from (the relay rewrites it).
#[derive(Clone, Debug)]
pub struct Envelope {
    pub address: u128,
    pub payload: Payload,
}

impl Payload {
    /// Whether this payload is a session description in the offer role.
    pub open spec fn is_offer_spec(&self) -> bool {
        match self {
            Payload::Description { role, .. } => *role == DescriptionRole::Offer,
            Payload::Candidate { .. } => false,
        }
    }

    pub fn is_offer(&self) -> (r: bool)
        ensures
            r == self.is_offer_spec(),
    {
        match self {
            Payload::Description { role, .. } => match role {
                DescriptionRole::Offer => true,
                DescriptionRole::Answer => false,
            },
            Payload::Candidate { .. } => false,
        }
    }
}

impl Envelope {
    /// Wraps outgoing negotiation metadata for the relay, addressed to `remote`.
    pub fn addressed_to(remote: u128, payload: Payload) -> (r: Envelope)
        ensures
            r.address == remote,
            r.payload == payload,
    {
        Envelope { address: remote, payload }
    }
}

/// The destination a connect-intent leads to, seen from `local`: none when the
/// intent names the local identity itself.
pub open spec fn connect_target_spec(local: u128, intent: u128) -> Option<u128> {
    if local == intent {
        None
    } else {
        Some(intent)
    }
}

/// Decides whether a connect-intent starts an initiator session, and towards
/// whom. An identity never initiates a connection to itself.
pub fn connect_target(local: u128, intent: u128) -> (r: Option<u128>)
    ensures
        r == connect_target_spec(local, intent),
{
    if local == intent {
        None
    } else {
        Some(intent)
    }
}

/// A connect-intent naming the local identity leads to no session.
pub proof fn lemma_self_connect_is_noop(x: u128)
    ensures
        connect_target_spec(x, x).is_none(),
{
}

/// When the intent sequence `[a, a]` is handed out to the loops of `a` and
/// `b`, one intent each and in either order, exactly one of the two loops
/// initiates, and it is `b`, towards `a`.
pub proof fn lemma_single_initiator(a: u128, b: u128, a_takes_first: bool)
    requires
        a != b,
    ensures
        ({
            let intents = seq![a, a];
            let for_a = if a_takes_first { intents[0] } else { intents[1] };
            let for_b = if a_takes_first { intents[1] } else { intents[0] };
            &&& connect_target_spec(a, for_a).is_none()
            &&& connect_target_spec(b, for_b) == Some(a)
        }),
{
}

} // verus!
