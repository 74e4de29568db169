use trbtt_sync::pipe::ChannelPipe;
use trbtt_sync::registry::{Registry, Route};
use trbtt_sync::session::{greeting, PeerLoop};
use trbtt_sync::signaling::{connect_target, DescriptionRole, Envelope, Payload};

const ID1: u128 = 0x67e5_5044_10b1_426f_9247_bb68_0e5f_e0c8;
const ID2: u128 = 0x0000_0000_0000_0000_0000_0000_0000_002a;

fn offer() -> Payload {
    Payload::Description { role: DescriptionRole::Offer, body: "v=0".to_string() }
}

fn answer() -> Payload {
    Payload::Description { role: DescriptionRole::Answer, body: "v=0".to_string() }
}

fn candidate() -> Payload {
    Payload::Candidate { body: "candidate:1 1 UDP 1 10.0.0.1 9 typ host".to_string(), mid: "0".to_string() }
}

#[test]
fn self_connect_is_noop() {
    assert_eq!(connect_target(ID1, ID1), None);
    let mut lp: PeerLoop<u32, u32> = PeerLoop::new(ID1);
    assert_eq!(lp.take_intent(ID1), None);
    assert_eq!(lp.registry.session_count(), 0);
}

#[test]
fn single_initiator_either_order() {
    // intents [ID1, ID1]; each loop takes one, in either order
    for a_first in [true, false] {
        let mut a: PeerLoop<u32, u32> = PeerLoop::new(ID1);
        let mut b: PeerLoop<u32, u32> = PeerLoop::new(ID2);
        let (ra, rb) = if a_first {
            let ra = a.take_intent(ID1);
            (ra, b.take_intent(ID1))
        } else {
            let rb = b.take_intent(ID1);
            (a.take_intent(ID1), rb)
        };
        assert_eq!(ra, None);
        assert_eq!(rb, Some(ID1));
        let initiators = [ra, rb].iter().filter(|r| r.is_some()).count();
        assert_eq!(initiators, 1);
    }
}

#[test]
fn only_first_intent_counts() {
    let mut lp: PeerLoop<u32, u32> = PeerLoop::new(ID1);
    assert_eq!(lp.take_intent(ID2), Some(ID2));
    assert_eq!(lp.take_intent(ID2), None);
    assert!(lp.intent_taken);
}

#[test]
fn offer_creates_responder_once() {
    let mut lp: PeerLoop<u32, u32> = PeerLoop::new(ID1);
    let env = Envelope::addressed_to(ID2, offer());
    assert_eq!(lp.on_inbound(&env), Route::Respond);
    assert!(lp.admit_responder(ID2, 7));
    assert_eq!(lp.registry.session_count(), 1);
    assert_eq!(lp.on_inbound(&env), Route::Deliver);
    assert!(!lp.admit_responder(ID2, 8));
    assert_eq!(lp.registry.session_count(), 1);
    assert_eq!(lp.registry.session(ID2), Some(&7));
}

#[test]
fn orphan_answer_and_candidate_dropped() {
    let lp: PeerLoop<u32, u32> = PeerLoop::new(ID1);
    assert_eq!(lp.on_inbound(&Envelope::addressed_to(ID2, answer())), Route::Discard);
    assert_eq!(lp.on_inbound(&Envelope::addressed_to(ID2, candidate())), Route::Discard);
    assert_eq!(lp.registry.session_count(), 0);
}

#[test]
fn known_sender_gets_every_payload() {
    let mut lp: PeerLoop<u32, u32> = PeerLoop::new(ID1);
    lp.begin_initiator(ID2, 1);
    assert_eq!(lp.on_inbound(&Envelope::addressed_to(ID2, answer())), Route::Deliver);
    assert_eq!(lp.on_inbound(&Envelope::addressed_to(ID2, candidate())), Route::Deliver);
}

#[test]
fn teardown_clears_state() {
    let mut lp: PeerLoop<u32, u32> = PeerLoop::new(ID1);
    lp.begin_initiator(ID2, 1);
    lp.channel_ready(ID2, 2);
    assert_eq!(lp.registry.session_count(), 1);
    assert_eq!(lp.registry.channel_count(), 1);
    lp.relay_closed();
    assert!(lp.finished);
    assert_eq!(lp.registry.session_count(), 0);
    assert_eq!(lp.registry.channel_count(), 0);
    assert!(!lp.registry.has_channel(ID2));
}

#[test]
fn registry_insert_and_clear() {
    let mut r: Registry<&str, &str> = Registry::new();
    assert!(!r.has_session(ID1));
    r.insert_session(ID1, "s1");
    r.insert_session(ID1, "s2");
    assert_eq!(r.session_count(), 1);
    assert_eq!(r.session(ID1), Some(&"s2"));
    assert_eq!(r.take_session(ID1), Some("s2"));
    assert_eq!(r.take_session(ID1), None);
    assert!(!r.has_session(ID1));
    r.insert_session(ID1, "s3");
    r.insert_channel(ID1, "c1");
    assert!(r.has_channel(ID1));
    r.clear();
    assert_eq!(r.session_count(), 0);
    assert_eq!(r.channel_count(), 0);
}

#[test]
fn greeting_names_the_peer() {
    assert_eq!(greeting(ID1), "Hello from 67e55044-10b1-426f-9247-bb680e5fe0c8");
    assert_eq!(greeting(ID2), "Hello from 00000000-0000-0000-0000-00000000002a");
    let both: std::collections::HashSet<String> = [greeting(ID1), greeting(ID2)].into_iter().collect();
    assert_eq!(both.len(), 2);
}

#[test]
fn pipe_decodes_lossily() {
    let pipe = ChannelPipe::new(true);
    assert!(pipe.on_open());
    assert!(!ChannelPipe::new(false).on_open());
    assert_eq!(pipe.on_message(b"Hello"), "Hello");
    assert_eq!(pipe.on_message(&[b'h', b'i', 0xff]), "hi\u{FFFD}");
    assert_eq!(pipe.on_message(&[]), "");
}

#[test]
fn envelope_keeps_address_and_payload() {
    let env = Envelope::addressed_to(ID2, offer());
    assert_eq!(env.address, ID2);
    assert!(env.payload.is_offer());
    assert!(!answer().is_offer());
    assert!(!candidate().is_offer());
}
