use null_chat::crypto::ratchet::{DoubleRatchetSession, RatchetHeader};
use null_chat::model::secs_or_zero;

fn pair() -> (DoubleRatchetSession, DoubleRatchetSession) {
    let shared = [9u8; 32];
    let (bob, bob_pub) = DoubleRatchetSession::init_receiver(shared);
    let alice = DoubleRatchetSession::init_sender(shared, bob_pub);
    (alice, bob)
}

type Msg = (Vec<u8>, RatchetHeader, Vec<u8>);

fn send(s: &mut DoubleRatchetSession, text: &str, out: &mut Vec<Msg>) {
    let (h, c) = s.ratchet_encrypt(text.as_bytes()).unwrap();
    out.push((text.as_bytes().to_vec(), h, c));
}

fn take(r: &mut DoubleRatchetSession, inbox: &mut Vec<Msg>, k: usize) {
    let (pt, h, c) = inbox.remove(k);
    assert_eq!(r.ratchet_decrypt(&h, &c).unwrap(), pt);
}

#[test]
fn a_whole_conversation_in_a_scrambled_order() {
    let (mut alice, mut bob) = pair();
    let mut to_bob: Vec<Msg> = Vec::new();
    let mut to_alice: Vec<Msg> = Vec::new();
    send(&mut alice, "a0", &mut to_bob);
    send(&mut alice, "a1", &mut to_bob);
    send(&mut alice, "a2", &mut to_bob);
    take(&mut bob, &mut to_bob, 1); // a1 first
    send(&mut bob, "b0", &mut to_alice);
    send(&mut bob, "b1", &mut to_alice);
    take(&mut alice, &mut to_alice, 1); // b1 before b0
    send(&mut alice, "a3", &mut to_bob);
    send(&mut alice, "a4", &mut to_bob);
    take(&mut bob, &mut to_bob, 3); // a4: a new chain, announced after a0..a2
    take(&mut bob, &mut to_bob, 0); // a0, late, from the closed chain
    send(&mut bob, "b2", &mut to_alice);
    take(&mut alice, &mut to_alice, 1); // b2: new chain
    take(&mut alice, &mut to_alice, 0); // b0, late
    take(&mut bob, &mut to_bob, 1); // a3
    take(&mut bob, &mut to_bob, 0); // a2, from two chains back
    assert!(to_bob.is_empty() && to_alice.is_empty());
}

#[test]
fn consecutive_encryptions_count_up() {
    let (mut alice, _bob) = pair();
    let mut prev_key = None;
    for i in 0..5u32 {
        let msg = vec![7u8; i as usize * 3];
        let (h, c) = alice.ratchet_encrypt(&msg).unwrap();
        assert_eq!(h.message_number, i);
        assert_eq!(h.prev_chain_length, 0);
        assert_eq!(c.len(), msg.len() + 16);
        if let Some(k) = prev_key {
            assert_eq!(h.dh_public, k);
        }
        prev_key = Some(h.dh_public);
    }
}

#[test]
fn clock_reading_or_zero() {
    assert_eq!(secs_or_zero(Some(1_700_000_000)), 1_700_000_000);
    assert_eq!(secs_or_zero(None), 0);
}
