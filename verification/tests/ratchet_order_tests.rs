use null_chat::crypto::ratchet::DoubleRatchetSession;

fn pair() -> (DoubleRatchetSession, DoubleRatchetSession) {
    let shared = [7u8; 32];
    let (bob, bob_pub) = DoubleRatchetSession::init_receiver(shared);
    let alice = DoubleRatchetSession::init_sender(shared, bob_pub);
    (alice, bob)
}

#[test]
fn chain_messages_decrypt_in_a_shuffled_order() {
    let (mut alice, mut bob) = pair();
    let sent: Vec<_> = (0..6u8).map(|i| (i, alice.ratchet_encrypt(&[i; 5]).unwrap())).collect();
    for &k in &[3usize, 0, 5, 1, 4, 2] {
        let (i, (h, c)) = &sent[k];
        assert_eq!(bob.ratchet_decrypt(h, c).unwrap(), vec![*i; 5]);
    }
}

#[test]
fn held_keys_of_a_closed_chain_survive_later_chains() {
    let (mut alice, mut bob) = pair();
    let (h0, c0) = alice.ratchet_encrypt(b"a0").unwrap();
    let (h1, c1) = alice.ratchet_encrypt(b"a1").unwrap();
    let (h2, c2) = alice.ratchet_encrypt(b"a2").unwrap();
    assert_eq!(bob.ratchet_decrypt(&h0, &c0).unwrap(), b"a0".to_vec());
    let (hb, cb) = bob.ratchet_encrypt(b"b0").unwrap();
    assert_eq!(alice.ratchet_decrypt(&hb, &cb).unwrap(), b"b0".to_vec());
    let (h3, c3) = alice.ratchet_encrypt(b"a3").unwrap();
    assert_eq!(bob.ratchet_decrypt(&h3, &c3).unwrap(), b"a3".to_vec());
    let (hb, cb) = bob.ratchet_encrypt(b"b1").unwrap();
    assert_eq!(alice.ratchet_decrypt(&hb, &cb).unwrap(), b"b1".to_vec());
    let (h4, c4) = alice.ratchet_encrypt(b"a4").unwrap();
    assert_eq!(bob.ratchet_decrypt(&h4, &c4).unwrap(), b"a4".to_vec());
    // The first chain's last two messages arrive after two more chains.
    assert_eq!(bob.ratchet_decrypt(&h2, &c2).unwrap(), b"a2".to_vec());
    assert_eq!(bob.ratchet_decrypt(&h1, &c1).unwrap(), b"a1".to_vec());
}

#[test]
fn a_new_chain_can_start_with_any_of_its_messages() {
    let (mut alice, mut bob) = pair();
    let (h, c) = alice.ratchet_encrypt(b"hello").unwrap();
    assert_eq!(bob.ratchet_decrypt(&h, &c).unwrap(), b"hello".to_vec());
    let (hb, cb) = bob.ratchet_encrypt(b"reply").unwrap();
    assert_eq!(alice.ratchet_decrypt(&hb, &cb).unwrap(), b"reply".to_vec());
    let m: Vec<_> = (0..3u8).map(|i| alice.ratchet_encrypt(&[i]).unwrap()).collect();
    assert_eq!(m[2].0.message_number, 2);
    assert_eq!(bob.ratchet_decrypt(&m[2].0, &m[2].1).unwrap(), vec![2u8]);
    assert_eq!(bob.ratchet_decrypt(&m[0].0, &m[0].1).unwrap(), vec![0u8]);
    assert_eq!(bob.ratchet_decrypt(&m[1].0, &m[1].1).unwrap(), vec![1u8]);
    let (hb, cb) = bob.ratchet_encrypt(b"again").unwrap();
    assert_eq!(alice.ratchet_decrypt(&hb, &cb).unwrap(), b"again".to_vec());
}
