use null_chat::crypto::identity::{IdentityError, LocalIdentity};
use null_chat::crypto::kdf::{derive_aead_keys, kdf_rk, split_root_output, ChainKey, MessageKey, RootKey};
use null_chat::crypto::kem::HybridKem;
use null_chat::crypto::ratchet::{
    associated_data, DoubleRatchetSession, RatchetError, RatchetHeader, MAX_SKIP,
};
use null_chat::crypto::skipped::{same_bytes_32, SkippedKeys};

const CK_7_MESSAGE_KEY: [u8; 32] = [
    185, 46, 228, 177, 233, 248, 126, 251, 251, 19, 146, 58, 22, 86, 173, 235, 25, 95, 112, 80,
    90, 97, 77, 3, 246, 243, 155, 132, 40, 14, 229, 115,
];
const CK_7_NEXT_CHAIN: [u8; 32] = [
    210, 251, 234, 253, 222, 208, 163, 12, 177, 225, 239, 3, 56, 212, 223, 17, 185, 119, 251,
    106, 46, 184, 20, 169, 210, 76, 236, 243, 35, 51, 130, 22,
];

fn pair() -> (DoubleRatchetSession, DoubleRatchetSession) {
    let shared = [42u8; 32];
    let (bob, bob_pub) = DoubleRatchetSession::init_receiver(shared);
    let alice = DoubleRatchetSession::init_sender(shared, bob_pub);
    (alice, bob)
}

#[test]
fn chain_key_advance_known_answer() {
    let (next, mk) = ChainKey([7u8; 32]).advance();
    assert_eq!(mk.0, CK_7_MESSAGE_KEY);
    assert_eq!(next.0, CK_7_NEXT_CHAIN);
}

#[test]
fn chain_key_advance_twice_differs() {
    let (next, mk1) = ChainKey([7u8; 32]).advance();
    let (_, mk2) = next.advance();
    assert_ne!(mk1.0, mk2.0);
}

#[test]
fn kdf_rk_known_answer() {
    let (rk, ck, hk) = kdf_rk(&RootKey([1u8; 32]), &[2u8; 32]);
    assert_eq!(
        rk.0,
        [
            206, 11, 241, 222, 75, 243, 219, 71, 235, 124, 60, 231, 1, 232, 15, 60, 108, 139, 103,
            179, 218, 251, 11, 98, 207, 188, 225, 203, 141, 75, 130, 248
        ]
    );
    assert_eq!(
        ck.0,
        [
            246, 202, 27, 186, 55, 178, 227, 169, 91, 27, 136, 221, 241, 70, 160, 204, 81, 87, 190,
            82, 248, 87, 31, 102, 51, 203, 220, 25, 134, 173, 220, 40
        ]
    );
    assert_eq!(
        hk,
        [
            176, 86, 182, 46, 77, 216, 132, 176, 56, 28, 96, 161, 142, 7, 69, 96, 216, 186, 222,
            85, 119, 90, 161, 136, 78, 225, 157, 180, 57, 173, 31, 23
        ]
    );
}

#[test]
fn derive_aead_keys_known_answer() {
    let (enc, nonce) = derive_aead_keys(&MessageKey([3u8; 32]));
    assert_eq!(
        enc,
        [
            46, 201, 235, 235, 113, 32, 14, 243, 227, 13, 226, 189, 132, 127, 47, 46, 43, 208, 158,
            210, 32, 47, 45, 140, 112, 41, 229, 138, 54, 206, 238, 197
        ]
    );
    assert_eq!(nonce, [193, 178, 149, 92, 180, 37, 193, 94, 156, 76, 151, 190]);
}

#[test]
fn split_root_output_takes_three_thirds() {
    let okm: Vec<u8> = (0u8..96).collect();
    let (rk, ck, hk) = split_root_output(&okm);
    let expect_rk: Vec<u8> = (0u8..32).collect();
    let expect_ck: Vec<u8> = (32u8..64).collect();
    let expect_hk: Vec<u8> = (64u8..96).collect();
    assert_eq!(rk.0.to_vec(), expect_rk);
    assert_eq!(ck.0.to_vec(), expect_ck);
    assert_eq!(hk.to_vec(), expect_hk);
}

#[test]
fn associated_data_layout() {
    let header = RatchetHeader { dh_public: [9u8; 32], prev_chain_length: 0x0102_0304, message_number: 5 };
    let ad = associated_data(&header);
    assert_eq!(ad.len(), 40);
    assert_eq!(&ad[..32], &[9u8; 32][..]);
    assert_eq!(&ad[32..36], &[4u8, 3, 2, 1][..]);
    assert_eq!(&ad[36..40], &[5u8, 0, 0, 0][..]);
}

#[test]
fn ratchet_first_message_decrypts() {
    let (mut alice, mut bob) = pair();
    let (header, ct) = alice.ratchet_encrypt(b"hello bob").unwrap();
    assert_eq!(header.message_number, 0);
    assert_eq!(header.prev_chain_length, 0);
    assert_eq!(ct.len(), b"hello bob".len() + 16);
    let pt = bob.ratchet_decrypt(&header, &ct).unwrap();
    assert_eq!(pt, b"hello bob".to_vec());
}

#[test]
fn ratchet_messages_in_order() {
    let (mut alice, mut bob) = pair();
    for i in 0u32..5 {
        let msg = format!("message {}", i);
        let (header, ct) = alice.ratchet_encrypt(msg.as_bytes()).unwrap();
        assert_eq!(header.message_number, i);
        assert_eq!(bob.ratchet_decrypt(&header, &ct).unwrap(), msg.into_bytes());
    }
}

#[test]
fn ratchet_out_of_order_messages() {
    let (mut alice, mut bob) = pair();
    let (h0, c0) = alice.ratchet_encrypt(b"zero").unwrap();
    let (h1, c1) = alice.ratchet_encrypt(b"one").unwrap();
    let (h2, c2) = alice.ratchet_encrypt(b"two").unwrap();
    assert_eq!(bob.ratchet_decrypt(&h2, &c2).unwrap(), b"two".to_vec());
    assert_eq!(bob.ratchet_decrypt(&h0, &c0).unwrap(), b"zero".to_vec());
    assert_eq!(bob.ratchet_decrypt(&h1, &c1).unwrap(), b"one".to_vec());
}

#[test]
fn ratchet_skipped_key_is_used_once() {
    let (mut alice, mut bob) = pair();
    let (h0, c0) = alice.ratchet_encrypt(b"zero").unwrap();
    let (h1, c1) = alice.ratchet_encrypt(b"one").unwrap();
    assert_eq!(bob.ratchet_decrypt(&h1, &c1).unwrap(), b"one".to_vec());
    assert_eq!(bob.ratchet_decrypt(&h0, &c0).unwrap(), b"zero".to_vec());
    assert!(matches!(bob.ratchet_decrypt(&h0, &c0), Err(RatchetError::DecryptionFailed)));
}

#[test]
fn ratchet_bidirectional_conversation() {
    let (mut alice, mut bob) = pair();
    let (h, c) = alice.ratchet_encrypt(b"hi bob").unwrap();
    assert_eq!(bob.ratchet_decrypt(&h, &c).unwrap(), b"hi bob".to_vec());
    let (h, c) = bob.ratchet_encrypt(b"hi alice").unwrap();
    assert_eq!(h.message_number, 0);
    assert_eq!(alice.ratchet_decrypt(&h, &c).unwrap(), b"hi alice".to_vec());
    let (h, c) = alice.ratchet_encrypt(b"how are you").unwrap();
    assert_eq!(h.message_number, 0);
    assert_eq!(h.prev_chain_length, 1);
    assert_eq!(bob.ratchet_decrypt(&h, &c).unwrap(), b"how are you".to_vec());
    let (h, c) = bob.ratchet_encrypt(b"fine").unwrap();
    assert_eq!(alice.ratchet_decrypt(&h, &c).unwrap(), b"fine".to_vec());
}

#[test]
fn ratchet_reply_uses_fresh_ratchet_key() {
    let (mut alice, mut bob) = pair();
    let (h1, c1) = alice.ratchet_encrypt(b"ping").unwrap();
    bob.ratchet_decrypt(&h1, &c1).unwrap();
    let (h2, _) = bob.ratchet_encrypt(b"pong").unwrap();
    assert_ne!(h1.dh_public, h2.dh_public);
}

#[test]
fn ratchet_message_of_previous_chain_after_reply() {
    let (mut alice, mut bob) = pair();
    let (h0, c0) = alice.ratchet_encrypt(b"first").unwrap();
    let (h1, c1) = alice.ratchet_encrypt(b"late").unwrap();
    assert_eq!(bob.ratchet_decrypt(&h0, &c0).unwrap(), b"first".to_vec());
    let (hb, cb) = bob.ratchet_encrypt(b"reply").unwrap();
    assert_eq!(alice.ratchet_decrypt(&hb, &cb).unwrap(), b"reply".to_vec());
    let (h2, c2) = alice.ratchet_encrypt(b"new chain").unwrap();
    assert_eq!(h2.prev_chain_length, 2);
    assert_eq!(bob.ratchet_decrypt(&h2, &c2).unwrap(), b"new chain".to_vec());
    assert_eq!(bob.ratchet_decrypt(&h1, &c1).unwrap(), b"late".to_vec());
}

#[test]
fn ratchet_tampered_ciphertext_fails() {
    let (mut alice, mut bob) = pair();
    let (header, mut ct) = alice.ratchet_encrypt(b"integrity").unwrap();
    ct[0] ^= 1;
    assert!(matches!(bob.ratchet_decrypt(&header, &ct), Err(RatchetError::DecryptionFailed)));
}

#[test]
fn ratchet_tampered_header_fails() {
    let (mut alice, mut bob) = pair();
    let (header, ct) = alice.ratchet_encrypt(b"integrity").unwrap();
    let forged = RatchetHeader { prev_chain_length: 7, ..header };
    assert!(matches!(bob.ratchet_decrypt(&forged, &ct), Err(RatchetError::DecryptionFailed)));
}

#[test]
fn ratchet_wrong_shared_secret_fails() {
    let (bob_unused, bob_pub) = DoubleRatchetSession::init_receiver([1u8; 32]);
    drop(bob_unused);
    let (mut bob, _) = DoubleRatchetSession::init_receiver([2u8; 32]);
    let mut alice = DoubleRatchetSession::init_sender([1u8; 32], bob_pub);
    let (h, c) = alice.ratchet_encrypt(b"secret").unwrap();
    assert!(matches!(bob.ratchet_decrypt(&h, &c), Err(RatchetError::DecryptionFailed)));
}

#[test]
fn ratchet_too_many_skipped_is_refused() {
    let (mut alice, mut bob) = pair();
    let (h0, _) = alice.ratchet_encrypt(b"zero").unwrap();
    let far = RatchetHeader { message_number: MAX_SKIP + 1, ..h0 };
    assert!(matches!(
        bob.ratchet_decrypt(&far, &[0u8; 32]),
        Err(RatchetError::TooManySkippedMessages)
    ));
}

#[test]
fn ratchet_skip_of_exactly_max_is_allowed() {
    let (mut alice, mut bob) = pair();
    let mut last = None;
    for i in 0..=MAX_SKIP {
        let (h, c) = alice.ratchet_encrypt(&i.to_le_bytes()).unwrap();
        last = Some((h, c));
    }
    let (h, c) = last.unwrap();
    assert_eq!(h.message_number, MAX_SKIP);
    assert_eq!(bob.ratchet_decrypt(&h, &c).unwrap(), MAX_SKIP.to_le_bytes().to_vec());
}

#[test]
fn ratchet_receiver_cannot_send_first() {
    let (mut alice, mut bob) = pair();
    let (h, c) = alice.ratchet_encrypt(b"first").unwrap();
    bob.ratchet_decrypt(&h, &c).unwrap();
    assert!(bob.ratchet_encrypt(b"now possible").is_ok());
}

#[test]
fn ratchet_empty_plaintext_roundtrip() {
    let (mut alice, mut bob) = pair();
    let (h, c) = alice.ratchet_encrypt(b"").unwrap();
    assert_eq!(c.len(), 16);
    assert_eq!(bob.ratchet_decrypt(&h, &c).unwrap(), Vec::<u8>::new());
}

#[test]
fn skipped_keys_insert_find_remove() {
    let mut keys = SkippedKeys::new();
    assert_eq!(keys.len(), 0);
    keys.insert([1u8; 32], 3, [9u8; 32]);
    keys.insert([1u8; 32], 4, [8u8; 32]);
    keys.insert([1u8; 32], 3, [7u8; 32]);
    assert_eq!(keys.len(), 2);
    assert_eq!(keys.remove(&[1u8; 32], 3), Some([7u8; 32]));
    assert_eq!(keys.remove(&[1u8; 32], 3), None);
    assert_eq!(keys.remove(&[2u8; 32], 4), None);
    assert_eq!(keys.len(), 1);
}

#[test]
fn same_bytes_compares_all() {
    let mut b = [5u8; 32];
    assert!(same_bytes_32(&[5u8; 32], &b));
    b[31] = 6;
    assert!(!same_bytes_32(&[5u8; 32], &b));
}

#[test]
fn identity_known_answer() {
    let id = LocalIdentity::from_bytes(&[0x11u8; 32]).unwrap();
    assert_eq!(
        id.verifying_key(),
        [
            208, 74, 178, 50, 116, 43, 180, 171, 58, 19, 104, 189, 70, 21, 228, 230, 208, 34, 74,
            183, 26, 1, 107, 175, 133, 32, 163, 50, 201, 119, 135, 55
        ]
    );
    assert_eq!(
        id.fingerprint_hex(),
        "a07ffc5e1799c00f3ac9fa7bbf1db75a25aaf4d0ac1e104f3f16a5445cd9c571"
    );
    assert_eq!(id.signing_key_bytes(), [0x11u8; 32]);
}

#[test]
fn identity_signature_known_answer() {
    let id = LocalIdentity::from_bytes(&[0x11u8; 32]).unwrap();
    let sig = id.sign(b"hello");
    let expected: [u8; 64] = [
        237, 191, 77, 211, 8, 127, 123, 124, 114, 1, 164, 170, 62, 5, 236, 143, 86, 227, 91, 27,
        134, 252, 148, 158, 165, 155, 20, 117, 23, 157, 170, 69, 64, 199, 52, 14, 236, 128, 169,
        245, 225, 41, 32, 181, 126, 211, 172, 169, 5, 252, 140, 108, 30, 215, 22, 54, 199, 217, 248,
        166, 97, 254, 230, 13,
    ];
    assert_eq!(sig, expected);
}

#[test]
fn identity_sign_then_verify() {
    let id = LocalIdentity::generate();
    let sig = id.sign(b"attested");
    assert!(LocalIdentity::verify(&id.verifying_key(), b"attested", &sig).is_ok());
}

#[test]
fn identity_verify_wrong_message_fails() {
    let id = LocalIdentity::generate();
    let sig = id.sign(b"attested");
    assert!(matches!(
        LocalIdentity::verify(&id.verifying_key(), b"altered", &sig),
        Err(IdentityError::VerificationFailed)
    ));
}

#[test]
fn identity_verify_other_key_fails() {
    let id = LocalIdentity::generate();
    let other = LocalIdentity::from_bytes(&[0x11u8; 32]).unwrap();
    let sig = id.sign(b"attested");
    assert!(matches!(
        LocalIdentity::verify(&other.verifying_key(), b"attested", &sig),
        Err(IdentityError::VerificationFailed)
    ));
}

#[test]
fn identity_verify_undecodable_key() {
    let id = LocalIdentity::generate();
    let sig = id.sign(b"attested");
    assert!(matches!(
        LocalIdentity::verify(&[2u8; 32], b"attested", &sig),
        Err(IdentityError::InvalidKey(_))
    ));
}

#[test]
fn identity_generate_is_fresh() {
    let a = LocalIdentity::generate();
    let b = LocalIdentity::generate();
    assert_ne!(a.verifying_key(), b.verifying_key());
    assert_eq!(a.fingerprint_hex().len(), 64);
}

#[test]
fn hybrid_kem_roundtrip() {
    let (pk, sk) = HybridKem::generate_keypair();
    let (ct, ss) = HybridKem::encapsulate(&pk);
    let ss2 = HybridKem::decapsulate(&sk, &ct).unwrap();
    assert_eq!(ss, ss2);
}

#[test]
fn hybrid_kem_other_key_disagrees() {
    let (pk, _sk) = HybridKem::generate_keypair();
    let (_pk2, sk2) = HybridKem::generate_keypair();
    let (ct, ss) = HybridKem::encapsulate(&pk);
    let ss2 = HybridKem::decapsulate(&sk2, &ct).unwrap();
    assert_ne!(ss, ss2);
}

#[test]
fn hybrid_kem_encapsulations_differ() {
    let (pk, _sk) = HybridKem::generate_keypair();
    let (ct1, ss1) = HybridKem::encapsulate(&pk);
    let (ct2, ss2) = HybridKem::encapsulate(&pk);
    assert_ne!(ss1, ss2);
    assert_ne!(ct1.x25519_pk, ct2.x25519_pk);
}

#[test]
fn ratchet_can_send_and_receive() {
    let (alice, bob) = pair();
    assert!(alice.can_send());
    assert!(!bob.can_send());
    let mut alice = alice;
    let (h, _) = alice.ratchet_encrypt(b"x").unwrap();
    assert!(bob.can_receive(&h));
}
