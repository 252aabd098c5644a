use null_chat::crypto::identity::LocalIdentity;
use null_chat::crypto::kem::HybridKem;
use null_chat::crypto::ratchet::RatchetError;
use null_chat::protocol::discord::{DiscordError, DiscordGateway};
use null_chat::protocol::matrix::{MatrixClient, MatrixCredential, MatrixError};
use null_chat::protocol::ncp::{NcpEnvelope, NcpError, NcpSession};

fn is_uuid_form(s: &str) -> bool {
    s.len() == 36
        && s.char_indices().all(|(i, c)| {
            if i == 8 || i == 13 || i == 18 || i == 23 {
                c == '-'
            } else {
                c.is_ascii_hexdigit() && !c.is_ascii_uppercase()
            }
        })
}

fn established_pair() -> (NcpSession, NcpSession) {
    let shared = [77u8; 32];
    let mut bob = NcpSession::new(LocalIdentity::generate());
    let bob_pub = bob.establish_receiver(shared);
    let mut alice = NcpSession::new(LocalIdentity::generate());
    alice.establish_sender(shared, bob_pub);
    (alice, bob)
}

#[test]
fn ncp_session_id_is_uuid() {
    let session = NcpSession::new(LocalIdentity::generate());
    assert!(is_uuid_form(session.session_id()));
}

#[test]
fn ncp_sessions_have_distinct_ids() {
    let a = NcpSession::new(LocalIdentity::generate());
    let b = NcpSession::new(LocalIdentity::generate());
    assert_ne!(a.session_id(), b.session_id());
}

#[test]
fn ncp_local_fingerprint_is_identity_fingerprint() {
    let id = LocalIdentity::from_bytes(&[0x11u8; 32]).unwrap();
    let session = NcpSession::new(id);
    assert_eq!(
        session.local_fingerprint(),
        "a07ffc5e1799c00f3ac9fa7bbf1db75a25aaf4d0ac1e104f3f16a5445cd9c571"
    );
}

#[test]
fn ncp_send_without_ratchet_is_no_session() {
    let mut session = NcpSession::new(LocalIdentity::generate());
    assert!(matches!(session.send(b"hi"), Err(NcpError::NoSession)));
}

#[test]
fn ncp_receive_without_ratchet_is_no_session() {
    let (mut alice, _bob) = established_pair();
    let env = alice.send(b"hi").unwrap();
    let mut fresh = NcpSession::new(LocalIdentity::generate());
    assert!(matches!(fresh.receive(&env), Err(NcpError::NoSession)));
}

#[test]
fn ncp_send_receive_roundtrip() {
    let (mut alice, mut bob) = established_pair();
    let env = alice.send(b"over the wire").unwrap();
    assert_eq!(env.session_id, alice.session_id());
    assert_eq!(env.header.message_number, 0);
    assert_eq!(bob.receive(&env).unwrap(), b"over the wire".to_vec());
    let reply = bob.send(b"and back").unwrap();
    assert_eq!(reply.session_id, bob.session_id());
    assert_eq!(alice.receive(&reply).unwrap(), b"and back".to_vec());
}

#[test]
fn ncp_tampered_envelope_fails() {
    let (mut alice, mut bob) = established_pair();
    let env = alice.send(b"over the wire").unwrap();
    let mut ciphertext = env.ciphertext.clone();
    let last = ciphertext.len() - 1;
    ciphertext[last] ^= 0x80;
    let forged = NcpEnvelope { session_id: env.session_id.clone(), header: env.header, ciphertext };
    assert!(matches!(
        bob.receive(&forged),
        Err(NcpError::RatchetError(RatchetError::DecryptionFailed))
    ));
}

#[test]
fn ncp_handshake_init_carries_keys() {
    let id = LocalIdentity::from_bytes(&[0x11u8; 32]).unwrap();
    let expected_identity = id.verifying_key();
    let session = NcpSession::new(id);
    let (kem_pk, _kem_sk) = HybridKem::generate_keypair();
    let init = session.build_handshake_init(&kem_pk);
    assert_eq!(init.initiator_identity_pub, expected_identity);
    assert_eq!(init.initiator_kem_pub_x25519, kem_pk.x25519_pk);
    assert_eq!(init.initiator_kem_pub_kyber, kem_pk.kyber_pk.to_vec());
    assert_eq!(init.session_id, session.session_id());
}

#[test]
fn ncp_handshake_then_ratchet() {
    let (kem_pk, kem_sk) = HybridKem::generate_keypair();
    let (ct, responder_secret) = HybridKem::encapsulate(&kem_pk);
    let initiator_secret = HybridKem::decapsulate(&kem_sk, &ct).unwrap();
    let mut responder = NcpSession::new(LocalIdentity::generate());
    let ratchet_pub = responder.establish_receiver(responder_secret);
    let mut initiator = NcpSession::new(LocalIdentity::generate());
    initiator.establish_sender(initiator_secret, ratchet_pub);
    let env = initiator.send(b"post-quantum hello").unwrap();
    assert_eq!(responder.receive(&env).unwrap(), b"post-quantum hello".to_vec());
}

#[test]
fn discord_fetch_channels_is_empty() {
    let gateway = DiscordGateway::new();
    let channels = gateway.fetch_channels("guild").unwrap();
    assert!(channels.is_empty());
}

#[test]
fn discord_send_message_fields() {
    let gateway = DiscordGateway::new();
    let msg = gateway.send_message("chan-1", "hello").unwrap();
    assert_eq!(msg.channel_id, "chan-1");
    assert_eq!(msg.author_id, "local");
    assert_eq!(msg.content, "hello");
    assert_eq!(msg.timestamp, "1970-01-01T00:00:00Z");
    assert!(is_uuid_form(&msg.id));
}

#[test]
fn discord_error_variants_exist() {
    let errors = [DiscordError::AuthFailed, DiscordError::RateLimited];
    assert_eq!(errors.len(), 2);
}

fn credential() -> MatrixCredential {
    MatrixCredential {
        homeserver: "https://matrix.example".to_string(),
        user_id: "@me:matrix.example".to_string(),
        access_token: "token".to_string(),
        device_id: "DEVICE".to_string(),
    }
}

#[test]
fn matrix_login_sync_rooms() {
    let client = MatrixClient::new(credential());
    assert!(client.login().is_ok());
    assert!(client.sync().unwrap().is_empty());
    assert!(client.joined_rooms().unwrap().is_empty());
}

#[test]
fn matrix_send_text_event_returns_uuid() {
    let client = MatrixClient::new(credential());
    let id = client.send_text_event("!room:matrix.example", "hello").unwrap();
    assert!(is_uuid_form(&id));
    let other = client.send_text_event("!room:matrix.example", "hello").unwrap();
    assert_ne!(id, other);
    let _unused = MatrixError::RoomNotFound(String::new());
}
