//! The Null Cryptographic Protocol session: handshake messages and the
//! envelopes that carry Double Ratchet ciphertexts.
use vstd::prelude::*;

use crate::crypto::identity::{fingerprint_of, LocalIdentity};
use crate::crypto::kem::HybridKemPublicKey;
use crate::crypto::primitives::ed25519_public;
use crate::crypto::ratchet::{
    decrypt_counter_fits, encrypt_allowed, encrypt_next, encrypt_result, encryption_of,
    init_receiver_state, init_sender_state, spec_decrypt, DoubleRatchetSession, RatchetError,
    RatchetHeader, RatchetState,
};
use crate::text::{hex_lower, is_uuid_text, uuid_v4_string};

verus! {

#[verifier::external_type_specification]
#[verifier::external_body]
pub struct ExSerdeJsonError(serde_json::Error);

/// Why a protocol operation failed.
#[derive(Debug)]
pub enum NcpError {
    HandshakeFailed(String),
    RatchetError(RatchetError),
    NoSession,
    Serialization(serde_json::Error),
}

/// One encrypted message of a session.
pub struct NcpEnvelope {
    pub session_id: String,
    pub header: RatchetHeader,
    pub ciphertext: Vec<u8>,
}

/// The initiator's first handshake message.
pub struct NcpHandshakeInit {
    pub initiator_identity_pub: [u8; 32],
    pub initiator_kem_pub_x25519: [u8; 32],
    pub initiator_kem_pub_kyber: Vec<u8>,
    pub session_id: String,
}

/// The responder's handshake message.
pub struct NcpHandshakeResponse {
    pub responder_identity_pub: [u8; 32],
    pub kem_ciphertext_x25519: [u8; 32],
    pub kem_ciphertext_kyber: Vec<u8>,
    pub ratchet_pub: [u8; 32],
    pub session_id: String,
}

/// The state of a protocol session with one peer.
pub struct NcpSession {
    session_id: String,
    local_identity: LocalIdentity,
    ratchet: Option<DoubleRatchetSession>,
}

/// The view of an optional ratchet session.
pub open spec fn ratchet_view(r: Option<DoubleRatchetSession>) -> Option<RatchetState> {
    match r {
        Some(s) => Some(s@),
        None => None,
    }
}

fn copy_to_vec(bytes: &[u8]) -> (res: Vec<u8>)
    ensures
        res@ == bytes@,
{
    let mut v: Vec<u8> = Vec::with_capacity(bytes.len());
    let mut i: usize = 0;
    while i < bytes.len()
        invariant
            i <= bytes@.len(),
            v@ == bytes@.subrange(0, i as int),
        decreases bytes@.len() - i,
    {
        v.push(bytes[i]);
        i = i + 1;
        assert(v@ =~= bytes@.subrange(0, i as int));
    }
    assert(bytes@.subrange(0, bytes@.len() as int) =~= bytes@);
    v
}

impl NcpSession {
    /// The session's identifier.
    pub closed spec fn id(&self) -> Seq<char> {
        self.session_id@
    }

    /// The local identity.
    pub closed spec fn identity(&self) -> LocalIdentity {
        self.local_identity
    }

    /// The ratchet state, once a ratchet is established.
    pub closed spec fn ratchet_state(&self) -> Option<RatchetState> {
        ratchet_view(self.ratchet)
    }

    /// The identity is consistent and so is the ratchet, if any.
    pub closed spec fn wf(&self) -> bool {
        &&& self.local_identity.wf()
        &&& self.ratchet matches Some(r) ==> r.wf()
    }

    /// A session of `local_identity` under a new random identifier (a UUID in
    /// hyphenated form), with no ratchet yet.
    pub fn new(local_identity: LocalIdentity) -> (res: Self)
        requires
            local_identity.wf(),
        ensures
            res.wf(),
            res.identity() == local_identity,
            res.ratchet_state() is None,
            is_uuid_text(res.id()),
    {
        NcpSession { session_id: uuid_v4_string(), local_identity, ratchet: None }
    }

    /// The session's identifier.
    pub fn session_id(&self) -> (res: &str)
        ensures
            res@ == self.id(),
    {
        self.session_id.as_str()
    }

    /// The local identity's fingerprint in lower-case hexadecimal.
    pub fn local_fingerprint(&self) -> (res: String)
        requires
            self.wf(),
        ensures
            res@ == hex_lower(fingerprint_of(self.identity().secret())),
    {
        self.local_identity.fingerprint_hex()
    }

    /// The handshake's first message: the local verifying key, both halves
    /// of `kem_pk` and the session identifier.
    pub fn build_handshake_init(&self, kem_pk: &HybridKemPublicKey) -> (res: NcpHandshakeInit)
        ensures
            res.initiator_identity_pub@ == ed25519_public(self.identity().secret()),
            res.initiator_kem_pub_x25519@ == kem_pk.x25519_pk@,
            res.initiator_kem_pub_kyber@ == kem_pk.kyber_pk@,
            res.session_id@ == self.id(),
    {
        NcpHandshakeInit {
            initiator_identity_pub: self.local_identity.verifying_key(),
            initiator_kem_pub_x25519: kem_pk.x25519_pk,
            initiator_kem_pub_kyber: copy_to_vec(&kem_pk.kyber_pk),
            session_id: self.session_id.clone(),
        }
    }

    /// Starts the ratchet as sender against the peer's ratchet key.
    pub fn establish_sender(&mut self, shared_secret: [u8; 32], remote_ratchet_pub: [u8; 32])
        requires
            old(self).wf(),
        ensures
            final(self).wf(),
            final(self).id() == old(self).id(),
            final(self).identity() == old(self).identity(),
            final(self).ratchet_state() matches Some(s) && s == init_sender_state(
                shared_secret@,
                remote_ratchet_pub@,
                s.dh_self,
            ),
    {
        self.ratchet = Some(DoubleRatchetSession::init_sender(shared_secret, remote_ratchet_pub));
    }

    /// Starts the ratchet as receiver and returns its ratchet public key.
    pub fn establish_receiver(&mut self, shared_secret: [u8; 32]) -> (res: [u8; 32])
        requires
            old(self).wf(),
        ensures
            final(self).wf(),
            final(self).id() == old(self).id(),
            final(self).identity() == old(self).identity(),
            final(self).ratchet_state() matches Some(s) && s == init_receiver_state(shared_secret@, s.dh_self)
                && res@ == s.dh_self_pub,
    {
        let (session, pub_bytes) = DoubleRatchetSession::init_receiver(shared_secret);
        self.ratchet = Some(session);
        pub_bytes
    }

    /// Whether `send` may be called: no ratchet yet, or one that may encrypt.
    pub fn can_send(&self) -> (res: bool)
        ensures
            res == (self.ratchet_state() matches Some(s) ==> encrypt_allowed(s)),
    {
        match &self.ratchet {
            None => true,
            Some(r) => r.can_send(),
        }
    }

    /// Whether `receive` may be called with `envelope`: no ratchet yet, or one
    /// whose counters have room for the envelope's header.
    pub fn can_receive(&self, envelope: &NcpEnvelope) -> (res: bool)
        requires
            self.wf(),
        ensures
            res == (self.ratchet_state() matches Some(s) ==> decrypt_counter_fits(s, envelope.header)),
    {
        match &self.ratchet {
            None => true,
            Some(r) => r.can_receive(&envelope.header),
        }
    }

    /// Encrypts `plaintext` into an envelope of this session; `NoSession`
    /// before a ratchet is established.
    pub fn send(&mut self, plaintext: &[u8]) -> (res: Result<NcpEnvelope, NcpError>)
        requires
            old(self).wf(),
            old(self).ratchet_state() matches Some(s) ==> encrypt_allowed(s),
        ensures
            final(self).wf(),
            final(self).id() == old(self).id(),
            final(self).identity() == old(self).identity(),
            match old(self).ratchet_state() {
                None => final(self).ratchet_state() is None && res matches Err(NcpError::NoSession),
                Some(s) => final(self).ratchet_state() == Some(encrypt_next(s)) && match res {
                    Ok(env) => env.session_id@ == old(self).id() && encryption_of(
                        s,
                        plaintext@,
                        env.header,
                        env.ciphertext@,
                    ),
                    Err(NcpError::RatchetError(e)) => encrypt_result(s, plaintext@) == Err::<
                        Seq<u8>,
                        RatchetError,
                    >(e),
                    Err(_) => false,
                },
            },
    {
        match &mut self.ratchet {
            None => Err(NcpError::NoSession),
            Some(ratchet) => match ratchet.ratchet_encrypt(plaintext) {
                Ok((header, ciphertext)) => Ok(
                    NcpEnvelope { session_id: self.session_id.clone(), header, ciphertext },
                ),
                Err(e) => Err(NcpError::RatchetError(e)),
            },
        }
    }

    /// Decrypts an envelope's ciphertext with the session's ratchet;
    /// `NoSession` before a ratchet is established.
    pub fn receive(&mut self, envelope: &NcpEnvelope) -> (res: Result<Vec<u8>, NcpError>)
        requires
            old(self).wf(),
            old(self).ratchet_state() matches Some(s) ==> decrypt_counter_fits(s, envelope.header),
        ensures
            final(self).wf(),
            final(self).id() == old(self).id(),
            final(self).identity() == old(self).identity(),
            match old(self).ratchet_state() {
                None => final(self).ratchet_state() is None && res matches Err(NcpError::NoSession),
                Some(s) => final(self).ratchet_state() matches Some(t) && ({
                    let (st, r) = spec_decrypt(s, envelope.header, envelope.ciphertext@, t.dh_self);
                    &&& t == st
                    &&& match res {
                        Ok(p) => r == Ok::<Seq<u8>, RatchetError>(p@),
                        Err(NcpError::RatchetError(e)) => r == Err::<Seq<u8>, RatchetError>(e),
                        Err(_) => false,
                    }
                }),
            },
    {
        match &mut self.ratchet {
            None => Err(NcpError::NoSession),
            Some(ratchet) => match ratchet.ratchet_decrypt(&envelope.header, &envelope.ciphertext) {
                Ok(p) => Ok(p),
                Err(e) => Err(NcpError::RatchetError(e)),
            },
        }
    }
}

} // verus!
