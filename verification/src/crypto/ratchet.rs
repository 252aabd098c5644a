//! The Double Ratchet session: per-message keys from symmetric chains, a
//! Diffie-Hellman ratchet step whenever the peer's ratchet key changes, and
//! keys of skipped messages kept for late delivery.
use vstd::prelude::*;

use crate::crypto::kdf::{
    aead_key_of, aead_nonce_of, derive_aead_keys, kdf_rk, message_key_of, next_chain_key_of,
    next_root_key_of, root_chain_key_of, ChainKey, MessageKey, RootKey,
};
use crate::crypto::primitives::{
    chacha20poly1305_decrypt, chacha20poly1305_encrypt, chacha20poly1305_open,
    chacha20poly1305_seal, x25519_diffie_hellman, x25519_public, x25519_public_key,
    x25519_random_secret, x25519_shared,
};
use crate::crypto::skipped::{same_bytes_32, SkippedKeys};

verus! {

/// At most this many message keys are skipped on one chain for one message.
pub const MAX_SKIP: u32 = 1000;

/// Why a ratchet operation failed.
#[derive(Debug)]
pub enum RatchetError {
    TooManySkippedMessages,
    DecryptionFailed,
    SkippedKeyNotFound,
}

/// The header sent with each message: the sender's current ratchet public
/// key, the length of its previous sending chain and the message's number.
#[derive(Debug, Clone, Copy)]
pub struct RatchetHeader {
    pub dh_public: [u8; 32],
    pub prev_chain_length: u32,
    pub message_number: u32,
}

// ------------------------------------------------------------------ model

/// Every 32-byte secret's shared secret with `public` equals the shared
/// secret of `secret` with that secret's public key (Diffie-Hellman agreement).
pub open spec fn dh_agrees(secret: Seq<u8>, public: Seq<u8>) -> bool {
    forall|other: Seq<u8>|
        other.len() == 32 ==> #[trigger] x25519_shared(other, public) == x25519_shared(
            secret,
            x25519_public(other),
        )
}

/// The state of a session, as values.
#[verifier::ext_equal]
pub struct RatchetState {
    pub dh_self: Seq<u8>,
    pub dh_self_pub: Seq<u8>,
    pub dh_remote: Option<Seq<u8>>,
    pub root_key: Seq<u8>,
    pub sending_chain: Option<Seq<u8>>,
    pub receiving_chain: Option<Seq<u8>>,
    pub send_count: u32,
    pub recv_count: u32,
    pub prev_send_count: u32,
    pub skipped: Map<(Seq<u8>, u32), Seq<u8>>,
}

impl RatchetState {
    /// The own ratchet key pair is a genuine X25519 pair, and a receiving
    /// chain exists only once the peer's ratchet key is known.
    pub open spec fn wf(self) -> bool {
        &&& self.dh_self.len() == 32
        &&& self.dh_self_pub == x25519_public(self.dh_self)
        &&& dh_agrees(self.dh_self, self.dh_self_pub)
        &&& self.receiving_chain is Some ==> self.dh_remote is Some
    }
}

/// The little-endian bytes of a 32-bit number.
pub open spec fn le_u32(x: u32) -> Seq<u8> {
    seq![
        (x % 256) as u8,
        ((x / 256) % 256) as u8,
        ((x / 65536) % 256) as u8,
        (x / 16777216) as u8,
    ]
}

/// The associated data of a header: the ratchet public key, then the
/// previous chain length and the message number, little-endian.
pub open spec fn header_ad(h: RatchetHeader) -> Seq<u8> {
    h.dh_public@ + le_u32(h.prev_chain_length) + le_u32(h.message_number)
}

/// Encrypting `pt` under a message key with associated data `ad`.
pub open spec fn seal_message(mk: Seq<u8>, ad: Seq<u8>, pt: Seq<u8>) -> Result<Seq<u8>, RatchetError> {
    match chacha20poly1305_seal(aead_key_of(mk), aead_nonce_of(mk), ad, pt) {
        Some(c) => Ok(c),
        None => Err(RatchetError::DecryptionFailed),
    }
}

/// Decrypting `ct` under a message key with associated data `ad`.
pub open spec fn open_message(mk: Seq<u8>, ad: Seq<u8>, ct: Seq<u8>) -> Result<Seq<u8>, RatchetError> {
    match chacha20poly1305_open(aead_key_of(mk), aead_nonce_of(mk), ad, ct) {
        Some(p) => Ok(p),
        None => Err(RatchetError::DecryptionFailed),
    }
}

/// The root key and sending chain key that the next encryption uses: the
/// current sending chain, or a new one from a root step over the shared
/// secret with the peer's ratchet key.
pub open spec fn sending_step(s: RatchetState) -> (Seq<u8>, Seq<u8>) {
    match s.sending_chain {
        Some(ck) => (s.root_key, ck),
        None => {
            let dh = x25519_shared(s.dh_self, s.dh_remote.unwrap());
            (next_root_key_of(s.root_key, dh), root_chain_key_of(s.root_key, dh))
        },
    }
}

/// Whether an encryption is possible without panicking: there is a sending
/// chain or a peer key to start one, and the message counter does not
/// overflow.
pub open spec fn encrypt_allowed(s: RatchetState) -> bool {
    &&& (s.sending_chain is Some || s.dh_remote is Some)
    &&& s.send_count < u32::MAX
}

/// The state after an encryption.
pub open spec fn encrypt_next(s: RatchetState) -> RatchetState {
    RatchetState {
        root_key: sending_step(s).0,
        sending_chain: Some(next_chain_key_of(sending_step(s).1)),
        send_count: (s.send_count + 1) as u32,
        ..s
    }
}

/// The message key of the next encryption.
pub open spec fn encrypt_message_key(s: RatchetState) -> Seq<u8> {
    message_key_of(sending_step(s).1)
}

/// The associated data of the next encryption's header.
pub open spec fn encrypt_ad(s: RatchetState) -> Seq<u8> {
    s.dh_self_pub + le_u32(s.prev_send_count) + le_u32(s.send_count)
}

/// What the next encryption of `pt` gives.
pub open spec fn encrypt_result(s: RatchetState, pt: Seq<u8>) -> Result<Seq<u8>, RatchetError> {
    seal_message(encrypt_message_key(s), encrypt_ad(s), pt)
}

/// `(h, ct)` is what encrypting `pt` in state `s` returns: the header
/// carries the own ratchet key and the counters, the ciphertext is 16 bytes
/// (the tag) longer than `pt` and opens to `pt` under the message key.
pub open spec fn encryption_of(s: RatchetState, pt: Seq<u8>, h: RatchetHeader, ct: Seq<u8>) -> bool {
    &&& h.dh_public@ == s.dh_self_pub
    &&& h.prev_chain_length == s.prev_send_count
    &&& h.message_number == s.send_count
    &&& encrypt_result(s, pt) == Ok::<Seq<u8>, RatchetError>(ct)
    &&& open_message(encrypt_message_key(s), header_ad(h), ct) == Ok::<Seq<u8>, RatchetError>(pt)
    &&& ct.len() == pt.len() + 16
}

/// The chain key `n` steps after `ck`.
pub open spec fn chain_nth(ck: Seq<u8>, n: nat) -> Seq<u8>
    decreases n,
{
    if n == 0 {
        ck
    } else {
        next_chain_key_of(chain_nth(ck, (n - 1) as nat))
    }
}

/// The message keys of numbers `from..until` on the receiving chain that
/// starts (at number `from`) with `ck`, under the peer key `remote`.
pub open spec fn skipped_keys_of(remote: Seq<u8>, ck: Seq<u8>, from: u32, until: u32) -> Map<(Seq<u8>, u32), Seq<u8>> {
    Map::new(
        |k: (Seq<u8>, u32)| k.0 == remote && from <= k.1 && k.1 < until,
        |k: (Seq<u8>, u32)| message_key_of(chain_nth(ck, (k.1 - from) as nat)),
    )
}

/// Skipping the receiving chain up to message number `until`: refused when
/// that is more than `MAX_SKIP` ahead; nothing to do when it is not ahead;
/// otherwise the keys of the skipped numbers are stored and the chain moves
/// on, which needs a receiving chain.
pub open spec fn spec_skip(s: RatchetState, until: u32) -> Result<RatchetState, RatchetError> {
    if until > s.recv_count && until - s.recv_count > MAX_SKIP {
        Err(RatchetError::TooManySkippedMessages)
    } else if s.recv_count >= until {
        Ok(s)
    } else {
        match s.receiving_chain {
            None => Err(RatchetError::DecryptionFailed),
            Some(ck) => Ok(
                RatchetState {
                    receiving_chain: Some(chain_nth(ck, (until - s.recv_count) as nat)),
                    recv_count: until,
                    skipped: s.skipped.union_prefer_right(
                        skipped_keys_of(s.dh_remote.unwrap(), ck, s.recv_count, until),
                    ),
                    ..s
                },
            ),
        }
    }
}

/// A Diffie-Hellman ratchet step to the peer key `remote`, with `fresh` as
/// the new own ratchet secret: a receiving chain from the shared secret of
/// the old own key with `remote`, then a sending chain from that of `fresh`.
pub open spec fn dh_ratchet_state(s: RatchetState, remote: Seq<u8>, fresh: Seq<u8>) -> RatchetState {
    let dh_recv = x25519_shared(s.dh_self, remote);
    let rk1 = next_root_key_of(s.root_key, dh_recv);
    let dh_send = x25519_shared(fresh, remote);
    RatchetState {
        dh_self: fresh,
        dh_self_pub: x25519_public(fresh),
        dh_remote: Some(remote),
        root_key: next_root_key_of(rk1, dh_send),
        sending_chain: Some(root_chain_key_of(rk1, dh_send)),
        receiving_chain: Some(root_chain_key_of(s.root_key, dh_recv)),
        send_count: 0,
        recv_count: 0,
        prev_send_count: s.send_count,
        skipped: s.skipped,
    }
}

/// The state and result of decrypting `(h, ct)`, where `fresh` is the new own
/// ratchet secret if a Diffie-Hellman step happens: a stored key of a
/// skipped message is used (and dropped) first; otherwise a new peer key
/// closes the old receiving chain (skipping to its announced length) and
/// ratchets, the chain is skipped to the message's number, and the next
/// chain key decrypts.
pub open spec fn spec_decrypt(s: RatchetState, h: RatchetHeader, ct: Seq<u8>, fresh: Seq<u8>) -> (RatchetState, Result<Seq<u8>, RatchetError>) {
    let key = (h.dh_public@, h.message_number);
    if s.skipped.contains_key(key) {
        (RatchetState { skipped: s.skipped.remove(key), ..s }, open_message(s.skipped[key], header_ad(h), ct))
    } else {
        let stage: Result<RatchetState, RatchetError> = if s.dh_remote != Some(h.dh_public@) {
            match spec_skip(s, h.prev_chain_length) {
                Ok(t) => Ok(dh_ratchet_state(t, h.dh_public@, fresh)),
                Err(e) => Err(e),
            }
        } else {
            Ok(s)
        };
        match stage {
            Err(e) => (s, Err(e)),
            Ok(s1) => match spec_skip(s1, h.message_number) {
                Err(e) => (s1, Err(e)),
                Ok(s2) => match s2.receiving_chain {
                    None => (s2, Err(RatchetError::DecryptionFailed)),
                    Some(ck) => (
                        RatchetState {
                            receiving_chain: Some(next_chain_key_of(ck)),
                            recv_count: (s2.recv_count + 1) as u32,
                            ..s2
                        },
                        open_message(message_key_of(ck), header_ad(h), ct),
                    ),
                },
            },
        }
    }
}

/// Whether decrypting `h` reaches the receive counter's increment only
/// below its maximum (the counter would otherwise overflow).
pub open spec fn decrypt_counter_fits(s: RatchetState, h: RatchetHeader) -> bool {
    ||| s.skipped.contains_key((h.dh_public@, h.message_number))
    ||| s.dh_remote != Some(h.dh_public@)
    ||| s.receiving_chain is None
    ||| (h.message_number > s.recv_count && h.message_number - s.recv_count > MAX_SKIP)
    ||| (s.recv_count < u32::MAX && h.message_number < u32::MAX)
}

/// The state of a sender started with `shared_secret` against the peer's
/// ratchet key `remote`, with own ratchet secret `secret`.
pub open spec fn init_sender_state(shared_secret: Seq<u8>, remote: Seq<u8>, secret: Seq<u8>) -> RatchetState {
    let dh = x25519_shared(secret, remote);
    RatchetState {
        dh_self: secret,
        dh_self_pub: x25519_public(secret),
        dh_remote: Some(remote),
        root_key: next_root_key_of(shared_secret, dh),
        sending_chain: Some(root_chain_key_of(shared_secret, dh)),
        receiving_chain: None,
        send_count: 0,
        recv_count: 0,
        prev_send_count: 0,
        skipped: Map::empty(),
    }
}

/// The state of a receiver started with `shared_secret` and own ratchet
/// secret `secret`.
pub open spec fn init_receiver_state(shared_secret: Seq<u8>, secret: Seq<u8>) -> RatchetState {
    RatchetState {
        dh_self: secret,
        dh_self_pub: x25519_public(secret),
        dh_remote: None,
        root_key: shared_secret,
        sending_chain: None,
        receiving_chain: None,
        send_count: 0,
        recv_count: 0,
        prev_send_count: 0,
        skipped: Map::empty(),
    }
}

// ----------------------------------------------------------- executable

/// An X25519 key pair.
struct DhKeyPair {
    secret: [u8; 32],
    public: [u8; 32],
}

impl DhKeyPair {
    fn generate() -> (res: DhKeyPair)
        ensures
            res.public@ == x25519_public(res.secret@),
            dh_agrees(res.secret@, res.public@),
    {
        let secret = x25519_random_secret();
        let public = x25519_public_key(&secret);
        DhKeyPair { secret, public }
    }
}

/// A Double Ratchet session with one peer.
pub struct DoubleRatchetSession {
    dh_self: DhKeyPair,
    dh_remote: Option<[u8; 32]>,
    root_key: RootKey,
    sending_chain: Option<ChainKey>,
    receiving_chain: Option<ChainKey>,
    send_count: u32,
    recv_count: u32,
    prev_send_count: u32,
    skipped_message_keys: SkippedKeys,
}

pub open spec fn opt_key(o: Option<ChainKey>) -> Option<Seq<u8>> {
    match o {
        Some(k) => Some(k.0@),
        None => None,
    }
}

pub open spec fn opt_array(o: Option<[u8; 32]>) -> Option<Seq<u8>> {
    match o {
        Some(a) => Some(a@),
        None => None,
    }
}

impl View for DoubleRatchetSession {
    type V = RatchetState;

    closed spec fn view(&self) -> RatchetState {
        RatchetState {
            dh_self: self.dh_self.secret@,
            dh_self_pub: self.dh_self.public@,
            dh_remote: opt_array(self.dh_remote),
            root_key: self.root_key.0@,
            sending_chain: opt_key(self.sending_chain),
            receiving_chain: opt_key(self.receiving_chain),
            send_count: self.send_count,
            recv_count: self.recv_count,
            prev_send_count: self.prev_send_count,
            skipped: self.skipped_message_keys@,
        }
    }
}

/// The associated data of a header: its ratchet public key, then the
/// previous chain length and the message number as little-endian bytes.
pub fn associated_data(header: &RatchetHeader) -> (res: Vec<u8>)
    ensures
        res@ == header_ad(*header),
{
    let mut ad: Vec<u8> = Vec::with_capacity(40);
    let mut i: usize = 0;
    while i < 32
        invariant
            i <= 32,
            ad@ == header.dh_public@.subrange(0, i as int),
        decreases 32 - i,
    {
        ad.push(header.dh_public[i]);
        i = i + 1;
        assert(ad@ =~= header.dh_public@.subrange(0, i as int));
    }
    push_le_u32(&mut ad, header.prev_chain_length);
    push_le_u32(&mut ad, header.message_number);
    assert(ad@ =~= header_ad(*header));
    ad
}

fn push_le_u32(v: &mut Vec<u8>, x: u32)
    ensures
        final(v)@ == old(v)@ + le_u32(x),
{
    v.push((x % 256) as u8);
    v.push(((x / 256) % 256) as u8);
    v.push(((x / 65536) % 256) as u8);
    v.push((x / 16777216) as u8);
    assert(final(v)@ =~= old(v)@ + le_u32(x));
}

fn encrypt_with_message_key(mk: &MessageKey, plaintext: &[u8], header: &RatchetHeader) -> (res: Result<Vec<u8>, RatchetError>)
    ensures
        match res {
            Ok(c) => seal_message(mk.0@, header_ad(*header), plaintext@) == Ok::<Seq<u8>, RatchetError>(c@)
                && open_message(mk.0@, header_ad(*header), c@) == Ok::<Seq<u8>, RatchetError>(plaintext@),
            Err(e) => seal_message(mk.0@, header_ad(*header), plaintext@) == Err::<Seq<u8>, RatchetError>(e),
        },
        res is Ok <==> plaintext@.len() / 64 < 0xffff_ffff,
        res matches Ok(c) ==> c@.len() == plaintext@.len() + 16,
{
    let (enc_key, nonce_bytes) = derive_aead_keys(mk);
    let ad = associated_data(header);
    match chacha20poly1305_encrypt(&enc_key, &nonce_bytes, &ad, plaintext) {
        Some(c) => Ok(c),
        None => Err(RatchetError::DecryptionFailed),
    }
}

fn decrypt_with_message_key(mk: &MessageKey, ciphertext: &[u8], header: &RatchetHeader) -> (res: Result<Vec<u8>, RatchetError>)
    ensures
        match res {
            Ok(p) => open_message(mk.0@, header_ad(*header), ciphertext@) == Ok::<Seq<u8>, RatchetError>(p@),
            Err(e) => open_message(mk.0@, header_ad(*header), ciphertext@) == Err::<Seq<u8>, RatchetError>(e),
        },
{
    let (enc_key, nonce_bytes) = derive_aead_keys(mk);
    decrypt_inner(&enc_key, &nonce_bytes, ciphertext, header)
}

fn decrypt_with_message_key_bytes(mk_bytes: &[u8; 32], ciphertext: &[u8], header: &RatchetHeader) -> (res: Result<Vec<u8>, RatchetError>)
    ensures
        match res {
            Ok(p) => open_message(mk_bytes@, header_ad(*header), ciphertext@) == Ok::<Seq<u8>, RatchetError>(p@),
            Err(e) => open_message(mk_bytes@, header_ad(*header), ciphertext@) == Err::<Seq<u8>, RatchetError>(e),
        },
{
    let mk = MessageKey(*mk_bytes);
    let (enc_key, nonce_bytes) = derive_aead_keys(&mk);
    decrypt_inner(&enc_key, &nonce_bytes, ciphertext, header)
}

fn decrypt_inner(enc_key: &[u8; 32], nonce_bytes: &[u8; 12], ciphertext: &[u8], header: &RatchetHeader) -> (res: Result<Vec<u8>, RatchetError>)
    ensures
        match res {
            Ok(p) => chacha20poly1305_open(enc_key@, nonce_bytes@, header_ad(*header), ciphertext@) == Some(p@),
            Err(e) => chacha20poly1305_open(enc_key@, nonce_bytes@, header_ad(*header), ciphertext@) is None
                && e == RatchetError::DecryptionFailed,
        },
{
    let ad = associated_data(header);
    match chacha20poly1305_decrypt(enc_key, nonce_bytes, &ad, ciphertext) {
        Some(p) => Ok(p),
        None => Err(RatchetError::DecryptionFailed),
    }
}

impl DoubleRatchetSession {
    /// The session is consistent: its state is well formed and its store of
    /// skipped keys holds no key twice.
    pub open spec fn wf(&self) -> bool {
        self@.wf() && self.store_wf()
    }

    /// The store of skipped keys holds no key twice.
    pub closed spec fn store_wf(&self) -> bool {
        self.skipped_message_keys.wf()
    }

    /// Whether `ratchet_encrypt` may be called: there is a sending chain or
    /// a known peer key to start one from, and the message counter has room.
    pub fn can_send(&self) -> (res: bool)
        ensures
            res == encrypt_allowed(self@),
    {
        (self.sending_chain.is_some() || self.dh_remote.is_some()) && self.send_count < u32::MAX
    }

    /// Whether `ratchet_decrypt` may be called with `header`: its counters
    /// cannot overflow on the path that the header takes.
    pub fn can_receive(&self, header: &RatchetHeader) -> (res: bool)
        requires
            self.wf(),
        ensures
            res == decrypt_counter_fits(self@, *header),
    {
        let known = self.skipped_message_keys.contains(&header.dh_public, header.message_number);
        let same_remote = match &self.dh_remote {
            Some(r) => same_bytes_32(r, &header.dh_public),
            None => false,
        };
        let no_chain = self.receiving_chain.is_none();
        let far = header.message_number > self.recv_count && header.message_number - self.recv_count > MAX_SKIP;
        let fits = self.recv_count < u32::MAX && header.message_number < u32::MAX;
        known || !same_remote || no_chain || far || fits
    }

    /// Starts the sending side: a fresh ratchet key pair, and a sending chain
    /// from a root step keyed by `shared_secret` over the shared secret with
    /// the peer's ratchet key.
    pub fn init_sender(shared_secret: [u8; 32], remote_pub: [u8; 32]) -> (res: Self)
        ensures
            res.wf(),
            res@ == init_sender_state(shared_secret@, remote_pub@, res@.dh_self),
    {
        let dh_self = DhKeyPair::generate();
        let dh_output = x25519_diffie_hellman(&dh_self.secret, &remote_pub);
        let (root_key, sending_chain, _header_key) = kdf_rk(&RootKey(shared_secret), &dh_output);
        let res = DoubleRatchetSession {
            dh_self,
            dh_remote: Some(remote_pub),
            root_key,
            sending_chain: Some(sending_chain),
            receiving_chain: None,
            send_count: 0,
            recv_count: 0,
            prev_send_count: 0,
            skipped_message_keys: SkippedKeys::new(),
        };
        assert(res@ =~= init_sender_state(shared_secret@, remote_pub@, res@.dh_self));
        res
    }

    /// Starts the receiving side: a fresh ratchet key pair and `shared_secret`
    /// as root key; returns the session and its ratchet public key.
    pub fn init_receiver(shared_secret: [u8; 32]) -> (res: (Self, [u8; 32]))
        ensures
            res.0.wf(),
            res.0@ == init_receiver_state(shared_secret@, res.0@.dh_self),
            res.1@ == res.0@.dh_self_pub,
    {
        let dh_self = DhKeyPair::generate();
        let pub_bytes = dh_self.public;
        let session = DoubleRatchetSession {
            dh_self,
            dh_remote: None,
            root_key: RootKey(shared_secret),
            sending_chain: None,
            receiving_chain: None,
            send_count: 0,
            recv_count: 0,
            prev_send_count: 0,
            skipped_message_keys: SkippedKeys::new(),
        };
        assert(session@ =~= init_receiver_state(shared_secret@, session@.dh_self));
        (session, pub_bytes)
    }

    /// Encrypts `plaintext` with the next key of the sending chain (starting
    /// the chain from a root step if there is none yet) and returns the
    /// header and the ciphertext.
    pub fn ratchet_encrypt(&mut self, plaintext: &[u8]) -> (res: Result<(RatchetHeader, Vec<u8>), RatchetError>)
        requires
            old(self).wf(),
            encrypt_allowed(old(self)@),
        ensures
            final(self).wf(),
            final(self)@ == encrypt_next(old(self)@),
            match res {
                Ok((h, c)) => encryption_of(old(self)@, plaintext@, h, c@),
                Err(e) => encrypt_result(old(self)@, plaintext@) == Err::<Seq<u8>, RatchetError>(e),
            },
            res is Ok <==> plaintext@.len() / 64 < 0xffff_ffff,
            res matches Ok((h, c)) ==> c@.len() == plaintext@.len() + 16,
    {
        let ghost s0 = self@;
        let chain = match self.sending_chain.take() {
            Some(c) => c,
            None => {
                let remote = self.dh_remote.unwrap();
                let dh_output = x25519_diffie_hellman(&self.dh_self.secret, &remote);
                let (rk, ck, _header_key) = kdf_rk(&self.root_key, &dh_output);
                self.root_key = rk;
                ck
            },
        };
        assert(chain.0@ == sending_step(s0).1);
        let (next_chain, message_key) = chain.advance();
        self.sending_chain = Some(next_chain);
        let header = RatchetHeader {
            dh_public: self.dh_self.public,
            prev_chain_length: self.prev_send_count,
            message_number: self.send_count,
        };
        self.send_count = self.send_count + 1;
        assert(self@ =~= encrypt_next(s0));
        assert(header_ad(header) =~= encrypt_ad(s0));
        match encrypt_with_message_key(&message_key, plaintext, &header) {
            Ok(ciphertext) => Ok((header, ciphertext)),
            Err(e) => Err(e),
        }
    }

    /// Decrypts a message: with a stored key if it was skipped earlier;
    /// otherwise after a Diffie-Hellman step if its ratchet key is new, and
    /// after storing the keys of the messages it skips on its chain.
    pub fn ratchet_decrypt(&mut self, header: &RatchetHeader, ciphertext: &[u8]) -> (res: Result<Vec<u8>, RatchetError>)
        requires
            old(self).wf(),
            decrypt_counter_fits(old(self)@, *header),
        ensures
            final(self).wf(),
            ({
                let (st, r) = spec_decrypt(old(self)@, *header, ciphertext@, final(self)@.dh_self);
                &&& final(self)@ == st
                &&& match res {
                    Ok(p) => r == Ok::<Seq<u8>, RatchetError>(p@),
                    Err(e) => r == Err::<Seq<u8>, RatchetError>(e),
                }
            }),
    {
        let ghost s0 = self@;
        match self.skipped_message_keys.remove(&header.dh_public, header.message_number) {
            Some(mk_bytes) => {
                assert(self@ =~= RatchetState { skipped: s0.skipped.remove((header.dh_public@, header.message_number)), ..s0 });
                return decrypt_with_message_key_bytes(&mk_bytes, ciphertext, header);
            },
            None => {
                assert(self@ =~= s0);
            },
        }
        let remote_pub = header.dh_public;
        let is_new_ratchet = match &self.dh_remote {
            Some(p) => !same_bytes_32(p, &remote_pub),
            None => true,
        };
        assert(is_new_ratchet == (s0.dh_remote != Some(header.dh_public@)));
        if is_new_ratchet {
            match self.skip_message_keys(header.prev_chain_length) {
                Ok(()) => {},
                Err(e) => {
                    return Err(e);
                },
            }
            self.perform_dh_ratchet(remote_pub);
        }
        let ghost s1 = self@;
        match self.skip_message_keys(header.message_number) {
            Ok(()) => {},
            Err(e) => {
                return Err(e);
            },
        }
        let ghost s2 = self@;
        let chain = match self.receiving_chain.take() {
            Some(c) => c,
            None => {
                return Err(RatchetError::DecryptionFailed);
            },
        };
        let (next_chain, message_key) = chain.advance();
        self.receiving_chain = Some(next_chain);
        self.recv_count = self.recv_count + 1;
        assert(self@ =~= RatchetState {
            receiving_chain: Some(next_chain_key_of(s2.receiving_chain.unwrap())),
            recv_count: (s2.recv_count + 1) as u32,
            ..s2
        });
        decrypt_with_message_key(&message_key, ciphertext, header)
    }

    fn skip_message_keys(&mut self, until: u32) -> (res: Result<(), RatchetError>)
        requires
            old(self).wf(),
        ensures
            final(self).wf(),
            match spec_skip(old(self)@, until) {
                Ok(t) => res is Ok && final(self)@ == t,
                Err(e) => res == Err::<(), RatchetError>(e) && final(self)@ == old(self)@,
            },
    {
        if until.saturating_sub(self.recv_count) > MAX_SKIP {
            return Err(RatchetError::TooManySkippedMessages);
        }
        let ghost s0 = self@;
        let ghost r0 = self.recv_count;
        proof {
            if s0.receiving_chain is Some {
                assert(s0.skipped.union_prefer_right(
                    skipped_keys_of(s0.dh_remote.unwrap(), s0.receiving_chain.unwrap(), r0, r0),
                ) =~= s0.skipped);
                assert(chain_nth(s0.receiving_chain.unwrap(), 0) == s0.receiving_chain.unwrap());
            }
        }
        while self.recv_count < until
            invariant
                self.store_wf(),
                r0 == s0.recv_count,
                s0 == old(self)@,
                !(until > r0 && until - r0 > MAX_SKIP),
                r0 <= self.recv_count,
                self.recv_count <= until || self.recv_count == r0,
                s0.wf(),
                self.recv_count == r0 ==> self@ == s0,
                self.recv_count > r0 ==> s0.receiving_chain is Some,
                s0.receiving_chain is Some ==> self@ == (RatchetState {
                    receiving_chain: Some(chain_nth(s0.receiving_chain.unwrap(), (self.recv_count - r0) as nat)),
                    recv_count: self.recv_count,
                    skipped: s0.skipped.union_prefer_right(
                        skipped_keys_of(s0.dh_remote.unwrap(), s0.receiving_chain.unwrap(), r0, self.recv_count),
                    ),
                    ..s0
                }),
            decreases until - self.recv_count,
        {
            let ghost before = self@;
            let chain = match self.receiving_chain.take() {
                Some(c) => c,
                None => {
                    assert(self@ =~= s0);
                    return Err(RatchetError::DecryptionFailed);
                },
            };
            let (next_chain, mk) = chain.advance();
            self.receiving_chain = Some(next_chain);
            let remote = self.dh_remote.unwrap();
            self.skipped_message_keys.insert(remote, self.recv_count, mk.0);
            self.recv_count = self.recv_count + 1;
            proof {
                let ck0 = s0.receiving_chain.unwrap();
                let rem = s0.dh_remote.unwrap();
                let n = (self.recv_count - 1 - r0) as nat;
                assert(chain_nth(ck0, (n + 1) as nat) == next_chain_key_of(chain_nth(ck0, n)));
                assert(s0.skipped.union_prefer_right(skipped_keys_of(rem, ck0, r0, (self.recv_count - 1) as u32)).insert(
                    (rem, (self.recv_count - 1) as u32),
                    message_key_of(chain_nth(ck0, n)),
                ) =~= s0.skipped.union_prefer_right(skipped_keys_of(rem, ck0, r0, self.recv_count)));
                assert(self@ =~= RatchetState {
                    receiving_chain: Some(chain_nth(ck0, (self.recv_count - r0) as nat)),
                    recv_count: self.recv_count,
                    skipped: s0.skipped.union_prefer_right(skipped_keys_of(rem, ck0, r0, self.recv_count)),
                    ..s0
                });
            }
        }
        Ok(())
    }

    fn perform_dh_ratchet(&mut self, remote_pub: [u8; 32])
        requires
            old(self).wf(),
        ensures
            final(self).wf(),
            final(self)@ == dh_ratchet_state(old(self)@, remote_pub@, final(self)@.dh_self),
    {
        let ghost s0 = self@;
        self.prev_send_count = self.send_count;
        self.send_count = 0;
        self.recv_count = 0;
        self.dh_remote = Some(remote_pub);
        let dh_recv = x25519_diffie_hellman(&self.dh_self.secret, &remote_pub);
        let (rk, receiving_chain, _header_key) = kdf_rk(&self.root_key, &dh_recv);
        self.root_key = rk;
        self.receiving_chain = Some(receiving_chain);
        let new_dh = DhKeyPair::generate();
        let dh_send = x25519_diffie_hellman(&new_dh.secret, &remote_pub);
        let (rk2, sending_chain, _header_key2) = kdf_rk(&self.root_key, &dh_send);
        self.root_key = rk2;
        self.sending_chain = Some(sending_chain);
        self.dh_self = new_dh;
        assert(self@ =~= dh_ratchet_state(s0, remote_pub@, self@.dh_self));
    }
}

// ------------------------------------------------------------------- laws

/// A receiving state `b` is in step with a sending state `a`: `b` receives on
/// the chain that `a` sends on, knows `a`'s ratchet key, expects `a`'s next
/// message number and holds no skipped key for it or a later number.
pub open spec fn in_step(a: RatchetState, b: RatchetState) -> bool {
    &&& a.sending_chain is Some
    &&& b.receiving_chain == a.sending_chain
    &&& b.dh_remote == Some(a.dh_self_pub)
    &&& b.recv_count == a.send_count
    &&& forall|n: u32| n >= a.send_count ==> !(#[trigger] b.skipped.contains_key((a.dh_self_pub, n)))
}

/// Law: the first message that a sender started against a receiver (the
/// same shared secret and the receiver's ratchet key) encrypts decrypts at
/// that receiver to the plaintext, whatever fresh ratchet key the receiver
/// draws; afterwards the two are in step.
pub proof fn law_first_message_decrypts(
    shared_secret: Seq<u8>,
    receiver_secret: Seq<u8>,
    sender_secret: Seq<u8>,
    pt: Seq<u8>,
    h: RatchetHeader,
    ct: Seq<u8>,
    fresh: Seq<u8>,
)
    requires
        init_receiver_state(shared_secret, receiver_secret).wf(),
        init_sender_state(shared_secret, x25519_public(receiver_secret), sender_secret).wf(),
        encryption_of(
            init_sender_state(shared_secret, x25519_public(receiver_secret), sender_secret),
            pt,
            h,
            ct,
        ),
    ensures
        ({
            let a = init_sender_state(shared_secret, x25519_public(receiver_secret), sender_secret);
            let b = init_receiver_state(shared_secret, receiver_secret);
            let (b2, r) = spec_decrypt(b, h, ct, fresh);
            &&& r == Ok::<Seq<u8>, RatchetError>(pt)
            &&& in_step(encrypt_next(a), b2)
        }),
{
    let a = init_sender_state(shared_secret, x25519_public(receiver_secret), sender_secret);
    let b = init_receiver_state(shared_secret, receiver_secret);
    assert(!b.skipped.contains_key((h.dh_public@, h.message_number)));
    assert(spec_skip(b, h.prev_chain_length) == Ok::<RatchetState, RatchetError>(b));
    let s1 = dh_ratchet_state(b, h.dh_public@, fresh);
    assert(x25519_shared(receiver_secret, a.dh_self_pub) == x25519_shared(
        sender_secret,
        x25519_public(receiver_secret),
    ));
    assert(s1.receiving_chain == a.sending_chain);
    assert(spec_skip(s1, h.message_number) == Ok::<RatchetState, RatchetError>(s1));
    let (b2, r) = spec_decrypt(b, h, ct, fresh);
    assert(b2.skipped =~= Map::<(Seq<u8>, u32), Seq<u8>>::empty());
}

/// Law: a receiver in step with a sender decrypts the sender's next message
/// to its plaintext, whatever fresh ratchet key it could draw, and the two
/// stay in step. With the law above, every message that a started sender
/// encrypts decrypts, in order, at its receiver.
pub proof fn law_in_step_message_decrypts(
    a: RatchetState,
    b: RatchetState,
    pt: Seq<u8>,
    h: RatchetHeader,
    ct: Seq<u8>,
    fresh: Seq<u8>,
)
    requires
        in_step(a, b),
        a.send_count < u32::MAX,
        encryption_of(a, pt, h, ct),
    ensures
        ({
            let (b2, r) = spec_decrypt(b, h, ct, fresh);
            &&& r == Ok::<Seq<u8>, RatchetError>(pt)
            &&& in_step(encrypt_next(a), b2)
        }),
{
    assert(!b.skipped.contains_key((h.dh_public@, h.message_number)));
    assert(spec_skip(b, h.message_number) == Ok::<RatchetState, RatchetError>(b));
}

/// Law: when a receiver in step with a sender gets the sender's next two
/// messages in swapped order, both decrypt to their plaintexts (the first
/// with the key stored when it was skipped), and the two are in step
/// afterwards.
pub proof fn law_swapped_messages_decrypt(
    a: RatchetState,
    b: RatchetState,
    pt1: Seq<u8>,
    h1: RatchetHeader,
    ct1: Seq<u8>,
    pt2: Seq<u8>,
    h2: RatchetHeader,
    ct2: Seq<u8>,
    fresh: Seq<u8>,
)
    requires
        in_step(a, b),
        a.send_count + 1 < u32::MAX,
        encryption_of(a, pt1, h1, ct1),
        encryption_of(encrypt_next(a), pt2, h2, ct2),
    ensures
        ({
            let (b2, r2) = spec_decrypt(b, h2, ct2, fresh);
            let (b3, r1) = spec_decrypt(b2, h1, ct1, fresh);
            &&& r2 == Ok::<Seq<u8>, RatchetError>(pt2)
            &&& r1 == Ok::<Seq<u8>, RatchetError>(pt1)
            &&& in_step(encrypt_next(encrypt_next(a)), b3)
        }),
{
    let a2 = encrypt_next(a);
    let ck = a.sending_chain.unwrap();
    assert(!b.skipped.contains_key((h2.dh_public@, h2.message_number)));
    let t = spec_skip(b, h2.message_number)->Ok_0;
    assert(chain_nth(ck, 1) == next_chain_key_of(chain_nth(ck, 0)));
    assert(t.receiving_chain == a2.sending_chain);
    let (b2, r2) = spec_decrypt(b, h2, ct2, fresh);
    let k1 = (h1.dh_public@, h1.message_number);
    assert(skipped_keys_of(a.dh_self_pub, ck, a.send_count, h2.message_number).contains_key(k1));
    assert(b2.skipped.contains_key(k1));
    assert(b2.skipped[k1] == message_key_of(ck));
    let (b3, r1) = spec_decrypt(b2, h1, ct1, fresh);
    assert forall|n: u32| n >= a2.send_count + 1 implies !(#[trigger] b3.skipped.contains_key(
        (a.dh_self_pub, n),
    )) by {
        assert(!b.skipped.contains_key((a.dh_self_pub, n)));
    }
}

/// Law: the reply that the receiver encrypts after decrypting the first
/// message decrypts at the sender to its plaintext (the sender takes a
/// Diffie-Hellman step to the receiver's fresh ratchet key), and the sender
/// is then in step with the receiver. It needs the receiver's fresh ratchet
/// key to differ from its first one.
pub proof fn law_first_reply_decrypts(
    shared_secret: Seq<u8>,
    receiver_secret: Seq<u8>,
    sender_secret: Seq<u8>,
    pt1: Seq<u8>,
    h1: RatchetHeader,
    ct1: Seq<u8>,
    receiver_fresh: Seq<u8>,
    pt2: Seq<u8>,
    h2: RatchetHeader,
    ct2: Seq<u8>,
    sender_fresh: Seq<u8>,
)
    requires
        init_receiver_state(shared_secret, receiver_secret).wf(),
        init_sender_state(shared_secret, x25519_public(receiver_secret), sender_secret).wf(),
        encryption_of(
            init_sender_state(shared_secret, x25519_public(receiver_secret), sender_secret),
            pt1,
            h1,
            ct1,
        ),
        receiver_fresh.len() == 32,
        x25519_public(receiver_fresh) != x25519_public(receiver_secret),
        encryption_of(
            spec_decrypt(init_receiver_state(shared_secret, receiver_secret), h1, ct1, receiver_fresh).0,
            pt2,
            h2,
            ct2,
        ),
    ensures
        ({
            let a1 = encrypt_next(init_sender_state(shared_secret, x25519_public(receiver_secret), sender_secret));
            let b2 = spec_decrypt(init_receiver_state(shared_secret, receiver_secret), h1, ct1, receiver_fresh).0;
            let (a2, r) = spec_decrypt(a1, h2, ct2, sender_fresh);
            &&& r == Ok::<Seq<u8>, RatchetError>(pt2)
            &&& in_step(encrypt_next(b2), a2)
        }),
{
    let a0 = init_sender_state(shared_secret, x25519_public(receiver_secret), sender_secret);
    let a1 = encrypt_next(a0);
    let b = init_receiver_state(shared_secret, receiver_secret);
    law_first_message_decrypts(shared_secret, receiver_secret, sender_secret, pt1, h1, ct1, receiver_fresh);
    let b2 = spec_decrypt(b, h1, ct1, receiver_fresh).0;
    assert(spec_skip(b, h1.prev_chain_length) == Ok::<RatchetState, RatchetError>(b));
    let s1 = dh_ratchet_state(b, h1.dh_public@, receiver_fresh);
    assert(spec_skip(s1, h1.message_number) == Ok::<RatchetState, RatchetError>(s1));
    assert(x25519_shared(receiver_secret, a0.dh_self_pub) == x25519_shared(
        sender_secret,
        x25519_public(receiver_secret),
    ));
    assert(x25519_shared(receiver_fresh, a0.dh_self_pub) == x25519_shared(
        sender_secret,
        x25519_public(receiver_fresh),
    ));
    assert(b2.root_key == next_root_key_of(
        next_root_key_of(shared_secret, x25519_shared(sender_secret, x25519_public(receiver_secret))),
        x25519_shared(receiver_fresh, a0.dh_self_pub),
    ));
    assert(!a1.skipped.contains_key((h2.dh_public@, h2.message_number)));
    assert(spec_skip(a1, h2.prev_chain_length) == Ok::<RatchetState, RatchetError>(a1));
    let t1 = dh_ratchet_state(a1, h2.dh_public@, sender_fresh);
    assert(t1.receiving_chain == b2.sending_chain);
    assert(spec_skip(t1, h2.message_number) == Ok::<RatchetState, RatchetError>(t1));
    let (a2, r) = spec_decrypt(a1, h2, ct2, sender_fresh);
    assert(a2.skipped =~= Map::<(Seq<u8>, u32), Seq<u8>>::empty());
}

/// Law: a message more than `MAX_SKIP` numbers ahead on the current
/// receiving chain is refused with `TooManySkippedMessages`, and the state
/// stays as it was.
pub proof fn law_too_far_ahead_refused(s: RatchetState, h: RatchetHeader, ct: Seq<u8>, fresh: Seq<u8>)
    requires
        !s.skipped.contains_key((h.dh_public@, h.message_number)),
        s.dh_remote == Some(h.dh_public@),
        h.message_number > s.recv_count,
        h.message_number - s.recv_count > MAX_SKIP,
    ensures
        spec_decrypt(s, h, ct, fresh) == (s, Err::<Seq<u8>, RatchetError>(RatchetError::TooManySkippedMessages)),
{
}

/// Law: the key of a skipped message is used once; decrypting with it drops
/// it from the store, whatever the decryption gives.
pub proof fn law_skipped_key_used_once(s: RatchetState, h: RatchetHeader, ct: Seq<u8>, fresh: Seq<u8>)
    requires
        s.skipped.contains_key((h.dh_public@, h.message_number)),
    ensures
        ({
            let (t, r) = spec_decrypt(s, h, ct, fresh);
            &&& !t.skipped.contains_key((h.dh_public@, h.message_number))
            &&& r == open_message(s.skipped[(h.dh_public@, h.message_number)], header_ad(h), ct)
        }),
{
}

proof fn lemma_le_u32_injective(x: u32, y: u32)
    requires
        le_u32(x) == le_u32(y),
    ensures
        x == y,
{
    let a = le_u32(x);
    let b = le_u32(y);
    assert(a[0] == b[0] && a[1] == b[1] && a[2] == b[2] && a[3] == b[3]);
    assert(x == (x % 256) + 256 * ((x / 256) % 256) + 65536 * ((x / 65536) % 256) + 16777216 * (x / 16777216)) by (nonlinear_arith);
    assert(y == (y % 256) + 256 * ((y / 256) % 256) + 65536 * ((y / 65536) % 256) + 16777216 * (y / 16777216)) by (nonlinear_arith);
}

/// Law: the associated data determines the header; two headers with equal
/// associated data carry the same ratchet key, previous chain length and
/// message number, so a ciphertext is bound to every header field.
pub proof fn law_header_ad_injective(h1: RatchetHeader, h2: RatchetHeader)
    requires
        header_ad(h1) == header_ad(h2),
    ensures
        h1.dh_public@ == h2.dh_public@,
        h1.prev_chain_length == h2.prev_chain_length,
        h1.message_number == h2.message_number,
{
    let a1 = header_ad(h1);
    let a2 = header_ad(h2);
    assert(a1.subrange(0, 32) =~= h1.dh_public@);
    assert(a2.subrange(0, 32) =~= h2.dh_public@);
    assert(a1.subrange(32, 36) =~= le_u32(h1.prev_chain_length));
    assert(a2.subrange(32, 36) =~= le_u32(h2.prev_chain_length));
    assert(a1.subrange(36, 40) =~= le_u32(h1.message_number));
    assert(a2.subrange(36, 40) =~= le_u32(h2.message_number));
    lemma_le_u32_injective(h1.prev_chain_length, h2.prev_chain_length);
    lemma_le_u32_injective(h1.message_number, h2.message_number);
}

/// Walking a chain `a` steps and then `k` more is walking it `a + k` steps.
pub proof fn lemma_chain_nth_add(ck: Seq<u8>, a: nat, k: nat)
    ensures
        chain_nth(chain_nth(ck, a), k) == chain_nth(ck, a + k),
    decreases k,
{
    if k > 0 {
        lemma_chain_nth_add(ck, a, (k - 1) as nat);
    }
}

/// `b` receives the sending chain that starts with `ck0` at message number
/// `base` under the peer key `remote`, and has decrypted exactly the
/// messages numbered in `delivered`: it holds the key of every earlier
/// message not yet decrypted, and no key of a decrypted or later one.
pub open spec fn receives_chain(b: RatchetState, ck0: Seq<u8>, remote: Seq<u8>, base: u32, delivered: Set<u32>) -> bool {
    &&& b.dh_remote == Some(remote)
    &&& base <= b.recv_count
    &&& b.receiving_chain == Some(chain_nth(ck0, (b.recv_count - base) as nat))
    &&& forall|n: u32|
        base <= n < b.recv_count && !delivered.contains(n) ==> #[trigger] b.skipped.contains_key((remote, n))
            && b.skipped[(remote, n)] == message_key_of(chain_nth(ck0, (n - base) as nat))
    &&& forall|n: u32| #[trigger] delivered.contains(n) ==> base <= n < b.recv_count && !b.skipped.contains_key((remote, n))
    &&& forall|n: u32| n >= b.recv_count ==> !(#[trigger] b.skipped.contains_key((remote, n)))
}

/// `(h, ct)` is the message numbered `h.message_number` of the chain that
/// starts with `ck0` at number `base` under the sender key `remote`, and it
/// opens to `pt`.
pub open spec fn sent_on_chain(ck0: Seq<u8>, remote: Seq<u8>, base: u32, pt: Seq<u8>, h: RatchetHeader, ct: Seq<u8>) -> bool {
    &&& h.dh_public@ == remote
    &&& base <= h.message_number
    &&& open_message(message_key_of(chain_nth(ck0, (h.message_number - base) as nat)), header_ad(h), ct)
        == Ok::<Seq<u8>, RatchetError>(pt)
}

/// Law: a receiver in step with a sender receives the chain the sender
/// sends on, from the sender's next message number, with nothing delivered.
pub proof fn law_in_step_receives_chain(a: RatchetState, b: RatchetState)
    requires
        in_step(a, b),
    ensures
        receives_chain(b, a.sending_chain.unwrap(), a.dh_self_pub, a.send_count, Set::empty()),
{
}

/// Law: each message that a sender encrypts on a chain is that chain's
/// message of its number, and the sender stays on the chain.
pub proof fn law_sent_on_chain(a: RatchetState, ck0: Seq<u8>, base: u32, pt: Seq<u8>, h: RatchetHeader, ct: Seq<u8>)
    requires
        base <= a.send_count < u32::MAX,
        a.sending_chain == Some(chain_nth(ck0, (a.send_count - base) as nat)),
        encryption_of(a, pt, h, ct),
    ensures
        sent_on_chain(ck0, a.dh_self_pub, base, pt, h, ct),
        encrypt_next(a).dh_self_pub == a.dh_self_pub,
        encrypt_next(a).send_count == a.send_count + 1,
        encrypt_next(a).sending_chain == Some(chain_nth(ck0, (encrypt_next(a).send_count - base) as nat)),
{
}

/// Law: the messages of one sending chain decrypt in any order of delivery.
/// A receiver of the chain decrypts each message not yet delivered to its
/// plaintext, whether it comes after the ones seen so far (at most
/// `MAX_SKIP` numbers ahead) or before them (with the key stored when it was
/// skipped), and goes on receiving the chain with that message delivered.
pub proof fn law_chain_messages_decrypt_in_any_order(
    b: RatchetState,
    ck0: Seq<u8>,
    remote: Seq<u8>,
    base: u32,
    delivered: Set<u32>,
    pt: Seq<u8>,
    h: RatchetHeader,
    ct: Seq<u8>,
    fresh: Seq<u8>,
)
    requires
        receives_chain(b, ck0, remote, base, delivered),
        sent_on_chain(ck0, remote, base, pt, h, ct),
        !delivered.contains(h.message_number),
        h.message_number >= b.recv_count ==> h.message_number - b.recv_count <= MAX_SKIP,
        h.message_number < u32::MAX,
    ensures
        ({
            let (b2, r) = spec_decrypt(b, h, ct, fresh);
            &&& r == Ok::<Seq<u8>, RatchetError>(pt)
            &&& receives_chain(b2, ck0, remote, base, delivered.insert(h.message_number))
            &&& b2.recv_count == if h.message_number < b.recv_count { b.recv_count as int } else { h.message_number + 1 }
            &&& b2 == (RatchetState {
                receiving_chain: b2.receiving_chain,
                recv_count: b2.recv_count,
                skipped: b2.skipped,
                ..b
            })
        }),
{
    let n = h.message_number;
    let key = (remote, n);
    let d2 = delivered.insert(n);
    let (b2, r) = spec_decrypt(b, h, ct, fresh);
    if n < b.recv_count {
        assert(b.skipped.contains_key(key));
        assert(b2 == RatchetState { skipped: b.skipped.remove(key), ..b });
        assert forall|m: u32| base <= m < b2.recv_count && !d2.contains(m) implies #[trigger] b2.skipped.contains_key(
            (remote, m),
        ) && b2.skipped[(remote, m)] == message_key_of(chain_nth(ck0, (m - base) as nat)) by {
            assert(b.skipped.contains_key((remote, m)));
        }
        assert forall|m: u32| #[trigger] d2.contains(m) implies base <= m < b2.recv_count && !b2.skipped.contains_key(
            (remote, m),
        ) by {
            if m != n {
                assert(delivered.contains(m));
            }
        }
    } else {
        assert(!b.skipped.contains_key(key));
        let ck = b.receiving_chain.unwrap();
        let r0 = b.recv_count;
        let t = spec_skip(b, n)->Ok_0;
        lemma_chain_nth_add(ck0, (r0 - base) as nat, (n - r0) as nat);
        assert(t.receiving_chain == Some(chain_nth(ck0, (n - base) as nat)));
        assert(t.recv_count == n);
        let newkeys = skipped_keys_of(remote, ck, r0, n);
        assert(t.skipped == if r0 >= n { b.skipped } else { b.skipped.union_prefer_right(newkeys) });
        assert(b2 == RatchetState {
            receiving_chain: Some(next_chain_key_of(chain_nth(ck0, (n - base) as nat))),
            recv_count: (n + 1) as u32,
            ..t
        });
        assert(chain_nth(ck0, (n + 1 - base) as nat) == next_chain_key_of(chain_nth(ck0, (n - base) as nat)));
        assert forall|m: u32| base <= m < b2.recv_count && !d2.contains(m) implies #[trigger] b2.skipped.contains_key(
            (remote, m),
        ) && b2.skipped[(remote, m)] == message_key_of(chain_nth(ck0, (m - base) as nat)) by {
            if m < r0 {
                assert(b.skipped.contains_key((remote, m)));
                assert(!newkeys.contains_key((remote, m)));
            } else {
                assert(m < n);
                assert(newkeys.contains_key((remote, m)));
                lemma_chain_nth_add(ck0, (r0 - base) as nat, (m - r0) as nat);
            }
        }
        assert forall|m: u32| #[trigger] d2.contains(m) implies base <= m < b2.recv_count && !b2.skipped.contains_key(
            (remote, m),
        ) by {
            if m != n {
                assert(delivered.contains(m));
                assert(!newkeys.contains_key((remote, m)));
            } else {
                assert(!newkeys.contains_key((remote, m)));
            }
        }
        assert forall|m: u32| m >= b2.recv_count implies !(#[trigger] b2.skipped.contains_key((remote, m))) by {
            assert(!b.skipped.contains_key((remote, m)));
            assert(!newkeys.contains_key((remote, m)));
        }
    }
}

/// `b` holds the key of message `n` of the closed chain that started with
/// `ck0` at number `base` (under the peer key `remote`) if it is numbered
/// `base..end` and not listed in `delivered`, and no key for it if it is.
pub open spec fn key_held(b: RatchetState, ck0: Seq<u8>, remote: Seq<u8>, base: u32, end: u32, delivered: Set<u32>, n: u32) -> bool {
    &&& (base <= n && n < end && !delivered.contains(n)) ==> b.skipped.contains_key((remote, n))
        && b.skipped[(remote, n)] == message_key_of(chain_nth(ck0, (n - base) as nat))
    &&& delivered.contains(n) ==> !b.skipped.contains_key((remote, n))
}

/// `b` holds the keys of every message of that closed chain that it has not
/// decrypted, and none of one it has.
pub open spec fn holds_chain_keys(b: RatchetState, ck0: Seq<u8>, remote: Seq<u8>, base: u32, end: u32, delivered: Set<u32>) -> bool {
    forall|n: u32| #[trigger] key_held(b, ck0, remote, base, end, delivered, n)
}

/// Skipping never drops a stored key, and only adds keys under the current
/// peer key.
pub proof fn lemma_skip_keeps_keys(s: RatchetState, until: u32)
    requires
        spec_skip(s, until) is Ok,
        s.dh_remote is Some,
    ensures
        ({
            let t = spec_skip(s, until)->Ok_0;
            &&& t.dh_remote == s.dh_remote
            &&& forall|k: (Seq<u8>, u32)| #[trigger] t.skipped.contains_key(k) && k.0 != s.dh_remote.unwrap() ==> s.skipped.contains_key(k)
                && t.skipped[k] == s.skipped[k]
            &&& forall|k: (Seq<u8>, u32)| s.skipped.contains_key(k) && k.0 != s.dh_remote.unwrap() ==> #[trigger] t.skipped.contains_key(k)
        }),
{
    let t = spec_skip(s, until)->Ok_0;
    if !(until > s.recv_count && until - s.recv_count > MAX_SKIP) && s.recv_count < until {
        let nk = skipped_keys_of(s.dh_remote.unwrap(), s.receiving_chain.unwrap(), s.recv_count, until);
        assert(t.skipped == s.skipped.union_prefer_right(nk));
        assert forall|k: (Seq<u8>, u32)| #[trigger] t.skipped.contains_key(k) && k.0 != s.dh_remote.unwrap() implies s.skipped.contains_key(k)
            && t.skipped[k] == s.skipped[k] by {
            assert(!nk.contains_key(k));
        }
    }
}

/// Held keys stay held in a state whose keys under `remote` are those of
/// `b`.
pub proof fn lemma_same_keys_held(b: RatchetState, c: RatchetState, ck0: Seq<u8>, remote: Seq<u8>, base: u32, end: u32, delivered: Set<u32>)
    requires
        holds_chain_keys(b, ck0, remote, base, end, delivered),
        forall|k: (Seq<u8>, u32)| k.0 == remote ==> (#[trigger] c.skipped.contains_key(k) <==> b.skipped.contains_key(k)),
        forall|k: (Seq<u8>, u32)| k.0 == remote && #[trigger] c.skipped.contains_key(k) ==> c.skipped[k] == b.skipped[k],
    ensures
        holds_chain_keys(c, ck0, remote, base, end, delivered),
{
    assert forall|m: u32| #[trigger] key_held(c, ck0, remote, base, end, delivered, m) by {
        assert(key_held(b, ck0, remote, base, end, delivered, m));
        assert(c.skipped.contains_key((remote, m)) <==> b.skipped.contains_key((remote, m)));
    }
}

/// Law: when a message under a new peer key arrives, the receiver of a
/// chain stores the keys of that chain's messages it has not decrypted, up
/// to the length the header announces (at most `MAX_SKIP` ahead), whatever
/// the message itself gives.
pub proof fn law_new_key_keeps_old_chain(
    b: RatchetState,
    ck0: Seq<u8>,
    remote: Seq<u8>,
    base: u32,
    delivered: Set<u32>,
    h: RatchetHeader,
    ct: Seq<u8>,
    fresh: Seq<u8>,
)
    requires
        receives_chain(b, ck0, remote, base, delivered),
        h.dh_public@ != remote,
        !b.skipped.contains_key((h.dh_public@, h.message_number)),
        b.recv_count <= h.prev_chain_length,
        h.prev_chain_length - b.recv_count <= MAX_SKIP,
    ensures
        holds_chain_keys(spec_decrypt(b, h, ct, fresh).0, ck0, remote, base, h.prev_chain_length, delivered),
{
    let end = h.prev_chain_length;
    let r0 = b.recv_count;
    let ck = b.receiving_chain.unwrap();
    let t = spec_skip(b, end)->Ok_0;
    let newkeys = skipped_keys_of(remote, ck, r0, end);
    assert(t.skipped == if r0 >= end { b.skipped } else { b.skipped.union_prefer_right(newkeys) });
    assert forall|m: u32| #[trigger] key_held(t, ck0, remote, base, end, delivered, m) by {
        if base <= m && m < r0 && !delivered.contains(m) {
            assert(b.skipped.contains_key((remote, m)));
            assert(!newkeys.contains_key((remote, m)));
        } else if r0 <= m && m < end {
            assert(newkeys.contains_key((remote, m)));
            lemma_chain_nth_add(ck0, (r0 - base) as nat, (m - r0) as nat);
        }
        if delivered.contains(m) {
            assert(!newkeys.contains_key((remote, m)));
        }
    }
    let s1 = dh_ratchet_state(t, h.dh_public@, fresh);
    assert(s1.skipped == t.skipped);
    lemma_same_keys_held(t, s1, ck0, remote, base, end, delivered);
    let b2 = spec_decrypt(b, h, ct, fresh).0;
    if spec_skip(s1, h.message_number) is Ok {
        lemma_skip_keeps_keys(s1, h.message_number);
        let s2 = spec_skip(s1, h.message_number)->Ok_0;
        assert(b2.skipped == s2.skipped);
        lemma_same_keys_held(s1, b2, ck0, remote, base, end, delivered);
    } else {
        assert(b2 == s1);
    }
}

/// Law: a message of a closed chain whose key is held decrypts to its
/// plaintext, and the key is dropped.
pub proof fn law_late_message_decrypts(
    b: RatchetState,
    ck0: Seq<u8>,
    remote: Seq<u8>,
    base: u32,
    end: u32,
    delivered: Set<u32>,
    pt: Seq<u8>,
    h: RatchetHeader,
    ct: Seq<u8>,
    fresh: Seq<u8>,
)
    requires
        holds_chain_keys(b, ck0, remote, base, end, delivered),
        sent_on_chain(ck0, remote, base, pt, h, ct),
        h.message_number < end,
        !delivered.contains(h.message_number),
    ensures
        ({
            let (b2, r) = spec_decrypt(b, h, ct, fresh);
            &&& r == Ok::<Seq<u8>, RatchetError>(pt)
            &&& holds_chain_keys(b2, ck0, remote, base, end, delivered.insert(h.message_number))
        }),
{
    let n = h.message_number;
    let key = (remote, n);
    assert(key_held(b, ck0, remote, base, end, delivered, n));
    assert((h.dh_public@, h.message_number) == key);
    let d2 = delivered.insert(n);
    let (b2, r) = spec_decrypt(b, h, ct, fresh);
    assert(b2 == RatchetState { skipped: b.skipped.remove(key), ..b });
    assert forall|m: u32| #[trigger] key_held(b2, ck0, remote, base, end, d2, m) by {
        assert(key_held(b, ck0, remote, base, end, delivered, m));
    }
}

/// Law: the held keys of a closed chain survive every message under another
/// peer key, once the receiver has moved on from that chain.
pub proof fn law_held_keys_survive(
    b: RatchetState,
    ck0: Seq<u8>,
    remote: Seq<u8>,
    base: u32,
    end: u32,
    delivered: Set<u32>,
    h: RatchetHeader,
    ct: Seq<u8>,
    fresh: Seq<u8>,
)
    requires
        holds_chain_keys(b, ck0, remote, base, end, delivered),
        b.dh_remote is Some,
        b.dh_remote != Some(remote),
        h.dh_public@ != remote,
    ensures
        holds_chain_keys(spec_decrypt(b, h, ct, fresh).0, ck0, remote, base, end, delivered),
{
    let key = (h.dh_public@, h.message_number);
    let b2 = spec_decrypt(b, h, ct, fresh).0;
    if b.skipped.contains_key(key) {
        assert(b2 == RatchetState { skipped: b.skipped.remove(key), ..b });
        lemma_same_keys_held(b, b2, ck0, remote, base, end, delivered);
    } else if b.dh_remote != Some(h.dh_public@) && spec_skip(b, h.prev_chain_length) is Err {
        assert(b2 == b);
    } else {
        let s1: RatchetState = if b.dh_remote != Some(h.dh_public@) {
            lemma_skip_keeps_keys(b, h.prev_chain_length);
            dh_ratchet_state(spec_skip(b, h.prev_chain_length)->Ok_0, h.dh_public@, fresh)
        } else {
            b
        };
        lemma_same_keys_held(b, s1, ck0, remote, base, end, delivered);
        assert(s1.dh_remote is Some && s1.dh_remote != Some(remote));
        if spec_skip(s1, h.message_number) is Ok {
            lemma_skip_keeps_keys(s1, h.message_number);
            let s2 = spec_skip(s1, h.message_number)->Ok_0;
            assert(b2.skipped == s2.skipped);
            lemma_same_keys_held(s1, b2, ck0, remote, base, end, delivered);
        } else {
            assert(b2 == s1);
        }
    }
}

/// `a` has ratcheted to `b`'s current ratchet key: both key pairs are
/// genuine, `a` knows `b`'s key, and `a`'s root key is the one `b` reaches
/// when it ratchets to `a`'s key.
pub open spec fn ratchet_pair(a: RatchetState, b: RatchetState) -> bool {
    &&& a.wf()
    &&& b.wf()
    &&& a.dh_remote == Some(b.dh_self_pub)
    &&& a.root_key == next_root_key_of(b.root_key, x25519_shared(a.dh_self, b.dh_self_pub))
}

/// The sending chain that `a` started when it ratcheted to `b`'s key.
pub open spec fn pair_chain(a: RatchetState, b: RatchetState) -> Seq<u8> {
    root_chain_key_of(b.root_key, x25519_shared(a.dh_self, b.dh_self_pub))
}

/// `a` sends on the chain it started toward `b`, at its message counter.
pub open spec fn sends_pair_chain(a: RatchetState, b: RatchetState) -> bool {
    a.sending_chain == Some(chain_nth(pair_chain(a, b), a.send_count as nat))
}

/// Law: a sender started against a receiver has ratcheted to the
/// receiver's key and sends on the chain that starts there.
pub proof fn law_started_pair(shared_secret: Seq<u8>, receiver_secret: Seq<u8>, sender_secret: Seq<u8>)
    requires
        init_receiver_state(shared_secret, receiver_secret).wf(),
        init_sender_state(shared_secret, x25519_public(receiver_secret), sender_secret).wf(),
    ensures
        ({
            let a = init_sender_state(shared_secret, x25519_public(receiver_secret), sender_secret);
            let b = init_receiver_state(shared_secret, receiver_secret);
            &&& ratchet_pair(a, b)
            &&& sends_pair_chain(a, b)
        }),
{
}

/// Law: sending keeps a sender paired with the peer and on its chain.
pub proof fn law_sending_keeps_pair(a: RatchetState, b: RatchetState)
    requires
        ratchet_pair(a, b),
        sends_pair_chain(a, b),
        a.send_count < u32::MAX,
    ensures
        ratchet_pair(encrypt_next(a), b),
        sends_pair_chain(encrypt_next(a), b),
        pair_chain(encrypt_next(a), b) == pair_chain(a, b),
{
}

/// The first message of `a`'s new chain to arrive at `b`, whichever number
/// it has (at most `MAX_SKIP`), decrypts to its plaintext; `b` then receives
/// that chain with that message delivered, and has ratcheted to `a`'s key
/// with its fresh key pair.
pub proof fn lemma_unseen_chain_decrypts(
    a: RatchetState,
    b: RatchetState,
    pt: Seq<u8>,
    h: RatchetHeader,
    ct: Seq<u8>,
    fresh: Seq<u8>,
)
    requires
        ratchet_pair(a, b),
        sent_on_chain(pair_chain(a, b), a.dh_self_pub, 0, pt, h, ct),
        h.message_number <= MAX_SKIP,
        b.dh_remote != Some(a.dh_self_pub),
        forall|n: u32| !(#[trigger] b.skipped.contains_key((a.dh_self_pub, n))),
        spec_skip(b, h.prev_chain_length) is Ok,
        fresh.len() == 32,
        dh_agrees(fresh, x25519_public(fresh)),
    ensures
        ({
            let (b2, r) = spec_decrypt(b, h, ct, fresh);
            &&& r == Ok::<Seq<u8>, RatchetError>(pt)
            &&& receives_chain(b2, pair_chain(a, b), a.dh_self_pub, 0, set![h.message_number])
            &&& ratchet_pair(b2, a)
            &&& sends_pair_chain(b2, a)
            &&& b2.dh_self == fresh
            &&& b2.dh_remote == Some(a.dh_self_pub)
            &&& b2.send_count == 0
            &&& b2.prev_send_count == b.send_count
            &&& b2.recv_count == h.message_number + 1
        }),
{
    let k = h.message_number;
    let ck = pair_chain(a, b);
    assert(x25519_shared(b.dh_self, a.dh_self_pub) == x25519_shared(a.dh_self, b.dh_self_pub));
    let t = spec_skip(b, h.prev_chain_length)->Ok_0;
    assert(t.root_key == b.root_key && t.dh_self == b.dh_self && t.send_count == b.send_count);
    assert(!b.skipped.contains_key((h.dh_public@, k)));
    if b.receiving_chain is Some && b.recv_count < h.prev_chain_length {
        lemma_skip_keeps_keys(b, h.prev_chain_length);
    }
    assert forall|n: u32| !(#[trigger] t.skipped.contains_key((a.dh_self_pub, n))) by {
        if b.receiving_chain is Some && b.recv_count < h.prev_chain_length {
            assert(!b.skipped.contains_key((a.dh_self_pub, n)));
        }
    }
    let s1 = dh_ratchet_state(t, h.dh_public@, fresh);
    assert(s1.receiving_chain == Some(ck));
    assert(s1.recv_count == 0);
    let s2 = spec_skip(s1, k)->Ok_0;
    let newkeys = skipped_keys_of(a.dh_self_pub, ck, 0, k);
    assert(s2.skipped == if k == 0 { s1.skipped } else { s1.skipped.union_prefer_right(newkeys) });
    lemma_chain_nth_add(ck, 0, k as nat);
    assert(s2.receiving_chain == Some(chain_nth(ck, k as nat)));
    let (b2, r) = spec_decrypt(b, h, ct, fresh);
    assert(b2 == RatchetState {
        receiving_chain: Some(next_chain_key_of(chain_nth(ck, k as nat))),
        recv_count: (k + 1) as u32,
        ..s2
    });
    let d = set![k];
    assert forall|n: u32| 0 <= n < b2.recv_count && !d.contains(n) implies #[trigger] b2.skipped.contains_key(
        (a.dh_self_pub, n),
    ) && b2.skipped[(a.dh_self_pub, n)] == message_key_of(chain_nth(ck, (n - 0) as nat)) by {
        assert(newkeys.contains_key((a.dh_self_pub, n)));
        lemma_chain_nth_add(ck, 0, n as nat);
    }
    assert forall|n: u32| #[trigger] d.contains(n) implies 0 <= n < b2.recv_count && !b2.skipped.contains_key(
        (a.dh_self_pub, n),
    ) by {
        assert(!t.skipped.contains_key((a.dh_self_pub, n)));
        assert(!newkeys.contains_key((a.dh_self_pub, n)));
    }
    assert forall|n: u32| n >= b2.recv_count implies !(#[trigger] b2.skipped.contains_key((a.dh_self_pub, n))) by {
        assert(!t.skipped.contains_key((a.dh_self_pub, n)));
        assert(!newkeys.contains_key((a.dh_self_pub, n)));
    }
    assert(chain_nth(ck, (k + 1) as nat) == next_chain_key_of(chain_nth(ck, k as nat)));
}

/// Law: the first message of a new chain to arrive, whichever number it
/// has (at most `MAX_SKIP`), decrypts to its plaintext. The receiver then
/// receives that chain with that message delivered (so the chain's other
/// messages decrypt in any order), and has itself ratcheted to the sender's
/// key, with its fresh key pair, so that its replies decrypt in turn.
pub proof fn law_new_chain_decrypts(
    a: RatchetState,
    b: RatchetState,
    pt: Seq<u8>,
    h: RatchetHeader,
    ct: Seq<u8>,
    fresh: Seq<u8>,
)
    requires
        ratchet_pair(a, b),
        sends_pair_chain(a, b),
        a.send_count < u32::MAX,
        a.send_count <= MAX_SKIP,
        encryption_of(a, pt, h, ct),
        b.dh_remote != Some(a.dh_self_pub),
        forall|n: u32| !(#[trigger] b.skipped.contains_key((a.dh_self_pub, n))),
        spec_skip(b, h.prev_chain_length) is Ok,
        fresh.len() == 32,
        dh_agrees(fresh, x25519_public(fresh)),
    ensures
        ({
            let (b2, r) = spec_decrypt(b, h, ct, fresh);
            &&& r == Ok::<Seq<u8>, RatchetError>(pt)
            &&& receives_chain(b2, pair_chain(a, b), a.dh_self_pub, 0, set![h.message_number])
            &&& ratchet_pair(b2, a)
            &&& sends_pair_chain(b2, a)
        }),
{
    law_sent_on_chain(a, pair_chain(a, b), 0, pt, h, ct);
    lemma_unseen_chain_decrypts(a, b, pt, h, ct, fresh);
}

/// The state after `k` encryptions in a row from `s`.
pub open spec fn encrypt_n(s: RatchetState, k: nat) -> RatchetState
    decreases k,
{
    if k == 0 {
        s
    } else {
        encrypt_next(encrypt_n(s, (k - 1) as nat))
    }
}

/// `k` encryptions in a row keep the own ratchet key, the peer's key and the
/// previous chain length, and count `k` more messages; each of them is
/// allowed where the first was and the counter stays below its maximum.
pub proof fn lemma_encrypt_n(s: RatchetState, k: nat)
    requires
        encrypt_allowed(s),
        s.send_count + k <= u32::MAX,
    ensures
        encrypt_n(s, k).dh_self_pub == s.dh_self_pub,
        encrypt_n(s, k).dh_remote == s.dh_remote,
        encrypt_n(s, k).prev_send_count == s.prev_send_count,
        encrypt_n(s, k).send_count == s.send_count + k,
        k > 0 ==> encrypt_n(s, k).sending_chain is Some,
        s.send_count + k < u32::MAX ==> encrypt_allowed(encrypt_n(s, k)),
    decreases k,
{
    if k > 0 {
        lemma_encrypt_n(s, (k - 1) as nat);
    }
}

/// Law: encrypting messages one after another (with no decryption between
/// them) gives message numbers counting up from the state's counter, the
/// same ratchet key and previous chain length in every header, and
/// ciphertexts 16 bytes longer than their plaintexts; and each of the
/// encryptions is allowed.
pub proof fn law_consecutive_encryptions(
    s: RatchetState,
    pts: Seq<Seq<u8>>,
    hs: Seq<RatchetHeader>,
    cts: Seq<Seq<u8>>,
)
    requires
        encrypt_allowed(s),
        s.send_count + pts.len() <= u32::MAX,
        hs.len() == pts.len(),
        cts.len() == pts.len(),
        forall|i: int| 0 <= i < pts.len() ==> encryption_of(#[trigger] encrypt_n(s, i as nat), pts[i], hs[i], cts[i]),
    ensures
        forall|i: int| 0 <= i < pts.len() ==> encrypt_allowed(#[trigger] encrypt_n(s, i as nat)),
        forall|i: int|
            0 <= i < pts.len() ==> {
                &&& (#[trigger] hs[i]).message_number == s.send_count + i
                &&& hs[i].dh_public@ == s.dh_self_pub
                &&& hs[i].prev_chain_length == s.prev_send_count
                &&& cts[i].len() == pts[i].len() + 16
            },
{
    assert forall|i: int| 0 <= i < pts.len() implies encrypt_allowed(#[trigger] encrypt_n(s, i as nat)) by {
        lemma_encrypt_n(s, i as nat);
    }
    assert forall|i: int| 0 <= i < pts.len() implies {
        &&& (#[trigger] hs[i]).message_number == s.send_count + i
        &&& hs[i].dh_public@ == s.dh_self_pub
        &&& hs[i].prev_chain_length == s.prev_send_count
        &&& cts[i].len() == pts[i].len() + 16
    } by {
        lemma_encrypt_n(s, i as nat);
        assert(encryption_of(encrypt_n(s, i as nat), pts[i], hs[i], cts[i]));
    }
}

} // verus!
