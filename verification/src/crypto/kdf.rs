//! Key derivation of the Double Ratchet: the symmetric chain step, the root
//! step and the per-message AEAD keys.
use vstd::prelude::*;

use crate::crypto::primitives::{hkdf_sha3_256, hkdf_sha3_256_expand, hmac_sha3_256, hmac_sha3_256_tag};

verus! {

/// A chain key of a sending or receiving chain.
pub struct ChainKey(pub [u8; 32]);

/// The key of one message.
pub struct MessageKey(pub [u8; 32]);

/// The root key of the ratchet.
pub struct RootKey(pub [u8; 32]);

/// `NCP-RATCHET-v1`: the HKDF info of the root step.
pub open spec fn ratchet_info() -> Seq<u8> {
    seq![78u8, 67, 80, 45, 82, 65, 84, 67, 72, 69, 84, 45, 118, 49]
}

/// `NCP-ENC-KEY`: the HKDF info of a message's encryption key.
pub open spec fn enc_key_info() -> Seq<u8> {
    seq![78u8, 67, 80, 45, 69, 78, 67, 45, 75, 69, 89]
}

/// `NCP-NONCE`: the HKDF info of a message's nonce.
pub open spec fn nonce_info() -> Seq<u8> {
    seq![78u8, 67, 80, 45, 78, 79, 78, 67, 69]
}

/// The message key that a chain key gives: HMAC-SHA3-256(chain key, 0x01).
pub open spec fn message_key_of(ck: Seq<u8>) -> Seq<u8> {
    hmac_sha3_256(ck, seq![1u8])
}

/// The chain key that follows a chain key: HMAC-SHA3-256(chain key, 0x02).
pub open spec fn next_chain_key_of(ck: Seq<u8>) -> Seq<u8> {
    hmac_sha3_256(ck, seq![2u8])
}

/// The 96 bytes of the root step: HKDF-SHA3-256 with the root key as salt,
/// the Diffie-Hellman output as input and `NCP-RATCHET-v1` as info.
pub open spec fn root_output(root_key: Seq<u8>, dh_output: Seq<u8>) -> Seq<u8> {
    hkdf_sha3_256(Some(root_key), dh_output, ratchet_info(), 96)
}

/// The new root key of a root step: bytes 0..32 of its output.
pub open spec fn next_root_key_of(root_key: Seq<u8>, dh_output: Seq<u8>) -> Seq<u8> {
    root_output(root_key, dh_output).subrange(0, 32)
}

/// The new chain key of a root step: bytes 32..64 of its output.
pub open spec fn root_chain_key_of(root_key: Seq<u8>, dh_output: Seq<u8>) -> Seq<u8> {
    root_output(root_key, dh_output).subrange(32, 64)
}

/// The header key of a root step: bytes 64..96 of its output.
pub open spec fn header_key_of(root_key: Seq<u8>, dh_output: Seq<u8>) -> Seq<u8> {
    root_output(root_key, dh_output).subrange(64, 96)
}

/// The encryption key of a message key: 32 bytes of HKDF-SHA3-256 with no
/// salt and info `NCP-ENC-KEY`.
pub open spec fn aead_key_of(mk: Seq<u8>) -> Seq<u8> {
    hkdf_sha3_256(None, mk, enc_key_info(), 32)
}

/// The nonce of a message key: 12 bytes of HKDF-SHA3-256 with no salt and
/// info `NCP-NONCE`.
pub open spec fn aead_nonce_of(mk: Seq<u8>) -> Seq<u8> {
    hkdf_sha3_256(None, mk, nonce_info(), 12)
}

/// Copies 32 bytes of `bytes` from `start` on into an array.
pub(crate) fn bytes_to_array_32(bytes: &[u8], start: usize) -> (res: [u8; 32])
    requires
        start + 32 <= bytes@.len(),
    ensures
        res@ == bytes@.subrange(start as int, start + 32),
{
    let mut out = [0u8; 32];
    let mut i: usize = 0;
    while i < 32
        invariant
            i <= 32,
            start + 32 <= bytes@.len(),
            bytes@.len() == bytes.len(),
            forall|j: int| 0 <= j < i ==> out@[j] == bytes@[start + j],
        decreases 32 - i,
    {
        out[i] = bytes[start + i];
        i = i + 1;
    }
    assert(out@ =~= bytes@.subrange(start as int, start + 32));
    out
}

/// Copies 12 bytes of `bytes` into an array.
pub(crate) fn bytes_to_array_12(bytes: &[u8]) -> (res: [u8; 12])
    requires
        bytes@.len() == 12,
    ensures
        res@ == bytes@,
{
    let mut out = [0u8; 12];
    let mut i: usize = 0;
    while i < 12
        invariant
            i <= 12,
            bytes@.len() == 12,
            forall|j: int| 0 <= j < i ==> out@[j] == bytes@[j],
        decreases 12 - i,
    {
        out[i] = bytes[i];
        i = i + 1;
    }
    assert(out@ =~= bytes@);
    out
}

fn ratchet_info_bytes() -> (res: Vec<u8>)
    ensures
        res@ == ratchet_info(),
{
    let res = vec![78u8, 67, 80, 45, 82, 65, 84, 67, 72, 69, 84, 45, 118, 49];
    assert(res@ =~= ratchet_info());
    res
}

fn enc_key_info_bytes() -> (res: Vec<u8>)
    ensures
        res@ == enc_key_info(),
{
    let res = vec![78u8, 67, 80, 45, 69, 78, 67, 45, 75, 69, 89];
    assert(res@ =~= enc_key_info());
    res
}

fn nonce_info_bytes() -> (res: Vec<u8>)
    ensures
        res@ == nonce_info(),
{
    let res = vec![78u8, 67, 80, 45, 78, 79, 78, 67, 69];
    assert(res@ =~= nonce_info());
    res
}

impl ChainKey {
    /// One step of the symmetric chain: the next chain key and this step's
    /// message key.
    pub fn advance(&self) -> (res: (ChainKey, MessageKey))
        ensures
            res.0.0@ == next_chain_key_of(self.0@),
            res.1.0@ == message_key_of(self.0@),
    {
        let mk_input = [1u8];
        let ck_input = [2u8];
        let mk_bytes = hmac_sha3_256_tag(&self.0, &mk_input);
        let ck_bytes = hmac_sha3_256_tag(&self.0, &ck_input);
        assert(mk_input@ =~= seq![1u8]);
        assert(ck_input@ =~= seq![2u8]);
        (ChainKey(ck_bytes), MessageKey(mk_bytes))
    }
}

/// Splits the 96 bytes of a root step into the new root key, the new chain
/// key and the header key, 32 bytes each, in that order.
pub fn split_root_output(okm: &[u8]) -> (res: (RootKey, ChainKey, [u8; 32]))
    requires
        okm@.len() == 96,
    ensures
        res.0.0@ == okm@.subrange(0, 32),
        res.1.0@ == okm@.subrange(32, 64),
        res.2@ == okm@.subrange(64, 96),
{
    let rk = bytes_to_array_32(okm, 0);
    let ck = bytes_to_array_32(okm, 32);
    let hk = bytes_to_array_32(okm, 64);
    (RootKey(rk), ChainKey(ck), hk)
}

/// The root step: HKDF-SHA3-256 keyed by the root key over the
/// Diffie-Hellman output, split into root key, chain key and header key.
pub fn kdf_rk(root_key: &RootKey, dh_output: &[u8; 32]) -> (res: (RootKey, ChainKey, [u8; 32]))
    ensures
        res.0.0@ == next_root_key_of(root_key.0@, dh_output@),
        res.1.0@ == root_chain_key_of(root_key.0@, dh_output@),
        res.2@ == header_key_of(root_key.0@, dh_output@),
{
    let info = ratchet_info_bytes();
    let okm = hkdf_sha3_256_expand(Some(&root_key.0), dh_output, &info, 96);
    split_root_output(&okm)
}

/// The encryption key (32 bytes) and nonce (12 bytes) of a message key.
pub fn derive_aead_keys(message_key: &MessageKey) -> (res: ([u8; 32], [u8; 12]))
    ensures
        res.0@ == aead_key_of(message_key.0@),
        res.1@ == aead_nonce_of(message_key.0@),
{
    let enc_info = enc_key_info_bytes();
    let nonce_info = nonce_info_bytes();
    let enc = hkdf_sha3_256_expand(None, &message_key.0, &enc_info, 32);
    let nonce = hkdf_sha3_256_expand(None, &message_key.0, &nonce_info, 12);
    let enc_key = bytes_to_array_32(&enc, 0);
    assert(enc@.subrange(0, 32) =~= enc@);
    (enc_key, bytes_to_array_12(&nonce))
}

} // verus!
