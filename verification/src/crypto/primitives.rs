//! Cryptographic primitives from outside crates, each behind one trusted item.
//!
//! Each primitive whose output takes pages to state is given a name (an
//! uninterpreted spec function); the wrapper that calls it says that its result
//! equals the name applied to its arguments. The few facts that the crates'
//! documentation promises (such as that a sealed message opens again) are
//! stated over the wrappers' results.
use vstd::prelude::*;

use chacha20poly1305::aead::{Aead, KeyInit};
use ed25519_dalek::{Signer, Verifier};
use hmac::Mac;
use pqcrypto_traits::kem::{Ciphertext as KemCiphertextTrait, PublicKey as KemPublicKeyTrait};
use pqcrypto_traits::kem::{SecretKey as KemSecretKeyTrait, SharedSecret as KemSharedSecretTrait};
use rand_core::RngCore;
use sha3::Digest;

verus! {

/// The view of an optional byte slice.
pub open spec fn opt_bytes(o: Option<&[u8]>) -> Option<Seq<u8>> {
    match o {
        Some(s) => Some(s@),
        None => None,
    }
}

/// The view of an optional byte vector.
pub open spec fn opt_vec(o: Option<Vec<u8>>) -> Option<Seq<u8>> {
    match o {
        Some(v) => Some(v@),
        None => None,
    }
}

// ---------------------------------------------------------------- SHA3-256

/// The SHA3-256 digest of a byte string.
pub uninterp spec fn sha3_256(data: Seq<u8>) -> Seq<u8>;

/// Calls `sha3::Sha3_256::digest`: the 32-byte digest of `data`, as named by
/// `sha3_256`.
#[verifier::external_body]
pub(crate) fn sha3_256_digest(data: &[u8]) -> (res: [u8; 32])
    ensures
        res@ == sha3_256(data@),
{
    sha3::Sha3_256::digest(data).into()
}

// ------------------------------------------------------- HMAC-SHA3-256

/// HMAC over SHA3-256 of `data` under `key`.
pub uninterp spec fn hmac_sha3_256(key: Seq<u8>, data: Seq<u8>) -> Seq<u8>;

/// Calls `hmac::Hmac::<Sha3_256>` (`new_from_slice`, `update`, `finalize`):
/// the 32-byte tag of `data` under `key`, as named by `hmac_sha3_256`. HMAC
/// accepts keys of every length, so the construction does not fail.
#[verifier::external_body]
pub(crate) fn hmac_sha3_256_tag(key: &[u8], data: &[u8]) -> (res: [u8; 32])
    ensures
        res@ == hmac_sha3_256(key@, data@),
{
    let mut mac = <hmac::Hmac<sha3::Sha3_256> as Mac>::new_from_slice(key).expect(
        "HMAC accepts any key size",
    );
    mac.update(data);
    mac.finalize().into_bytes().into()
}

// ------------------------------------------------------- HKDF-SHA3-256

/// The first `len` bytes of HKDF-SHA3-256 (extract with `salt`, where `None`
/// is the all-zero salt, then expand with `info`).
pub uninterp spec fn hkdf_sha3_256(salt: Option<Seq<u8>>, ikm: Seq<u8>, info: Seq<u8>, len: nat) -> Seq<u8>;

/// Calls `hkdf::Hkdf::<Sha3_256>::new(salt, ikm)` and `expand(info, ..)` into a
/// buffer of `len` bytes. `expand` fails only above 255 hash lengths (8160
/// bytes), which `requires` leaves out.
#[verifier::external_body]
pub(crate) fn hkdf_sha3_256_expand(salt: Option<&[u8]>, ikm: &[u8], info: &[u8], len: usize) -> (res: Vec<u8>)
    requires
        len <= 8160,
    ensures
        res@ == hkdf_sha3_256(opt_bytes(salt), ikm@, info@, len as nat),
        res@.len() == len,
{
    let hk = hkdf::Hkdf::<sha3::Sha3_256>::new(salt, ikm);
    let mut okm = vec![0u8; len];
    hk.expand(info, &mut okm).expect("output length is at most 255 hash lengths");
    okm
}

// --------------------------------------------------------------- X25519

/// The X25519 public key of a 32-byte secret.
pub uninterp spec fn x25519_public(secret: Seq<u8>) -> Seq<u8>;

/// The X25519 shared secret of `secret` with the peer's `public` key.
pub uninterp spec fn x25519_shared(secret: Seq<u8>, public: Seq<u8>) -> Seq<u8>;

/// Calls `x25519_dalek::StaticSecret::random_from_rng(OsRng)` and returns the
/// secret's bytes: 32 bytes from the operating system's generator, so nothing
/// is said of their value.
#[verifier::external_body]
pub(crate) fn x25519_random_secret() -> (res: [u8; 32]) {
    x25519_dalek::StaticSecret::random_from_rng(rand_core::OsRng).to_bytes()
}

/// Calls `x25519_dalek::PublicKey::from(&StaticSecret::from(secret))`: the
/// public key of `secret`, as named by `x25519_public`. The crate documents
/// that Diffie-Hellman agrees: whatever 32-byte secret `other` is, its shared
/// secret with this public key equals the shared secret of `secret` with the
/// public key of `other`.
#[verifier::external_body]
pub(crate) fn x25519_public_key(secret: &[u8; 32]) -> (res: [u8; 32])
    ensures
        res@ == x25519_public(secret@),
        forall|other: Seq<u8>|
            other.len() == 32 ==> #[trigger] x25519_shared(other, res@) == x25519_shared(
                secret@,
                x25519_public(other),
            ),
{
    x25519_dalek::PublicKey::from(&x25519_dalek::StaticSecret::from(*secret)).to_bytes()
}

/// Calls `StaticSecret::from(secret).diffie_hellman(&PublicKey::from(public))`:
/// the shared secret, as named by `x25519_shared`.
#[verifier::external_body]
pub(crate) fn x25519_diffie_hellman(secret: &[u8; 32], public: &[u8; 32]) -> (res: [u8; 32])
    ensures
        res@ == x25519_shared(secret@, public@),
{
    x25519_dalek::StaticSecret::from(*secret).diffie_hellman(
        &x25519_dalek::PublicKey::from(*public),
    ).to_bytes()
}

// -------------------------------------------------------------- Ed25519

/// The Ed25519 verifying key (compressed point) of a 32-byte signing key.
pub uninterp spec fn ed25519_public(secret: Seq<u8>) -> Seq<u8>;

/// The Ed25519 signature of `message` under the signing key `secret`.
pub uninterp spec fn ed25519_signature(secret: Seq<u8>, message: Seq<u8>) -> Seq<u8>;

/// Whether 32 bytes decode to an Ed25519 verifying key.
pub uninterp spec fn ed25519_key_decodes(public: Seq<u8>) -> bool;

/// Whether `signature` is a valid Ed25519 signature of `message` under the
/// (decodable) verifying key `public`.
pub uninterp spec fn ed25519_verifies(public: Seq<u8>, message: Seq<u8>, signature: Seq<u8>) -> bool;

/// Calls `ed25519_dalek::SigningKey::generate(&mut OsRng)` and returns the
/// key's bytes: 32 bytes from the operating system's generator, so nothing is
/// said of their value.
#[verifier::external_body]
pub(crate) fn ed25519_random_signing_key() -> (res: [u8; 32]) {
    ed25519_dalek::SigningKey::generate(&mut rand_core::OsRng).to_bytes()
}

/// Calls `SigningKey::from_bytes(secret).verifying_key()`: the verifying key's
/// bytes, as named by `ed25519_public`. A verifying key that the crate
/// derived from a signing key decodes again.
#[verifier::external_body]
pub(crate) fn ed25519_public_key(secret: &[u8; 32]) -> (res: [u8; 32])
    ensures
        res@ == ed25519_public(secret@),
        ed25519_key_decodes(res@),
{
    ed25519_dalek::SigningKey::from_bytes(secret).verifying_key().to_bytes()
}

/// Calls `SigningKey::from_bytes(secret).sign(message)`: the signature's bytes,
/// as named by `ed25519_signature`. The crate documents that a signature made
/// with a signing key verifies under that key's verifying key.
#[verifier::external_body]
pub(crate) fn ed25519_sign(secret: &[u8; 32], message: &[u8]) -> (res: [u8; 64])
    ensures
        res@ == ed25519_signature(secret@, message@),
        ed25519_verifies(ed25519_public(secret@), message@, res@),
{
    ed25519_dalek::SigningKey::from_bytes(secret).sign(message).to_bytes()
}

/// Calls `VerifyingKey::from_bytes(public)` and reports whether it succeeded,
/// as named by `ed25519_key_decodes`.
#[verifier::external_body]
pub(crate) fn ed25519_decodes(public: &[u8; 32]) -> (res: bool)
    ensures
        res == ed25519_key_decodes(public@),
{
    ed25519_dalek::VerifyingKey::from_bytes(public).is_ok()
}

/// Calls `VerifyingKey::from_bytes(public)` and then `Verifier::verify` with
/// `Signature::from_bytes(signature)`, as named by `ed25519_verifies`; the
/// key must decode, which `requires` states.
#[verifier::external_body]
pub(crate) fn ed25519_verify(public: &[u8; 32], message: &[u8], signature: &[u8; 64]) -> (res: bool)
    requires
        ed25519_key_decodes(public@),
    ensures
        res == ed25519_verifies(public@, message@, signature@),
{
    let vk = ed25519_dalek::VerifyingKey::from_bytes(public).expect("the key decodes");
    vk.verify(message, &ed25519_dalek::Signature::from_bytes(signature)).is_ok()
}

// ------------------------------------------------------------ Kyber-1024

/// The Kyber-1024 shared secret that decapsulating `ciphertext` with
/// `secret_key` gives.
pub uninterp spec fn kyber1024_decapsulated(ciphertext: Seq<u8>, secret_key: Seq<u8>) -> Seq<u8>;

/// The Kyber-1024 public key that a secret key holds: the secret key is the
/// 1536-byte IND-CPA secret, then the public key, its hash and a random value.
pub open spec fn kyber1024_public_of(secret_key: Seq<u8>) -> Seq<u8> {
    secret_key.subrange(1536, 3104)
}

/// The Kyber-1024 encapsulation under `public_key` with the 32 random bytes
/// `coins`: the shared secret and the ciphertext.
pub uninterp spec fn kyber1024_encapsulation(public_key: Seq<u8>, coins: Seq<u8>) -> (Seq<u8>, Seq<u8>);

/// Calls `pqcrypto_kyber::kyber1024::keypair()` and returns the public and
/// the secret key's bytes. The keys are random; the crate's key generation
/// copies the public key into the secret key after the IND-CPA secret, which
/// is what the contract states.
#[verifier::external_body]
pub(crate) fn kyber1024_keypair() -> (res: ([u8; 1568], [u8; 3168]))
    ensures
        res.0@ == kyber1024_public_of(res.1@),
{
    let (pk, sk) = pqcrypto_kyber::kyber1024::keypair();
    (pk.as_bytes().try_into().unwrap(), sk.as_bytes().try_into().unwrap())
}

/// Calls `pqcrypto_kyber::kyber1024::encapsulate` on the public key that
/// `public_key` holds, and returns the shared secret and the ciphertext. The
/// crate draws 32 random bytes and derives both from them and the public key
/// alone, so the result is the encapsulation under `public_key` with some
/// 32 coins; the ghost part of the result stands for those coins, of which
/// nothing else is said.
#[verifier::external_body]
pub(crate) fn kyber1024_encapsulate(public_key: &[u8; 1568]) -> (res: ([u8; 32], [u8; 1568], Ghost<Seq<u8>>))
    ensures
        res.2@.len() == 32,
        res.0@ == kyber1024_encapsulation(public_key@, res.2@).0,
        res.1@ == kyber1024_encapsulation(public_key@, res.2@).1,
{
    let pk = pqcrypto_kyber::kyber1024::PublicKey::from_bytes(public_key).unwrap();
    let (ss, ct) = pqcrypto_kyber::kyber1024::encapsulate(&pk);
    (ss.as_bytes().try_into().unwrap(), ct.as_bytes().try_into().unwrap(), Ghost(vstd::pervasive::arbitrary()))
}

/// Calls `pqcrypto_kyber::kyber1024::decapsulate`: the shared secret, as named
/// by `kyber1024_decapsulated`.
#[verifier::external_body]
pub(crate) fn kyber1024_decapsulate(ciphertext: &[u8; 1568], secret_key: &[u8; 3168]) -> (res: [u8; 32])
    ensures
        res@ == kyber1024_decapsulated(ciphertext@, secret_key@),
{
    let ct = pqcrypto_kyber::kyber1024::Ciphertext::from_bytes(ciphertext).unwrap();
    let sk = pqcrypto_kyber::kyber1024::SecretKey::from_bytes(secret_key).unwrap();
    pqcrypto_kyber::kyber1024::decapsulate(&ct, &sk).as_bytes().try_into().unwrap()
}

// ---------------------------------------------------- ChaCha20-Poly1305

/// What ChaCha20-Poly1305 encryption of `msg` with `aad` gives: the ciphertext
/// with its 16-byte tag, or `None` where the crate refuses the input.
pub uninterp spec fn chacha20poly1305_seal(key: Seq<u8>, nonce: Seq<u8>, aad: Seq<u8>, msg: Seq<u8>) -> Option<Seq<u8>>;

/// What ChaCha20-Poly1305 decryption of `ct` with `aad` gives: the plaintext,
/// or `None` where the tag does not authenticate or the input is refused.
pub uninterp spec fn chacha20poly1305_open(key: Seq<u8>, nonce: Seq<u8>, aad: Seq<u8>, ct: Seq<u8>) -> Option<Seq<u8>>;

/// Calls `ChaCha20Poly1305::new_from_slice(key)` and `Aead::encrypt` with the
/// payload `msg` and `aad`, as named by `chacha20poly1305_seal`. The crate's
/// source refuses a message of 2^32 - 1 blocks of 64 bytes or more and
/// nothing else (a 32-byte key is always accepted); the ciphertext is 16 bytes
/// longer than the message, and decrypting it with the same key, nonce and
/// associated data gives the message back.
#[verifier::external_body]
pub(crate) fn chacha20poly1305_encrypt(key: &[u8; 32], nonce: &[u8; 12], aad: &[u8], msg: &[u8]) -> (res: Option<Vec<u8>>)
    ensures
        opt_vec(res) == chacha20poly1305_seal(key@, nonce@, aad@, msg@),
        res is Some <==> msg@.len() / 64 < 0xffff_ffff,
        res matches Some(c) ==> c@.len() == msg@.len() + 16 && chacha20poly1305_open(
            key@,
            nonce@,
            aad@,
            c@,
        ) == Some(msg@),
{
    let cipher = chacha20poly1305::ChaCha20Poly1305::new_from_slice(key).ok()?;
    cipher.encrypt(
        chacha20poly1305::Nonce::from_slice(nonce),
        chacha20poly1305::aead::Payload { msg, aad },
    ).ok()
}

/// Calls `ChaCha20Poly1305::new_from_slice(key)` and `Aead::decrypt` with the
/// payload `ct` and `aad`, as named by `chacha20poly1305_open`.
#[verifier::external_body]
pub(crate) fn chacha20poly1305_decrypt(key: &[u8; 32], nonce: &[u8; 12], aad: &[u8], ct: &[u8]) -> (res: Option<Vec<u8>>)
    ensures
        opt_vec(res) == chacha20poly1305_open(key@, nonce@, aad@, ct@),
{
    let cipher = chacha20poly1305::ChaCha20Poly1305::new_from_slice(key).ok()?;
    cipher.decrypt(
        chacha20poly1305::Nonce::from_slice(nonce),
        chacha20poly1305::aead::Payload { msg: ct, aad },
    ).ok()
}

// ----------------------------------------------------------- AES-256-GCM

/// What AES-256-GCM encryption of `msg` (no associated data) gives.
pub uninterp spec fn aes256gcm_seal(key: Seq<u8>, nonce: Seq<u8>, msg: Seq<u8>) -> Option<Seq<u8>>;

/// What AES-256-GCM decryption of `ct` (no associated data) gives.
pub uninterp spec fn aes256gcm_open(key: Seq<u8>, nonce: Seq<u8>, ct: Seq<u8>) -> Option<Seq<u8>>;

/// Calls `Aes256Gcm::new_from_slice(key)` and `Aead::encrypt(nonce, msg)`, as
/// named by `aes256gcm_seal`. The crate's source refuses a message longer than
/// 2^36 bytes and nothing else (a 32-byte key is always accepted); the
/// ciphertext is 16 bytes longer than the message, and decrypting it with the
/// same key and nonce gives the message back.
#[verifier::external_body]
pub(crate) fn aes256gcm_encrypt(key: &[u8; 32], nonce: &[u8; 12], msg: &[u8]) -> (res: Option<Vec<u8>>)
    ensures
        opt_vec(res) == aes256gcm_seal(key@, nonce@, msg@),
        res is Some <==> msg@.len() <= 0x10_0000_0000,
        res matches Some(c) ==> c@.len() == msg@.len() + 16 && aes256gcm_open(key@, nonce@, c@)
            == Some(msg@),
{
    let cipher = <aes_gcm::Aes256Gcm as KeyInit>::new_from_slice(key).ok()?;
    cipher.encrypt(aes_gcm::Nonce::from_slice(nonce), msg).ok()
}

/// Calls `Aes256Gcm::new_from_slice(key)` and `Aead::decrypt(nonce, ct)`, as
/// named by `aes256gcm_open`.
#[verifier::external_body]
pub(crate) fn aes256gcm_decrypt(key: &[u8; 32], nonce: &[u8; 12], ct: &[u8]) -> (res: Option<Vec<u8>>)
    ensures
        opt_vec(res) == aes256gcm_open(key@, nonce@, ct@),
{
    let cipher = <aes_gcm::Aes256Gcm as KeyInit>::new_from_slice(key).ok()?;
    cipher.decrypt(aes_gcm::Nonce::from_slice(nonce), ct).ok()
}

// ---------------------------------------------------------------- Argon2id

/// The 32-byte Argon2id (version 0x13) hash of `password` with `salt` and the
/// cost parameters (memory in KiB, iterations, lanes), or `None` where the
/// crate refuses the parameters or the inputs.
pub uninterp spec fn argon2id_hash(password: Seq<u8>, salt: Seq<u8>, m_cost: u32, t_cost: u32, p_cost: u32) -> Option<Seq<u8>>;

/// Calls `argon2::Params::new(m_cost, t_cost, p_cost, Some(32))`,
/// `Argon2::new(Algorithm::Argon2id, Version::V0x13, params)` and
/// `hash_password_into(password, salt, ..)` into 32 bytes, as named by
/// `argon2id_hash`.
#[verifier::external_body]
pub(crate) fn argon2id_derive(password: &[u8], salt: &[u8], m_cost: u32, t_cost: u32, p_cost: u32) -> (res: Option<[u8; 32]>)
    ensures
        match res {
            Some(k) => argon2id_hash(password@, salt@, m_cost, t_cost, p_cost) == Some(k@),
            None => argon2id_hash(password@, salt@, m_cost, t_cost, p_cost) is None,
        },
{
    let params = argon2::Params::new(m_cost, t_cost, p_cost, Some(32)).ok()?;
    let hasher = argon2::Argon2::new(argon2::Algorithm::Argon2id, argon2::Version::V0x13, params);
    let mut out = [0u8; 32];
    hasher.hash_password_into(password, salt, &mut out).ok()?;
    Some(out)
}

// ------------------------------------------------------------- randomness

#[verifier::external_type_specification]
#[verifier::external_body]
pub struct ExThreadRng(rand::rngs::ThreadRng);

/// Calls `rand::thread_rng()`: a handle to the thread's generator.
#[verifier::external_body]
pub(crate) fn thread_rng_handle() -> (res: rand::rngs::ThreadRng) {
    rand::thread_rng()
}

/// Calls `RngCore::fill_bytes` on `buf`: random bytes, of which nothing is
/// said but their number.
#[verifier::external_body]
pub(crate) fn rng_fill_bytes(rng: &mut rand::rngs::ThreadRng, buf: &mut [u8])
    ensures
        final(buf)@.len() == old(buf)@.len(),
{
    rng.fill_bytes(buf)
}

/// Calls `rand::Rng::fill` on `buf`: random bytes, of which nothing is said
/// but their number.
#[verifier::external_body]
pub(crate) fn rng_fill(rng: &mut rand::rngs::ThreadRng, buf: &mut [u8])
    ensures
        final(buf)@.len() == old(buf)@.len(),
{
    rand::Rng::fill(rng, buf)
}

/// Calls `rand::Rng::gen_range(low..high)`: some number in the half-open
/// range.
#[verifier::external_body]
pub(crate) fn rng_below(rng: &mut rand::rngs::ThreadRng, low: usize, high: usize) -> (res: usize)
    requires
        low < high,
    ensures
        low <= res < high,
{
    rand::Rng::gen_range(rng, low..high)
}

/// `len` random bytes from the thread's generator.
pub(crate) fn thread_random_bytes(len: usize) -> (res: Vec<u8>)
    ensures
        res@.len() == len,
{
    let mut rng = thread_rng_handle();
    let mut buf = vec![0u8; len];
    rng_fill_bytes(&mut rng, buf.as_mut_slice());
    buf
}

// --------------------------------------------------------------- zeroizing

/// Calls `Zeroize::zeroize` on a byte array, which the crate does by writing
/// a zero over every element with a volatile write.
#[verifier::external_body]
pub(crate) fn zeroize_array<const N: usize>(bytes: &mut [u8; N])
    ensures
        final(bytes)@ == Seq::new(N as nat, |i: int| 0u8),
{
    zeroize::Zeroize::zeroize(bytes)
}

/// Calls `Zeroize::zeroize` on a byte vector, which the crate does by
/// zeroing its elements and spare capacity and then clearing it.
#[verifier::external_body]
pub(crate) fn zeroize_vec(bytes: &mut Vec<u8>)
    ensures
        final(bytes)@.len() == 0,
{
    zeroize::Zeroize::zeroize(bytes)
}

} // verus!
