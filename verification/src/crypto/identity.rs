//! The local Ed25519 identity and its fingerprint, the SHA3-256 digest of
//! its verifying key.
use vstd::prelude::*;

use crate::crypto::primitives::{
    ed25519_decodes, ed25519_key_decodes, ed25519_public, ed25519_public_key, ed25519_random_signing_key,
    ed25519_sign, ed25519_signature, ed25519_verifies, ed25519_verify, sha3_256, sha3_256_digest,
};
use crate::text::{
    hex_encode, hex_lower, is_lower_hex_char, is_lower_hex_text, lemma_hex_digit, lemma_hex_lower_digits,
};

verus! {

/// Why an identity operation failed.
#[derive(Debug)]
pub enum IdentityError {
    VerificationFailed,
    InvalidKey(String),
}

/// The fingerprint of a signing key: SHA3-256 of its verifying key.
pub open spec fn fingerprint_of(secret: Seq<u8>) -> Seq<u8> {
    sha3_256(ed25519_public(secret))
}

/// An Ed25519 signing key and the fingerprint of its verifying key.
pub struct LocalIdentity {
    signing_key: [u8; 32],
    fingerprint: [u8; 32],
}

impl LocalIdentity {
    /// The bytes of the signing key.
    pub closed spec fn secret(&self) -> Seq<u8> {
        self.signing_key@
    }

    /// The stored fingerprint.
    pub closed spec fn fingerprint(&self) -> Seq<u8> {
        self.fingerprint@
    }

    /// The stored fingerprint is the fingerprint of the signing key.
    pub open spec fn wf(&self) -> bool {
        &&& self.secret().len() == 32
        &&& self.fingerprint() == fingerprint_of(self.secret())
    }

    /// A new identity with a signing key from the operating system's
    /// generator.
    pub fn generate() -> (res: Self)
        ensures
            res.wf(),
    {
        let signing_key = ed25519_random_signing_key();
        let verifying = ed25519_public_key(&signing_key);
        let fingerprint = Self::derive_fingerprint(&verifying);
        LocalIdentity { signing_key, fingerprint }
    }

    /// The identity of the signing key `bytes`; this always succeeds.
    pub fn from_bytes(bytes: &[u8; 32]) -> (res: Result<Self, IdentityError>)
        ensures
            res matches Ok(id) && id.wf() && id.secret() == bytes@,
    {
        let signing_key = *bytes;
        let verifying = ed25519_public_key(&signing_key);
        let fingerprint = Self::derive_fingerprint(&verifying);
        Ok(LocalIdentity { signing_key, fingerprint })
    }

    /// The verifying key's bytes.
    pub fn verifying_key(&self) -> (res: [u8; 32])
        ensures
            res@ == ed25519_public(self.secret()),
            ed25519_key_decodes(res@),
    {
        ed25519_public_key(&self.signing_key)
    }

    /// The fingerprint as lower-case hexadecimal.
    pub fn fingerprint_hex(&self) -> (res: String)
        ensures
            res@ == hex_lower(self.fingerprint()),
            res@.len() == 64,
            is_lower_hex_text(res@),
    {
        let res = hex_encode(&self.fingerprint);
        proof {
            let fp = self.fingerprint@;
            lemma_hex_lower_digits(fp);
            assert forall|i: int| 0 <= i < 64 implies is_lower_hex_char(#[trigger] res@[i]) by {
                let k = i / 2;
                lemma_hex_digit(fp[k] / 16);
                lemma_hex_digit(fp[k] % 16);
                if i % 2 == 0 {
                    assert(i == 2 * k);
                } else {
                    assert(i == 2 * k + 1);
                }
            }
        }
        res
    }

    /// The signature of `message`; it verifies under this identity's
    /// verifying key.
    pub fn sign(&self, message: &[u8]) -> (res: [u8; 64])
        ensures
            res@ == ed25519_signature(self.secret(), message@),
            ed25519_verifies(ed25519_public(self.secret()), message@, res@),
    {
        ed25519_sign(&self.signing_key, message)
    }

    /// Checks `signature` over `message` under `verifying_key`: `Ok` exactly
    /// when the key decodes and the signature verifies; a key that does not
    /// decode is `InvalidKey`, a signature that does not verify is
    /// `VerificationFailed`.
    pub fn verify(verifying_key: &[u8; 32], message: &[u8], signature: &[u8; 64]) -> (res: Result<(), IdentityError>)
        ensures
            res is Ok <==> ed25519_key_decodes(verifying_key@) && ed25519_verifies(
                verifying_key@,
                message@,
                signature@,
            ),
            !ed25519_key_decodes(verifying_key@) ==> res matches Err(IdentityError::InvalidKey(_)),
            ed25519_key_decodes(verifying_key@) && !ed25519_verifies(verifying_key@, message@, signature@)
                ==> res matches Err(IdentityError::VerificationFailed),
    {
        if !ed25519_decodes(verifying_key) {
            return Err(IdentityError::InvalidKey("verifying key does not decode".to_string()));
        }
        if ed25519_verify(verifying_key, message, signature) {
            Ok(())
        } else {
            Err(IdentityError::VerificationFailed)
        }
    }

    /// The bytes of the signing key.
    pub fn signing_key_bytes(&self) -> (res: [u8; 32])
        ensures
            res@ == self.secret(),
    {
        self.signing_key
    }

    fn derive_fingerprint(public_key_bytes: &[u8]) -> (res: [u8; 32])
        ensures
            res@ == sha3_256(public_key_bytes@),
    {
        sha3_256_digest(public_key_bytes)
    }
}

} // verus!
