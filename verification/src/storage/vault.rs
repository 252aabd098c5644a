//! The encrypted vault's keys and records: an Argon2id key from the
//! passphrase and the salt, and each record sealed with AES-256-GCM under a
//! random nonce that is stored in front of the ciphertext.
use vstd::prelude::*;

use crate::crypto::kdf::{bytes_to_array_32, bytes_to_array_12};
use crate::crypto::primitives::{
    aes256gcm_decrypt, aes256gcm_encrypt, aes256gcm_open, aes256gcm_seal, argon2id_derive,
    argon2id_hash, thread_random_bytes, zeroize_array,
};
use crate::text::{
    hex_decode, hex_decoded, hex_encode, hex_lower, law_hex_round_trip, lemma_hex_digit,
    lemma_hex_lower_digits, lemma_trim_unchanged, str_trim, trim_spec,
};

verus! {

#[verifier::external_type_specification]
#[verifier::external_body]
pub struct ExIoError(std::io::Error);

/// The format version of the vault.
pub const VAULT_VERSION: u8 = 1;

/// Argon2id memory cost in KiB (64 MiB).
pub const KDF_MEMORY_COST: u32 = 65536;

/// Argon2id iterations.
pub const KDF_TIME_COST: u32 = 3;

/// Argon2id parallelism.
pub const KDF_PARALLELISM: u32 = 4;

/// The length of a record's nonce.
pub const NONCE_LEN: usize = 12;

/// Why a vault operation failed.
#[derive(Debug)]
pub enum VaultError {
    Decryption,
    NotOpen,
    Serialization(String),
    Database(String),
    Io(std::io::Error),
}

/// The vault key of a passphrase and a salt: Argon2id with 64 MiB, 3
/// iterations and 4 lanes, or `None` where Argon2 refuses.
pub open spec fn vault_key_of(passphrase: Seq<char>, salt: Seq<u8>) -> Option<Seq<u8>> {
    argon2id_hash(vstd::utf8::encode_utf8(passphrase), salt, KDF_MEMORY_COST, KDF_TIME_COST, KDF_PARALLELISM)
}

/// The salt that the salt file's text holds: its trimmed text decoded from
/// hexadecimal, when that is exactly 32 bytes.
pub open spec fn salt_of_text(text: Seq<char>) -> Option<Seq<u8>> {
    match hex_decoded(vstd::utf8::encode_utf8(trim_spec(text))) {
        Some(b) => if b.len() == 32 {
            Some(b)
        } else {
            None
        },
        None => None,
    }
}

/// A sealed record: the nonce, then the AES-256-GCM ciphertext of the value.
pub open spec fn sealed_record(key: Seq<u8>, nonce: Seq<u8>, plaintext: Seq<u8>) -> Result<Seq<u8>, VaultError> {
    match aes256gcm_seal(key, nonce, plaintext) {
        Some(c) => Ok(nonce + c),
        None => Err(VaultError::Decryption),
    }
}

/// `record` is the sealing of `plaintext` under `key` with some 12-byte nonce.
pub open spec fn is_sealing_of(key: Seq<u8>, plaintext: Seq<u8>, record: Seq<u8>) -> bool {
    exists|nonce: Seq<u8>|
        nonce.len() == 12 && #[trigger] sealed_record(key, nonce, plaintext) == Ok::<Seq<u8>, VaultError>(
            record,
        )
}

/// What opening a stored record gives: records shorter than a nonce are
/// refused; otherwise the ciphertext after the nonce is decrypted.
pub open spec fn opened_record(key: Seq<u8>, data: Seq<u8>) -> Result<Seq<u8>, VaultError> {
    if data.len() < 12 {
        Err(VaultError::Decryption)
    } else {
        match aes256gcm_open(key, data.subrange(0, 12), data.subrange(12, data.len() as int)) {
            Some(p) => Ok(p),
            None => Err(VaultError::Decryption),
        }
    }
}

/// Reads the salt out of the salt file's text.
pub fn parse_salt(text: &str) -> (res: Result<[u8; 32], VaultError>)
    ensures
        match salt_of_text(text@) {
            Some(s) => res matches Ok(a) && a@ == s,
            None => res matches Err(VaultError::Decryption),
        },
{
    let trimmed = str_trim(text);
    match hex_decode(trimmed) {
        None => Err(VaultError::Decryption),
        Some(bytes) => {
            if bytes.len() != 32 {
                return Err(VaultError::Decryption);
            }
            let salt = bytes_to_array_32(&bytes, 0);
            assert(bytes@.subrange(0, 32) =~= bytes@);
            Ok(salt)
        },
    }
}

/// A new random salt.
pub fn generate_salt() -> (res: [u8; 32]) {
    let bytes = thread_random_bytes(32);
    bytes_to_array_32(&bytes, 0)
}

/// The text of the salt file: the salt in lower-case hexadecimal.
pub fn salt_text(salt: &[u8; 32]) -> (res: String)
    ensures
        res@ == hex_lower(salt@),
{
    hex_encode(salt)
}

/// Law: the salt file's text written by `salt_text` is read back by
/// `parse_salt` as the same salt.
pub proof fn law_salt_text_read_back(salt: Seq<u8>)
    requires
        salt.len() == 32,
    ensures
        salt_of_text(hex_lower(salt)) == Some(salt),
{
    let h = hex_lower(salt);
    lemma_hex_lower_digits(salt);
    lemma_hex_digit(salt[0] / 16);
    lemma_hex_digit(salt[31] % 16);
    assert(h.last() == h[63int]);
    lemma_trim_unchanged(h);
    law_hex_round_trip(salt);
}

/// Derives the vault key of `passphrase` and `salt`.
pub fn derive_key(passphrase: &str, salt: &[u8; 32]) -> (res: Result<[u8; 32], VaultError>)
    ensures
        match vault_key_of(passphrase@, salt@) {
            Some(k) => res matches Ok(a) && a@ == k,
            None => res matches Err(VaultError::Decryption),
        },
{
    match argon2id_derive(passphrase.as_bytes(), salt, KDF_MEMORY_COST, KDF_TIME_COST, KDF_PARALLELISM) {
        Some(k) => Ok(k),
        None => Err(VaultError::Decryption),
    }
}

/// Seals `plaintext` under `key` with `nonce`: the nonce followed by the
/// ciphertext. What comes out opens again to `plaintext`.
pub fn seal_record(key: &[u8; 32], nonce: &[u8; 12], plaintext: &[u8]) -> (res: Result<Vec<u8>, VaultError>)
    ensures
        match sealed_record(key@, nonce@, plaintext@) {
            Ok(r) => res matches Ok(v) && v@ == r && opened_record(key@, v@) == Ok::<Seq<u8>, VaultError>(plaintext@),
            Err(_) => res matches Err(VaultError::Decryption),
        },
        res is Ok <==> plaintext@.len() <= 0x10_0000_0000,
        res matches Ok(v) ==> v@.len() == 12 + plaintext@.len() + 16,
{
    match aes256gcm_encrypt(key, nonce, plaintext) {
        None => Err(VaultError::Decryption),
        Some(mut ciphertext) => {
            let mut result: Vec<u8> = Vec::new();
            let mut i: usize = 0;
            while i < 12
                invariant
                    i <= 12,
                    result@ == nonce@.subrange(0, i as int),
                decreases 12 - i,
            {
                result.push(nonce[i]);
                i = i + 1;
                assert(result@ =~= nonce@.subrange(0, i as int));
            }
            let ghost c = ciphertext@;
            result.append(&mut ciphertext);
            assert(nonce@.subrange(0, 12) =~= nonce@);
            assert(result@.subrange(0, 12) =~= nonce@);
            assert(result@.subrange(12, result@.len() as int) =~= c);
            Ok(result)
        },
    }
}

/// Opens a stored record under `key`.
pub fn open_record(key: &[u8; 32], data: &[u8]) -> (res: Result<Vec<u8>, VaultError>)
    ensures
        match opened_record(key@, data@) {
            Ok(p) => res matches Ok(v) && v@ == p,
            Err(_) => res matches Err(VaultError::Decryption),
        },
{
    if data.len() < 12 {
        return Err(VaultError::Decryption);
    }
    let nonce_slice = vstd::slice::slice_subrange(data, 0, 12);
    let ciphertext = vstd::slice::slice_subrange(data, 12, data.len());
    let nonce = bytes_to_array_12(nonce_slice);
    match aes256gcm_decrypt(key, &nonce, ciphertext) {
        Some(p) => Ok(p),
        None => Err(VaultError::Decryption),
    }
}

/// The key material of an open vault. The database itself is kept beside it
/// by the caller; this holds the AES key while the vault is open.
pub struct EncryptedVault {
    aes_key: Option<[u8; 32]>,
}

impl EncryptedVault {
    /// The AES key while the vault is open.
    pub closed spec fn key(&self) -> Option<Seq<u8>> {
        match self.aes_key {
            Some(k) => Some(k@),
            None => None,
        }
    }

    /// A closed vault.
    pub fn new() -> (res: Self)
        ensures
            res.key() is None,
    {
        EncryptedVault { aes_key: None }
    }

    /// Whether the vault holds a key.
    pub fn is_unlocked(&self) -> (res: bool)
        ensures
            res == (self.key() is Some),
    {
        self.aes_key.is_some()
    }

    /// Derives the key of `passphrase` and `salt` and keeps it; on a refused
    /// derivation the vault is unchanged and the error is `Decryption`.
    pub fn unlock(&mut self, passphrase: &str, salt: &[u8; 32]) -> (res: Result<(), VaultError>)
        ensures
            match vault_key_of(passphrase@, salt@) {
                Some(k) => res is Ok && final(self).key() == Some(k),
                None => res matches Err(VaultError::Decryption) && final(self).key() == old(self).key(),
            },
    {
        match derive_key(passphrase, salt) {
            Ok(k) => {
                self.aes_key = Some(k);
                Ok(())
            },
            Err(e) => Err(e),
        }
    }

    /// Seals a value for storage under the vault key with a random nonce;
    /// `NotOpen` when the vault holds no key.
    pub fn seal_value(&self, value: &[u8]) -> (res: Result<Vec<u8>, VaultError>)
        ensures
            match self.key() {
                None => res matches Err(VaultError::NotOpen),
                Some(k) => match res {
                    Ok(v) => is_sealing_of(k, value@, v@) && opened_record(k, v@) == Ok::<
                        Seq<u8>,
                        VaultError,
                    >(value@),
                    Err(e) => e is Decryption,
                },
            },
            self.key() is Some ==> (res is Ok <==> value@.len() <= 0x10_0000_0000),
            res matches Ok(v) ==> v@.len() == 12 + value@.len() + 16,
    {
        match &self.aes_key {
            None => Err(VaultError::NotOpen),
            Some(key) => self.encrypt_bytes(key, value),
        }
    }

    /// Opens a stored value under the vault key; `NotOpen` when the vault
    /// holds no key.
    pub fn open_value(&self, data: &[u8]) -> (res: Result<Vec<u8>, VaultError>)
        ensures
            match self.key() {
                None => res matches Err(VaultError::NotOpen),
                Some(k) => match opened_record(k, data@) {
                    Ok(p) => res matches Ok(v) && v@ == p,
                    Err(_) => res matches Err(VaultError::Decryption),
                },
            },
    {
        match &self.aes_key {
            None => Err(VaultError::NotOpen),
            Some(key) => self.decrypt_bytes(key, data),
        }
    }

    /// Forgets the key, zeroing its bytes first.
    pub fn close(&mut self)
        ensures
            final(self).key() is None,
    {
        if let Some(mut key) = self.aes_key.take() {
            zeroize_array(&mut key);
        }
    }

    fn encrypt_bytes(&self, key: &[u8; 32], plaintext: &[u8]) -> (res: Result<Vec<u8>, VaultError>)
        ensures
            match res {
                Ok(v) => is_sealing_of(key@, plaintext@, v@) && opened_record(key@, v@) == Ok::<
                    Seq<u8>,
                    VaultError,
                >(plaintext@),
                Err(e) => e is Decryption,
            },
            res is Ok <==> plaintext@.len() <= 0x10_0000_0000,
            res matches Ok(v) ==> v@.len() == 12 + plaintext@.len() + 16,
    {
        let nonce_bytes = thread_random_bytes(12);
        let nonce = bytes_to_array_12(&nonce_bytes);
        seal_record(key, &nonce, plaintext)
    }

    fn decrypt_bytes(&self, key: &[u8; 32], data: &[u8]) -> (res: Result<Vec<u8>, VaultError>)
        ensures
            match opened_record(key@, data@) {
                Ok(p) => res matches Ok(v) && v@ == p,
                Err(_) => res matches Err(VaultError::Decryption),
            },
    {
        open_record(key, data)
    }
}

impl Default for EncryptedVault {
    fn default() -> (res: Self)
        ensures
            res.key() is None,
    {
        EncryptedVault::new()
    }
}

} // verus!
