//! The hybrid key encapsulation of X25519 and Kyber-1024: the shared secret
//! is SHA3-256("NCP-HYBRID-KEM-v1" || X25519 secret || Kyber secret).
use vstd::prelude::*;

use crate::crypto::primitives::{
    kyber1024_decapsulate, kyber1024_decapsulated, kyber1024_encapsulate, kyber1024_encapsulation,
    kyber1024_keypair, kyber1024_public_of,
    sha3_256, sha3_256_digest, x25519_diffie_hellman, x25519_public, x25519_public_key,
    x25519_random_secret, x25519_shared,
};
use crate::crypto::ratchet::dh_agrees;

verus! {

/// Why a key encapsulation operation failed.
#[derive(Debug)]
pub enum KemError {
    DecapFailed,
    InvalidCiphertext,
}

/// A hybrid public key: an X25519 public key and a Kyber-1024 public key.
pub struct HybridKemPublicKey {
    pub x25519_pk: [u8; 32],
    pub kyber_pk: [u8; 1568],
}

/// A hybrid secret key: an X25519 secret and a Kyber-1024 secret key.
pub struct HybridKemSecretKey {
    x25519_sk: [u8; 32],
    kyber_sk: [u8; 3168],
}

/// A hybrid ciphertext: an ephemeral X25519 public key and a Kyber-1024
/// ciphertext.
pub struct HybridCiphertext {
    pub x25519_pk: [u8; 32],
    pub kyber_ct: [u8; 1568],
}

/// The hybrid key encapsulation mechanism.
pub struct HybridKem;

/// `NCP-HYBRID-KEM-v1`: the domain label hashed before both secrets.
pub open spec fn kem_label() -> Seq<u8> {
    seq![78u8, 67, 80, 45, 72, 89, 66, 82, 73, 68, 45, 75, 69, 77, 45, 118, 49]
}

/// The combined secret of an X25519 and a Kyber shared secret.
pub open spec fn combined_secret(x25519_ss: Seq<u8>, kyber_ss: Seq<u8>) -> Seq<u8> {
    sha3_256(kem_label() + x25519_ss + kyber_ss)
}

/// Law: the combined secret is the SHA3-256 digest of the label
/// `NCP-HYBRID-KEM-v1`, then the X25519 shared secret, then the Kyber shared
/// secret; the hashed input holds both secrets whole and in that order.
pub proof fn law_combined_secret_hashes_both(x25519_ss: Seq<u8>, kyber_ss: Seq<u8>)
    ensures
        combined_secret(x25519_ss, kyber_ss) == sha3_256(kem_label() + x25519_ss + kyber_ss),
        ({
            let input = kem_label() + x25519_ss + kyber_ss;
            &&& input.len() == 17 + x25519_ss.len() + kyber_ss.len()
            &&& input.subrange(0, 17) == kem_label()
            &&& input.subrange(17, 17 + x25519_ss.len() as int) == x25519_ss
            &&& input.subrange(17 + x25519_ss.len() as int, input.len() as int) == kyber_ss
        }),
{
    let input = kem_label() + x25519_ss + kyber_ss;
    assert(input.subrange(0, 17) =~= kem_label());
    assert(input.subrange(17, 17 + x25519_ss.len() as int) =~= x25519_ss);
    assert(input.subrange(17 + x25519_ss.len() as int, input.len() as int) =~= kyber_ss);
}

impl HybridKemSecretKey {
    /// The X25519 secret.
    pub closed spec fn x25519_secret(&self) -> Seq<u8> {
        self.x25519_sk@
    }

    /// The Kyber-1024 secret key.
    pub closed spec fn kyber_secret(&self) -> Seq<u8> {
        self.kyber_sk@
    }
}

fn kem_label_bytes() -> (res: Vec<u8>)
    ensures
        res@ == kem_label(),
{
    let res = vec![78u8, 67, 80, 45, 72, 89, 66, 82, 73, 68, 45, 75, 69, 77, 45, 118, 49];
    assert(res@ =~= kem_label());
    res
}

fn append_bytes(v: &mut Vec<u8>, s: &[u8])
    ensures
        final(v)@ == old(v)@ + s@,
{
    let mut i: usize = 0;
    while i < s.len()
        invariant
            i <= s@.len(),
            v@ == old(v)@ + s@.subrange(0, i as int),
        decreases s@.len() - i,
    {
        v.push(s[i]);
        i = i + 1;
        assert(v@ =~= old(v)@ + s@.subrange(0, i as int));
    }
    assert(s@.subrange(0, s@.len() as int) =~= s@);
}

impl HybridKem {
    /// A new key pair: a random X25519 secret with its public key, and a
    /// Kyber-1024 key pair.
    pub fn generate_keypair() -> (res: (HybridKemPublicKey, HybridKemSecretKey))
        ensures
            res.1.x25519_secret().len() == 32,
            res.0.x25519_pk@ == x25519_public(res.1.x25519_secret()),
            dh_agrees(res.1.x25519_secret(), res.0.x25519_pk@),
            res.0.kyber_pk@ == kyber1024_public_of(res.1.kyber_secret()),
    {
        let x25519_sk = x25519_random_secret();
        let x25519_pk = x25519_public_key(&x25519_sk);
        let (kyber_pk, kyber_sk) = kyber1024_keypair();
        (HybridKemPublicKey { x25519_pk, kyber_pk }, HybridKemSecretKey { x25519_sk, kyber_sk })
    }

    /// Encapsulates to `recipient_pk`: an ephemeral X25519 secret's public
    /// key and a Kyber-1024 ciphertext, with the combined secret of the
    /// ephemeral secret's X25519 agreement and the encapsulated Kyber secret.
    pub fn encapsulate(recipient_pk: &HybridKemPublicKey) -> (res: (HybridCiphertext, [u8; 32]))
        ensures
            exists|ephemeral: Seq<u8>, coins: Seq<u8>|
                #![trigger x25519_public(ephemeral), kyber1024_encapsulation(recipient_pk.kyber_pk@, coins)]
                ephemeral.len() == 32 && coins.len() == 32 && res.0.x25519_pk@ == x25519_public(ephemeral)
                    && res.0.kyber_ct@ == kyber1024_encapsulation(recipient_pk.kyber_pk@, coins).1
                    && res.1@ == combined_secret(
                    x25519_shared(ephemeral, recipient_pk.x25519_pk@),
                    kyber1024_encapsulation(recipient_pk.kyber_pk@, coins).0,
                ) && res.1@ == sha3_256(
                    kem_label() + x25519_shared(ephemeral, recipient_pk.x25519_pk@) + kyber1024_encapsulation(
                        recipient_pk.kyber_pk@,
                        coins,
                    ).0,
                ),
    {
        let ephemeral_sk = x25519_random_secret();
        let ephemeral_pk = x25519_public_key(&ephemeral_sk);
        let x25519_shared_bytes = x25519_diffie_hellman(&ephemeral_sk, &recipient_pk.x25519_pk);
        let (kyber_ss, kyber_ct, Ghost(coins)) = kyber1024_encapsulate(&recipient_pk.kyber_pk);
        let combined = Self::combine_shared_secrets(&x25519_shared_bytes, &kyber_ss);
        (HybridCiphertext { x25519_pk: ephemeral_pk, kyber_ct }, combined)
    }

    /// Decapsulates `ciphertext` with `sk`: the combined secret of the X25519
    /// agreement with the ephemeral key and the decapsulated Kyber secret.
    /// This always succeeds.
    pub fn decapsulate(sk: &HybridKemSecretKey, ciphertext: &HybridCiphertext) -> (res: Result<[u8; 32], KemError>)
        ensures
            res matches Ok(k) && k@ == combined_secret(
                x25519_shared(sk.x25519_secret(), ciphertext.x25519_pk@),
                kyber1024_decapsulated(ciphertext.kyber_ct@, sk.kyber_secret()),
            ),
            res matches Ok(k) && k@ == sha3_256(
                kem_label() + x25519_shared(sk.x25519_secret(), ciphertext.x25519_pk@) + kyber1024_decapsulated(
                    ciphertext.kyber_ct@,
                    sk.kyber_secret(),
                ),
            ),
    {
        let x25519_shared_bytes = x25519_diffie_hellman(&sk.x25519_sk, &ciphertext.x25519_pk);
        let kyber_ss = kyber1024_decapsulate(&ciphertext.kyber_ct, &sk.kyber_sk);
        Ok(Self::combine_shared_secrets(&x25519_shared_bytes, &kyber_ss))
    }

    fn combine_shared_secrets(x25519_ss: &[u8], kyber_ss: &[u8]) -> (res: [u8; 32])
        ensures
            res@ == combined_secret(x25519_ss@, kyber_ss@),
            res@ == sha3_256(kem_label() + x25519_ss@ + kyber_ss@),
    {
        let mut input = kem_label_bytes();
        append_bytes(&mut input, x25519_ss);
        append_bytes(&mut input, kyber_ss);
        sha3_256_digest(&input)
    }
}

/// Law: the X25519 halves of an encapsulation and its decapsulation agree.
/// For a key pair whose X25519 keys agree and a ciphertext whose ephemeral
/// key belongs to the ephemeral secret, the recipient's shared secret with
/// the ephemeral key equals the ephemeral secret's with the recipient's key,
/// so both sides derive the same combined secret exactly when their Kyber
/// secrets agree.
pub proof fn law_hybrid_x25519_halves_agree(
    recipient_secret: Seq<u8>,
    recipient_public: Seq<u8>,
    ephemeral: Seq<u8>,
    kyber_sent: Seq<u8>,
    kyber_received: Seq<u8>,
)
    requires
        dh_agrees(recipient_secret, recipient_public),
        ephemeral.len() == 32,
    ensures
        x25519_shared(recipient_secret, x25519_public(ephemeral)) == x25519_shared(ephemeral, recipient_public),
        (combined_secret(x25519_shared(recipient_secret, x25519_public(ephemeral)), kyber_received)
            == combined_secret(x25519_shared(ephemeral, recipient_public), kyber_sent)) <== (kyber_received
            == kyber_sent),
{
    assert(x25519_shared(ephemeral, recipient_public) == x25519_shared(recipient_secret, x25519_public(ephemeral)));
}

} // verus!
