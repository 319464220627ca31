use vstd::prelude::*;

use ed25519_dalek::Signer;
use ed25519_dalek::Verifier;
use rand::RngCore;

use crate::address::b58_decode_of;
use crate::address::b58_decode_str;
use crate::address::copy_32_at;
use crate::address::is_b58_seq;
use crate::error::ServiceError;

verus! {

/// The ed25519 verifying key derived from a 32-byte secret seed. Meaningful
/// only when `secret.len() == 32`; the derivation depends on the seed alone.
pub uninterp spec fn vk_of(secret: Seq<u8>) -> Seq<u8>;

/// The ed25519 signature over `msg` by the 32-byte secret seed `secret`.
/// Ed25519 signing is deterministic, so this depends on the two arguments
/// alone.
pub uninterp spec fn sig_of(secret: Seq<u8>, msg: Seq<u8>) -> Seq<u8>;

/// Whether the 64 bytes `sig` are an ed25519 signature over `msg` that the 32
/// verifying-key bytes `vk` accept. Verification is deterministic; key bytes
/// that name no valid curve point accept nothing.
pub uninterp spec fn sig_ok(vk: Seq<u8>, msg: Seq<u8>, sig: Seq<u8>) -> bool;

/// Relies on `ed25519_dalek::SigningKey::verifying_key` (reached through
/// `SigningKey::from_bytes`, which never fails): the verifying key is a pure
/// derivation from the 32 secret bytes.
#[verifier::external_body]
fn ed25519_derive(secret: &[u8; 32]) -> (r: [u8; 32])
    ensures
        r@ == vk_of(secret@),
{
    ed25519_dalek::SigningKey::from_bytes(secret).verifying_key().to_bytes()
}

/// Relies on `Signer::sign` for `ed25519_dalek::SigningKey`, whose `try_sign`
/// never fails: deterministic ed25519 over the exact message bytes, and the
/// produced signature verifies under the key derived from the same secret.
#[verifier::external_body]
fn ed25519_sign(secret: &[u8; 32], msg: &[u8]) -> (r: [u8; 64])
    ensures
        r@ == sig_of(secret@, msg@),
        sig_ok(vk_of(secret@), msg@, r@),
{
    ed25519_dalek::SigningKey::from_bytes(secret).sign(msg).to_bytes()
}

/// Relies on `Verifier::verify` for `ed25519_dalek::VerifyingKey` (reached
/// through `VerifyingKey::from_bytes`; bytes it rejects accept no signature).
#[verifier::external_body]
fn ed25519_verify(vk: &[u8; 32], msg: &[u8], sig: &[u8; 64]) -> (r: bool)
    ensures
        r == sig_ok(vk@, msg@, sig@),
{
    match ed25519_dalek::VerifyingKey::from_bytes(vk) {
        Ok(key) => key.verify(msg, &ed25519_dalek::Signature::from_bytes(sig)).is_ok(),
        Err(_) => false,
    }
}

/// Relies on `rand::rngs::OsRng`, the operating system's cryptographically
/// secure random source: `try_fill_bytes` either fills the whole buffer or
/// reports the source's failure.
#[verifier::external_body]
fn random_bytes_32() -> (r: Option<[u8; 32]>) {
    let mut b = [0u8; 32];
    match rand::rngs::OsRng.try_fill_bytes(&mut b) {
        Ok(()) => Some(b),
        Err(_) => None,
    }
}

/// A signing keypair: a 32-byte secret seed and the verifying key derived
/// from it. Well-formed values never hold an unrelated pair.
#[derive(Clone, Copy, Debug)]
pub struct SigningKeypair {
    pub secret: [u8; 32],
    pub verifying: [u8; 32],
}

/// Invariant of `SigningKeypair`: the verifying key is the derivation of the
/// secret seed.
pub open spec fn keypair_wf(kp: SigningKeypair) -> bool {
    kp.verifying@ == vk_of(kp.secret@)
}

/// A message together with its ed25519 signature and the verifying key the
/// signature answers to.
#[derive(Debug)]
pub struct SignedMessage {
    pub message: Vec<u8>,
    pub signature: [u8; 64],
    pub verifying_key: [u8; 32],
}

/// Secret material this library accepts: a bare 32-byte seed, or the 64-byte
/// form whose trailing 32 bytes must be exactly the verifying key derived
/// from the leading seed. A mismatched tail is tampered input, never trusted.
pub open spec fn secret_accepted(s: Seq<u8>) -> bool {
    s.len() == 32 || (s.len() == 64 && s.subrange(32, 64) == vk_of(s.subrange(0, 32)))
}

/// The seed part of accepted secret material: its leading 32 bytes.
pub open spec fn secret_seed(s: Seq<u8>) -> Seq<u8> {
    s.subrange(0, 32)
}

/// Whether two 32-byte arrays hold the same bytes.
fn bytes_eq_32(a: &[u8; 32], b: &[u8; 32]) -> (r: bool)
    ensures
        r == (a@ == b@),
{
    let mut i: usize = 0;
    while i < 32
        invariant
            0 <= i <= 32,
            forall|j: int| 0 <= j < i ==> a@[j] == b@[j],
        decreases 32 - i,
    {
        if a[i] != b[i] {
            proof {
                assert(a@ != b@) by {
                    assert(a@[i as int] != b@[i as int]);
                }
            }
            return false;
        }
        i += 1;
    }
    proof {
        assert(a@ =~= b@);
    }
    true
}

/// Copies the bytes of `v` into a fresh vector.
fn clone_bytes(v: &Vec<u8>) -> (r: Vec<u8>)
    ensures
        r@ == v@,
{
    let mut r: Vec<u8> = Vec::new();
    let n = v.len();
    let mut i: usize = 0;
    while i < n
        invariant
            0 <= i <= n == v@.len(),
            r@ == v@.subrange(0, i as int),
        decreases n - i,
    {
        r.push(v[i]);
        proof {
            assert(r@ =~= v@.subrange(0, i + 1));
        }
        i += 1;
    }
    proof {
        assert(v@.subrange(0, n as int) =~= v@);
    }
    r
}

/// Draws a fresh seed from the secure random source and derives its verifying
/// key. Fails only when the random source itself does.
pub fn generate_keypair() -> (r: Result<SigningKeypair, ServiceError>)
    ensures
        r matches Ok(kp) ==> keypair_wf(kp),
        r matches Err(e) ==> e == ServiceError::InternalError,
{
    match random_bytes_32() {
        None => Err(ServiceError::InternalError),
        Some(seed) => {
            let verifying = ed25519_derive(&seed);
            Ok(SigningKeypair { secret: seed, verifying })
        },
    }
}

/// Derives the verifying key from supplied secret bytes: a 32-byte seed is
/// derived directly; in the 64-byte form the trailing 32 bytes must match the
/// key re-derived from the leading seed, else the input is rejected. Every
/// other length is rejected.
pub fn derive_verifying_key(secret: &Vec<u8>) -> (r: Result<[u8; 32], ServiceError>)
    ensures
        match r {
            Ok(vk) => secret_accepted(secret@) && vk@ == vk_of(secret_seed(secret@)),
            Err(e) => e == ServiceError::InvalidInput && !secret_accepted(secret@),
        },
{
    if secret.len() == 32 {
        let seed = copy_32_at(secret, 0);
        Ok(ed25519_derive(&seed))
    } else if secret.len() == 64 {
        let seed = copy_32_at(secret, 0);
        let derived = ed25519_derive(&seed);
        let tail = copy_32_at(secret, 32);
        if bytes_eq_32(&derived, &tail) {
            Ok(derived)
        } else {
            Err(ServiceError::InvalidInput)
        }
    } else {
        Err(ServiceError::InvalidInput)
    }
}

/// Signs the exact message bytes with the keypair's seed. For a well-formed
/// keypair the result verifies under the keypair's verifying key; signing the
/// same message with the same keypair twice yields identical bytes.
pub fn sign(message: &Vec<u8>, keypair: &SigningKeypair) -> (r: SignedMessage)
    ensures
        r.message@ == message@,
        r.verifying_key@ == keypair.verifying@,
        r.signature@ == sig_of(keypair.secret@, message@),
        keypair_wf(*keypair) ==> sig_ok(keypair.verifying@, message@, r.signature@),
{
    let signature = ed25519_sign(&keypair.secret, message.as_slice());
    SignedMessage { message: clone_bytes(message), signature, verifying_key: keypair.verifying }
}

/// Checks an ed25519 signature: true exactly when `verifying_key` accepts
/// `signature` over `message`. Pure, with no side effects.
pub fn verify(message: &Vec<u8>, signature: &[u8; 64], verifying_key: &[u8; 32]) -> (r: bool)
    ensures
        r == sig_ok(verifying_key@, message@, signature@),
{
    ed25519_verify(verifying_key, message.as_slice(), signature)
}

/// The full signing pipeline over transport-level inputs: rejects an empty
/// message, base-58-decodes the secret text, accepts only a 32-byte seed or a
/// consistent 64-byte secret, and signs. On success the signature is by the
/// decoded seed and verifies under the derived key; on any bad input it fails
/// with `InvalidInput` and produces nothing.
pub fn sign_message(message: &Vec<u8>, secret_text: &str) -> (r: Result<
    SignedMessage,
    ServiceError,
>)
    ensures
        match r {
            Ok(sm) => {
                &&& message@.len() > 0
                &&& is_b58_seq(secret_text@)
                &&& secret_accepted(b58_decode_of(secret_text@))
                &&& sm.message@ == message@
                &&& sm.verifying_key@ == vk_of(secret_seed(b58_decode_of(secret_text@)))
                &&& sm.signature@ == sig_of(secret_seed(b58_decode_of(secret_text@)), message@)
                &&& sig_ok(sm.verifying_key@, message@, sm.signature@)
            },
            Err(e) => {
                &&& e == ServiceError::InvalidInput
                &&& (message@.len() == 0 || !is_b58_seq(secret_text@) || !secret_accepted(
                    b58_decode_of(secret_text@),
                ))
            },
        },
{
    if message.len() == 0 {
        return Err(ServiceError::InvalidInput);
    }
    let decoded = match b58_decode_str(secret_text) {
        None => {
            return Err(ServiceError::InvalidInput);
        },
        Some(v) => v,
    };
    if decoded.len() == 32 {
        let seed = copy_32_at(&decoded, 0);
        let verifying = ed25519_derive(&seed);
        let keypair = SigningKeypair { secret: seed, verifying };
        Ok(sign(message, &keypair))
    } else if decoded.len() == 64 {
        let seed = copy_32_at(&decoded, 0);
        let derived = ed25519_derive(&seed);
        let tail = copy_32_at(&decoded, 32);
        if bytes_eq_32(&derived, &tail) {
            let keypair = SigningKeypair { secret: seed, verifying: derived };
            Ok(sign(message, &keypair))
        } else {
            Err(ServiceError::InvalidInput)
        }
    } else {
        Err(ServiceError::InvalidInput)
    }
}

} // verus!
