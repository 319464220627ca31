use vstd::prelude::*;

use crate::error::ServiceError;

verus! {

/// Whether `c` belongs to the base-58 alphabet
/// `123456789ABCDEFGHJKLMNPQRSTUVWXYZabcdefghijkmnopqrstuvwxyz`
/// (the usual 62 alphanumerics without `0`, `O`, `I` and `l`).
pub open spec fn is_b58_char(c: char) -> bool {
    ||| ('1' <= c && c <= '9')
    ||| ('A' <= c && c <= 'H')
    ||| ('J' <= c && c <= 'N')
    ||| ('P' <= c && c <= 'Z')
    ||| ('a' <= c && c <= 'k')
    ||| ('m' <= c && c <= 'z')
}

/// Whether every character of `s` belongs to the base-58 alphabet.
pub open spec fn is_b58_seq(s: Seq<char>) -> bool {
    forall|i: int| 0 <= i < s.len() ==> is_b58_char(#[trigger] s[i])
}

/// The bytes that base-58 text stands for: each character is a base-58 digit
/// of a big-endian number, and each leading `1` is one leading zero byte.
/// Meaningful only when `is_b58_seq(s)` holds.
pub uninterp spec fn b58_decode_of(s: Seq<char>) -> Seq<u8>;

/// Relies on `bs58::encode` (Bitcoin alphabet, no checksum). Base-58 text and
/// byte strings correspond one to one: leading `1` characters stand for
/// leading zero bytes, and the remaining characters are the digits of a
/// base-58 number with no leading zero digit. So the encoder's output decodes
/// back to the input bytes, and no other base-58 text decodes to them.
#[verifier::external_body]
pub(crate) fn b58_encode_bytes(b: &[u8]) -> (r: String)
    ensures
        is_b58_seq(r@),
        b58_decode_of(r@) == b@,
        forall|s: Seq<char>| is_b58_seq(s) && b58_decode_of(s) == b@ ==> s == r@,
{
    bs58::encode(b).into_string()
}

/// Relies on `bs58::decode` (Bitcoin alphabet, no checksum): it fails exactly
/// when a character falls outside the alphabet, and decodes to at most one
/// byte per input character.
#[verifier::external_body]
pub(crate) fn b58_decode_str(s: &str) -> (r: Option<Vec<u8>>)
    ensures
        r is Some <==> is_b58_seq(s@),
        r matches Some(v) ==> v@ == b58_decode_of(s@) && v@.len() <= s@.len(),
{
    bs58::decode(s).into_vec().ok()
}

/// A 32-byte ledger identifier: an account, a program id, or an ed25519
/// verifying key. Its textual form is base-58.
#[derive(Clone, Copy, Debug)]
pub struct Address {
    pub bytes: [u8; 32],
}

/// Whether `s` is well-formed address text: base-58 that decodes to exactly
/// 32 bytes. Empty text never qualifies.
pub open spec fn is_address_text(s: Seq<char>) -> bool {
    is_b58_seq(s) && b58_decode_of(s).len() == 32
}

impl View for Address {
    type V = Seq<u8>;

    open spec fn view(&self) -> Seq<u8> {
        self.bytes@
    }
}

impl Address {
    /// Parses base-58 address text. Rejects text with a character outside the
    /// base-58 alphabet and text that decodes to any length other than 32
    /// bytes (so also empty text); a wrong-length value is never padded or
    /// truncated into an address.
    pub fn decode(text: &str) -> (r: Result<Address, ServiceError>)
        ensures
            match r {
                Ok(a) => is_address_text(text@) && a@ == b58_decode_of(text@),
                Err(e) => e == ServiceError::InvalidInput && !is_address_text(text@),
            },
    {
        match b58_decode_str(text) {
            None => Err(ServiceError::InvalidInput),
            Some(v) => {
                if v.len() != 32 {
                    Err(ServiceError::InvalidInput)
                } else {
                    let bytes = copy_32_at(&v, 0);
                    proof {
                        assert(v@.subrange(0, 32) =~= v@);
                    }
                    Ok(Address { bytes })
                }
            },
        }
    }

    /// Canonical base-58 text of this address: it decodes back to these 32
    /// bytes, and it is the only base-58 text that does — so decoding any
    /// canonically-encoded text and re-encoding returns that text unchanged.
    pub fn encode(&self) -> (r: String)
        ensures
            is_b58_seq(r@),
            b58_decode_of(r@) == self@,
            is_address_text(r@),
            forall|s: Seq<char>| is_b58_seq(s) && b58_decode_of(s) == self@ ==> s == r@,
    {
        b58_encode_bytes(self.bytes.as_slice())
    }
}

/// Copies `v[off .. off + 32]` into a fresh 32-byte array.
pub(crate) fn copy_32_at(v: &Vec<u8>, off: usize) -> (r: [u8; 32])
    requires
        off + 32 <= v@.len(),
    ensures
        r@ == v@.subrange(off as int, off as int + 32),
{
    let n = v.len();
    let mut r: [u8; 32] = [0u8; 32];
    let mut i: usize = 0;
    while i < 32
        invariant
            0 <= i <= 32,
            off + 32 <= n == v@.len(),
            forall|j: int| 0 <= j < i ==> r@[j] == v@[off + j],
        decreases 32 - i,
    {
        r[i] = v[off + i];
        i += 1;
    }
    proof {
        assert(r@ =~= v@.subrange(off as int, off as int + 32));
    }
    r
}

} // verus!
