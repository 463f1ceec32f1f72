//! Message authentication codes and the byte comparisons that check them.

use vstd::prelude::*;

verus! {

/// The HMAC-SHA512 tag of a message under a key, as *ring* computes it.
pub uninterp spec fn hmac_sha512_tag(key: Seq<u8>, message: Seq<u8>) -> Seq<u8>;

/// The HMAC-SHA256 tag of a message under a key, as *ring* computes it.
pub uninterp spec fn hmac_sha256_tag(key: Seq<u8>, message: Seq<u8>) -> Seq<u8>;

/// Calls `ring::hmac::sign` with a `HMAC_SHA512` key. The contract claims that
/// the tag is a function of the key and the message alone, and that it is 64
/// bytes long, the output length of SHA-512.
#[verifier::external_body]
pub(crate) fn hmac_sha512(key: &[u8], message: &[u8]) -> (tag: Vec<u8>)
    requires
        key@.len() < 0x1000_0000_0000_0000,
        message@.len() < 0x1000_0000_0000_0000,
    ensures
        tag@ == hmac_sha512_tag(key@, message@),
        tag@.len() == 64,
{
    let signing_key = ring::hmac::Key::new(ring::hmac::HMAC_SHA512, key);
    ring::hmac::sign(&signing_key, message).as_ref().to_vec()
}

/// Calls `ring::hmac::sign` with a `HMAC_SHA256` key. The contract claims that
/// the tag is a function of the key and the message alone, and that it is 32
/// bytes long, the output length of SHA-256.
#[verifier::external_body]
pub(crate) fn hmac_sha256(key: &[u8], message: &[u8]) -> (tag: Vec<u8>)
    requires
        key@.len() < 0x1000_0000_0000_0000,
        message@.len() < 0x1000_0000_0000_0000,
    ensures
        tag@ == hmac_sha256_tag(key@, message@),
        tag@.len() == 32,
{
    let signing_key = ring::hmac::Key::new(ring::hmac::HMAC_SHA256, key);
    ring::hmac::sign(&signing_key, message).as_ref().to_vec()
}

/// Whether two byte strings are equal, comparing every byte.
pub fn bytes_equal(a: &[u8], b: &[u8]) -> (r: bool)
    ensures
        r == (a@ == b@),
{
    if a.len() != b.len() {
        return false;
    }
    let mut differ: bool = false;
    let mut i: usize = 0;
    while i < a.len()
        invariant
            a@.len() == b@.len(),
            i <= a@.len(),
            differ == exists|j: int| 0 <= j < i && a@[j] != b@[j],
        decreases a@.len() - i,
    {
        if a[i] != b[i] {
            differ = true;
        }
        i = i + 1;
    }
    if !differ {
        assert(a@ =~= b@);
    }
    !differ
}

} // verus!
