use vstd::prelude::*;

use crate::errors::UnknownCryptoError;
use rand::RngCore;

verus! {

/// The all-zero byte sequence of length `n`.
pub open spec fn zero_bytes(n: nat) -> Seq<u8> {
    Seq::new(n, |i: int| 0u8)
}

/// Relies on constant_time_eq::constant_time_eq: returns whether the two
/// slices hold the same bytes, in time independent of their content.
#[verifier::external_body]
fn ct_eq(a: &[u8], b: &[u8]) -> (r: bool)
    ensures
        r == (a@ == b@),
{
    constant_time_eq::constant_time_eq(a, b)
}

/// Relies on rand's OsRng (RngCore::try_fill_bytes): on success the buffer of
/// `len` bytes is filled from the operating system's entropy source. Nothing
/// is promised of the bytes themselves, and the read may fail.
#[verifier::external_body]
fn os_random_bytes(len: usize) -> (r: Result<Vec<u8>, UnknownCryptoError>)
    ensures
        r is Ok ==> r->Ok_0@.len() == len,
{
    let mut buf = vec![0u8; len];
    match rand::rngs::OsRng.try_fill_bytes(&mut buf) {
        Ok(()) => Ok(buf),
        Err(_) => Err(UnknownCryptoError),
    }
}

/// Relies on clear_on_drop's Clear for [u8]: every byte of the buffer is
/// overwritten with zero behind an optimizer barrier; the length is kept.
#[verifier::external_body]
pub fn clear_bytes(v: &mut Vec<u8>)
    ensures
        final(v)@ == zero_bytes(old(v)@.len()),
{
    clear_on_drop::clear::Clear::clear(v.as_mut_slice())
}

/// Return a fresh vector holding the same bytes as the given slice.
pub fn copy_bytes(s: &[u8]) -> (r: Vec<u8>)
    ensures
        r@ == s@,
{
    let mut v: Vec<u8> = Vec::new();
    let mut i: usize = 0;
    while i < s.len()
        invariant
            i <= s@.len(),
            v@ == s@.subrange(0, i as int),
        decreases s@.len() - i,
    {
        v.push(s[i]);
        i = i + 1;
        assert(v@ =~= s@.subrange(0, i as int));
    }
    assert(v@ =~= s@);
    v
}

/// Append every byte of `src` to `dst`.
pub fn extend_bytes(dst: &mut Vec<u8>, src: &[u8])
    ensures
        final(dst)@ == old(dst)@ + src@,
{
    let mut i: usize = 0;
    while i < src.len()
        invariant
            i <= src@.len(),
            dst@ == old(dst)@ + src@.subrange(0, i as int),
        decreases src@.len() - i,
    {
        dst.push(src[i]);
        i = i + 1;
        assert(dst@ =~= old(dst)@ + src@.subrange(0, i as int));
    }
    assert(dst@ =~= old(dst)@ + src@);
}

/// Return a random byte vector of a given length, read from the operating
/// system's cryptographically secure generator. The length must be at least 1;
/// a shorter request, or a generator that cannot be read, is an error.
pub fn gen_rand_key(len: usize) -> (r: Result<Vec<u8>, UnknownCryptoError>)
    ensures
        len < 1 ==> r is Err,
        r is Ok ==> len >= 1 && r->Ok_0@.len() == len,
{
    if len < 1 {
        return Err(UnknownCryptoError);
    }
    os_random_bytes(len)
}

/// Compare two byte slices in time independent of their content. The result
/// is `Ok(true)` exactly when the slices have equal length and equal bytes;
/// any mismatch, of length or of content, is an error, never a `false`.
pub fn compare_ct(a: &[u8], b: &[u8]) -> (r: Result<bool, UnknownCryptoError>)
    ensures
        r is Ok <==> a@ == b@,
        r is Ok ==> r->Ok_0 == true,
{
    if a.len() != b.len() {
        return Err(UnknownCryptoError);
    }
    if ct_eq(a, b) {
        Ok(true)
    } else {
        Err(UnknownCryptoError)
    }
}

} // verus!
