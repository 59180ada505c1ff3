use vstd::prelude::*;

use crate::errors::ValidationCryptoError;
use crate::options::ShaVariantOption;
use crate::util;
use crate::util::zero_bytes;
use sha2::Digest;

verus! {

/// The SHA-256 digest of a message, named; it is a function of the message
/// alone.
pub uninterp spec fn sha256_of(m: Seq<u8>) -> Seq<u8>;

/// The SHA-384 digest of a message, named; it is a function of the message
/// alone.
pub uninterp spec fn sha384_of(m: Seq<u8>) -> Seq<u8>;

/// The SHA-512 digest of a message, named; it is a function of the message
/// alone.
pub uninterp spec fn sha512_of(m: Seq<u8>) -> Seq<u8>;

/// Relies on sha2::Sha256::digest: the 32-byte SHA-256 digest of `m`, a
/// function of the message alone.
#[verifier::external_body]
fn sha256_digest(m: &[u8]) -> (r: Vec<u8>)
    ensures
        r@ == sha256_of(m@),
        r@.len() == 32,
{
    sha2::Sha256::digest(m).to_vec()
}

/// Relies on sha2::Sha384::digest: the 48-byte SHA-384 digest of `m`, a
/// function of the message alone.
#[verifier::external_body]
fn sha384_digest(m: &[u8]) -> (r: Vec<u8>)
    ensures
        r@ == sha384_of(m@),
        r@.len() == 48,
{
    sha2::Sha384::digest(m).to_vec()
}

/// Relies on sha2::Sha512::digest: the 64-byte SHA-512 digest of `m`, a
/// function of the message alone.
#[verifier::external_body]
fn sha512_digest(m: &[u8]) -> (r: Vec<u8>)
    ensures
        r@ == sha512_of(m@),
        r@.len() == 64,
{
    sha2::Sha512::digest(m).to_vec()
}

/// The digest of `m` under the chosen hash variant.
pub open spec fn spec_digest(v: ShaVariantOption, m: Seq<u8>) -> Seq<u8> {
    match v {
        ShaVariantOption::SHA256 => sha256_of(m),
        ShaVariantOption::SHA384 => sha384_of(m),
        ShaVariantOption::SHA512 => sha512_of(m),
    }
}

/// Compute the digest of `m` under the chosen hash variant.
pub fn digest(v: ShaVariantOption, m: &[u8]) -> (r: Vec<u8>)
    ensures
        r@ == spec_digest(v, m@),
        r@.len() == v.spec_output_size(),
{
    match v {
        ShaVariantOption::SHA256 => sha256_digest(m),
        ShaVariantOption::SHA384 => sha384_digest(m),
        ShaVariantOption::SHA512 => sha512_digest(m),
    }
}

/// The block-size-adjusted HMAC key: a key longer than the block size is
/// hashed down first, and the result is zero-padded to exactly the block
/// size.
pub open spec fn spec_padded_key(v: ShaVariantOption, key: Seq<u8>) -> Seq<u8> {
    let k0 = if key.len() > v.spec_block_size() {
        spec_digest(v, key)
    } else {
        key
    };
    let pad = if k0.len() <= v.spec_block_size() {
        (v.spec_block_size() - k0.len()) as nat
    } else {
        0
    };
    k0 + zero_bytes(pad)
}

/// Each byte of `s` XORed with the fixed pad byte `b`.
pub open spec fn xor_with(s: Seq<u8>, b: u8) -> Seq<u8> {
    Seq::new(s.len(), |i: int| s[i] ^ b)
}

/// The HMAC construction: the hash applied twice, inner over
/// padded-key XOR 0x36 followed by the message, outer over
/// padded-key XOR 0x5c followed by the inner digest.
pub open spec fn spec_hmac(v: ShaVariantOption, key: Seq<u8>, msg: Seq<u8>) -> Seq<u8> {
    let kp = spec_padded_key(v, key);
    spec_digest(v, xor_with(kp, 0x5c) + spec_digest(v, xor_with(kp, 0x36) + msg))
}

/// Law: HMAC is deterministic — two computations over the same key, message
/// and variant yield byte-identical output.
pub proof fn lemma_hmac_deterministic(
    v: ShaVariantOption,
    key: Seq<u8>,
    msg: Seq<u8>,
    r1: Seq<u8>,
    r2: Seq<u8>,
)
    requires
        r1 == spec_hmac(v, key, msg),
        r2 == spec_hmac(v, key, msg),
    ensures
        r1 == r2,
{
}

/// Law: verification is consistent — a candidate that differs from the
/// computed tag in any byte is not that tag, so `Hmac::verify` rejects it.
pub proof fn lemma_hmac_verify_rejects_mismatch(
    v: ShaVariantOption,
    key: Seq<u8>,
    msg: Seq<u8>,
    candidate: Seq<u8>,
    i: int,
)
    requires
        0 <= i < candidate.len(),
        i < spec_hmac(v, key, msg).len(),
        candidate[i] != spec_hmac(v, key, msg)[i],
    ensures
        candidate != spec_hmac(v, key, msg),
{
}

/// HMAC parameters: a secret key and a message of any length, and the hash
/// variant to run the construction on. The output is always exactly `hLen`
/// bytes.
pub struct Hmac {
    pub secret_key: Vec<u8>,
    pub data: Vec<u8>,
    pub sha2: ShaVariantOption,
}

impl Hmac {
    /// Return the block-size-adjusted key for this record's variant.
    fn pad_key(&self) -> (r: Vec<u8>)
        ensures
            r@ == spec_padded_key(self.sha2, self.secret_key@),
            r@.len() == self.sha2.spec_block_size(),
    {
        let block_size = self.sha2.block_size();
        let mut k0: Vec<u8> = if self.secret_key.len() > block_size {
            digest(self.sha2, self.secret_key.as_slice())
        } else {
            util::copy_bytes(self.secret_key.as_slice())
        };
        let ghost k0_view = k0@;
        while k0.len() < block_size
            invariant
                block_size == self.sha2.spec_block_size(),
                k0_view.len() <= self.sha2.spec_block_size(),
                k0@.len() <= self.sha2.spec_block_size(),
                k0@ == k0_view + zero_bytes((k0@.len() - k0_view.len()) as nat),
            decreases self.sha2.spec_block_size() - k0@.len(),
        {
            k0.push(0u8);
            assert(k0@ =~= k0_view + zero_bytes((k0@.len() - k0_view.len()) as nat));
        }
        assert(k0@ =~= spec_padded_key(self.sha2, self.secret_key@));
        k0
    }

    /// Compute the keyed hash of this record's message under its key. The
    /// result is deterministic: the same key, message and variant always give
    /// byte-identical output, of exactly `hLen` bytes.
    pub fn finalize(&self) -> (r: Vec<u8>)
        ensures
            r@ == spec_hmac(self.sha2, self.secret_key@, self.data@),
            r@.len() == self.sha2.spec_output_size(),
    {
        let block_size = self.sha2.block_size();
        let kp = self.pad_key();
        let ghost kp_view = kp@;

        let mut inner: Vec<u8> = Vec::new();
        let mut i: usize = 0;
        while i < block_size
            invariant
                i <= block_size,
                block_size == self.sha2.spec_block_size(),
                kp@ == kp_view,
                kp_view.len() == block_size,
                inner@ == xor_with(kp_view, 0x36).subrange(0, i as int),
            decreases block_size - i,
        {
            inner.push(kp[i] ^ 0x36);
            i = i + 1;
            assert(inner@ =~= xor_with(kp_view, 0x36).subrange(0, i as int));
        }
        assert(inner@ =~= xor_with(kp_view, 0x36));
        util::extend_bytes(&mut inner, self.data.as_slice());
        let inner_digest = digest(self.sha2, inner.as_slice());

        let mut outer: Vec<u8> = Vec::new();
        let mut j: usize = 0;
        while j < block_size
            invariant
                j <= block_size,
                block_size == self.sha2.spec_block_size(),
                kp@ == kp_view,
                kp_view.len() == block_size,
                outer@ == xor_with(kp_view, 0x5c).subrange(0, j as int),
            decreases block_size - j,
        {
            outer.push(kp[j] ^ 0x5c);
            j = j + 1;
            assert(outer@ =~= xor_with(kp_view, 0x5c).subrange(0, j as int));
        }
        assert(outer@ =~= xor_with(kp_view, 0x5c));
        util::extend_bytes(&mut outer, inner_digest.as_slice());
        digest(self.sha2, outer.as_slice())
    }

    /// Verify a keyed hash by recomputing it from this record's fields and
    /// comparing in constant time. Equality is the only success; any
    /// mismatch, of length or of content, is a validation error.
    pub fn verify(&self, expected: &[u8]) -> (r: Result<bool, ValidationCryptoError>)
        ensures
            r is Ok <==> expected@ == spec_hmac(self.sha2, self.secret_key@, self.data@),
            r is Ok ==> r->Ok_0 == true,
    {
        let own = self.finalize();
        if util::compare_ct(own.as_slice(), expected).is_err() {
            Err(ValidationCryptoError)
        } else {
            Ok(true)
        }
    }

    /// Overwrite this record's key and message buffers with zero bytes; their
    /// lengths are kept, so the wiped state is observable.
    pub fn wipe(&mut self)
        ensures
            final(self).secret_key@ == zero_bytes(old(self).secret_key@.len()),
            final(self).data@ == zero_bytes(old(self).data@.len()),
            final(self).sha2 == old(self).sha2,
    {
        util::clear_bytes(&mut self.secret_key);
        util::clear_bytes(&mut self.data);
    }
}

} // verus!
