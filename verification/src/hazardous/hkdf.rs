use vstd::prelude::*;

use crate::errors::{UnknownCryptoError, ValidationCryptoError};
use crate::hazardous::hmac::{spec_hmac, Hmac};
use crate::options::ShaVariantOption;
use crate::util;
use crate::util::zero_bytes;

verus! {

/// Block `i` of the HKDF expand step, 1-indexed; block 0 is empty and
/// block `i` is `HMAC(prk, block(i-1) ++ info ++ [i])`.
pub open spec fn spec_expand_block(
    v: ShaVariantOption,
    prk: Seq<u8>,
    info: Seq<u8>,
    i: nat,
) -> Seq<u8>
    decreases i,
{
    if i == 0 {
        Seq::empty()
    } else {
        spec_hmac(v, prk, spec_expand_block(v, prk, info, (i - 1) as nat) + info + seq![i as u8])
    }
}

/// The concatenation of expand blocks 1 through `n`.
pub open spec fn spec_expand_raw(
    v: ShaVariantOption,
    prk: Seq<u8>,
    info: Seq<u8>,
    n: nat,
) -> Seq<u8>
    decreases n,
{
    if n == 0 {
        Seq::empty()
    } else {
        spec_expand_raw(v, prk, info, (n - 1) as nat) + spec_expand_block(v, prk, info, n)
    }
}

/// The HKDF expand output: `ceil(length / hLen)` blocks, truncated to exactly
/// `length` bytes.
pub open spec fn spec_expand(
    v: ShaVariantOption,
    prk: Seq<u8>,
    info: Seq<u8>,
    length: nat,
) -> Seq<u8> {
    let n = if length == 0 {
        0
    } else {
        ((length - 1) / v.spec_output_size() as int + 1) as nat
    };
    spec_expand_raw(v, prk, info, n).take(length as int)
}

/// The full extract-then-expand derivation: the pseudorandom key is
/// `HMAC(key = salt, message = ikm)`, then expanded over `info`.
pub open spec fn spec_derive(
    v: ShaVariantOption,
    salt: Seq<u8>,
    ikm: Seq<u8>,
    info: Seq<u8>,
    length: nat,
) -> Seq<u8> {
    spec_expand(v, spec_hmac(v, salt, ikm), info, length)
}

/// Law: HKDF derivation is deterministic — two derivations from the same
/// salt, keying material, info, length and variant yield byte-identical
/// output.
pub proof fn lemma_hkdf_deterministic(
    v: ShaVariantOption,
    salt: Seq<u8>,
    ikm: Seq<u8>,
    info: Seq<u8>,
    length: nat,
    r1: Seq<u8>,
    r2: Seq<u8>,
)
    requires
        r1 == spec_derive(v, salt, ikm, info, length),
        r2 == spec_derive(v, salt, ikm, info, length),
    ensures
        r1 == r2,
{
}

/// Law: verification is consistent — a candidate that differs from the
/// derived key in any byte is not that key, so `Hkdf::verify` rejects it.
pub proof fn lemma_hkdf_verify_rejects_mismatch(
    v: ShaVariantOption,
    salt: Seq<u8>,
    ikm: Seq<u8>,
    info: Seq<u8>,
    length: nat,
    candidate: Seq<u8>,
    i: int,
)
    requires
        0 <= i < candidate.len(),
        i < spec_derive(v, salt, ikm, info, length).len(),
        candidate[i] != spec_derive(v, salt, ikm, info, length)[i],
    ensures
        candidate != spec_derive(v, salt, ikm, info, length),
{
}

/// HKDF parameters (RFC 5869): an optional salt, the input keying material,
/// optional context info, the desired output length and the hash variant.
/// The output length must lie in `1 ..= 255 * hLen`.
pub struct Hkdf {
    pub salt: Vec<u8>,
    pub ikm: Vec<u8>,
    pub info: Vec<u8>,
    pub length: usize,
    pub hmac: ShaVariantOption,
}

impl Hkdf {
    /// The requested output length lies in `1 ..= 255 * hLen`.
    pub open spec fn length_ok(self) -> bool {
        1 <= self.length <= 255 * self.hmac.spec_output_size()
    }

    /// Return the maximum okm length (255 * hLen).
    pub fn max_okmlen(&self) -> (r: usize)
        ensures
            r == 255 * self.hmac.spec_output_size(),
    {
        match self.hmac {
            ShaVariantOption::SHA256 => 8160,
            ShaVariantOption::SHA384 => 12240,
            ShaVariantOption::SHA512 => 16320,
        }
    }

    /// The HKDF Extract step: `HMAC(key = salt, message = ikm)`. The salt is
    /// the MAC key, not the data.
    pub fn extract(&self, salt: &[u8], ikm: &[u8]) -> (r: Vec<u8>)
        ensures
            r@ == spec_hmac(self.hmac, salt@, ikm@),
            r@.len() == self.hmac.spec_output_size(),
    {
        let prk = Hmac {
            secret_key: util::copy_bytes(salt),
            data: util::copy_bytes(ikm),
            sha2: self.hmac,
        };
        prk.finalize()
    }

    /// The HKDF Expand step: blocks are computed iteratively and concatenated
    /// until at least `length` bytes exist, then truncated to exactly
    /// `length`. Succeeds exactly when the length lies in `1 ..= 255 * hLen`.
    pub fn expand(&self, prk: &[u8]) -> (r: Result<Vec<u8>, UnknownCryptoError>)
        ensures
            r is Ok <==> self.length_ok(),
            r is Ok ==> r->Ok_0@ == spec_expand(
                self.hmac,
                prk@,
                self.info@,
                self.length as nat,
            ),
            r is Ok ==> r->Ok_0@.len() == self.length,
    {
        if self.length > self.max_okmlen() {
            return Err(UnknownCryptoError);
        }
        if self.length < 1 {
            return Err(UnknownCryptoError);
        }

        let hlen = self.hmac.output_size();
        let n_iter: usize = 1 + ((self.length - 1) / hlen);
        assert((self.length - 1) / hlen as int <= 254) by (nonlinear_arith)
            requires
                32 <= hlen,
                1 <= self.length <= 255 * hlen,
        ;

        let mut con_step: Vec<u8> = Vec::new();
        let mut okm: Vec<u8> = Vec::new();
        let mut index: usize = 1;
        while index <= n_iter
            invariant
                1 <= index <= n_iter + 1,
                n_iter <= 255,
                hlen == self.hmac.spec_output_size(),
                con_step@ == spec_expand_block(
                    self.hmac,
                    prk@,
                    self.info@,
                    (index - 1) as nat,
                ),
                okm@ == spec_expand_raw(self.hmac, prk@, self.info@, (index - 1) as nat),
                okm@.len() == (index - 1) * hlen,
            decreases n_iter + 1 - index,
        {
            util::extend_bytes(&mut con_step, self.info.as_slice());
            con_step.push(index as u8);
            assert(con_step@ =~= spec_expand_block(self.hmac, prk@, self.info@, (index - 1) as nat)
                + self.info@ + seq![index as u8]);
            con_step = self.extract(prk, con_step.as_slice());
            util::extend_bytes(&mut okm, con_step.as_slice());
            assert((index - 1) * hlen + hlen == index * hlen) by (nonlinear_arith);
            index = index + 1;
        }
        assert(index == n_iter + 1);
        assert(okm@.len() >= self.length) by (nonlinear_arith)
            requires
                okm@.len() == n_iter * hlen,
                n_iter == 1 + ((self.length - 1) / hlen as int),
                32 <= hlen,
                1 <= self.length,
        ;

        okm.truncate(self.length);
        Ok(okm)
    }

    /// Combine Extract and Expand to return a derived key. The intermediate
    /// pseudorandom key is wiped before the function returns, whether or not
    /// the expand step succeeded.
    pub fn derive_key(&self) -> (r: Result<Vec<u8>, UnknownCryptoError>)
        ensures
            r is Ok <==> self.length_ok(),
            r is Ok ==> r->Ok_0@ == spec_derive(
                self.hmac,
                self.salt@,
                self.ikm@,
                self.info@,
                self.length as nat,
            ),
            r is Ok ==> r->Ok_0@.len() == self.length,
    {
        let mut prk = self.extract(self.salt.as_slice(), self.ikm.as_slice());
        let dk = self.expand(prk.as_slice());
        util::clear_bytes(&mut prk);
        dk
    }

    /// Verify a derived key against the one this record's fields produce,
    /// comparing in constant time. Equality is the only success; any
    /// mismatch, of length or of content, is a validation error.
    pub fn verify(&self, expected_dk: &[u8]) -> (r: Result<bool, ValidationCryptoError>)
        requires
            self.length_ok(),
        ensures
            r is Ok <==> expected_dk@ == spec_derive(
                self.hmac,
                self.salt@,
                self.ikm@,
                self.info@,
                self.length as nat,
            ),
            r is Ok ==> r->Ok_0 == true,
    {
        let own_dk = match self.derive_key() {
            Ok(dk) => dk,
            Err(_) => {
                return Err(ValidationCryptoError);
            },
        };
        if util::compare_ct(own_dk.as_slice(), expected_dk).is_err() {
            Err(ValidationCryptoError)
        } else {
            Ok(true)
        }
    }

    /// Overwrite this record's salt, keying-material and info buffers with
    /// zero bytes; their lengths are kept, so the wiped state is observable.
    pub fn wipe(&mut self)
        ensures
            final(self).salt@ == zero_bytes(old(self).salt@.len()),
            final(self).ikm@ == zero_bytes(old(self).ikm@.len()),
            final(self).info@ == zero_bytes(old(self).info@.len()),
            final(self).length == old(self).length,
            final(self).hmac == old(self).hmac,
    {
        util::clear_bytes(&mut self.salt);
        util::clear_bytes(&mut self.ikm);
        util::clear_bytes(&mut self.info);
    }
}

} // verus!
