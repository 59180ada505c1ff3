use vstd::prelude::*;

use crate::errors::{UnknownCryptoError, ValidationCryptoError};
use crate::hazardous::hmac::{spec_hmac, Hmac};
use crate::options::ShaVariantOption;
use crate::util;
use crate::util::zero_bytes;

verus! {

/// The four-byte big-endian encoding of a block index.
pub open spec fn spec_be32(x: nat) -> Seq<u8> {
    seq![
        (x / 0x1000000 % 256) as u8,
        (x / 0x10000 % 256) as u8,
        (x / 0x100 % 256) as u8,
        (x % 256) as u8,
    ]
}

/// Iterate `U` of PBKDF2 for block `i`: `U_1 = HMAC(password, salt ++ BE32(i))`
/// and `U_j = HMAC(password, U_(j-1))` for `j >= 2`.
pub open spec fn spec_u(
    v: ShaVariantOption,
    password: Seq<u8>,
    salt: Seq<u8>,
    i: nat,
    j: nat,
) -> Seq<u8>
    decreases j,
{
    if j <= 1 {
        spec_hmac(v, password, salt + spec_be32(i))
    } else {
        spec_hmac(v, password, spec_u(v, password, salt, i, (j - 1) as nat))
    }
}

/// Bytewise XOR of two sequences of equal length.
pub open spec fn xor_seq(a: Seq<u8>, b: Seq<u8>) -> Seq<u8> {
    Seq::new(a.len(), |k: int| a[k] ^ b[k])
}

/// The XOR accumulation `U_1 XOR ... XOR U_j` for block `i`.
pub open spec fn spec_t(
    v: ShaVariantOption,
    password: Seq<u8>,
    salt: Seq<u8>,
    i: nat,
    j: nat,
) -> Seq<u8>
    decreases j,
{
    if j <= 1 {
        spec_u(v, password, salt, i, 1)
    } else {
        xor_seq(spec_t(v, password, salt, i, (j - 1) as nat), spec_u(v, password, salt, i, j))
    }
}

/// The concatenation of blocks `T_1 ... T_n`, each the XOR of `iterations`
/// HMAC iterates.
pub open spec fn spec_dk_raw(
    v: ShaVariantOption,
    password: Seq<u8>,
    salt: Seq<u8>,
    iterations: nat,
    n: nat,
) -> Seq<u8>
    decreases n,
{
    if n == 0 {
        Seq::empty()
    } else {
        spec_dk_raw(v, password, salt, iterations, (n - 1) as nat) + spec_t(
            v,
            password,
            salt,
            n,
            iterations,
        )
    }
}

/// The PBKDF2 derived key: `ceil(dklen / hLen)` blocks, truncated to exactly
/// `dklen` bytes.
pub open spec fn spec_pbkdf2(
    v: ShaVariantOption,
    password: Seq<u8>,
    salt: Seq<u8>,
    iterations: nat,
    dklen: nat,
) -> Seq<u8> {
    let n = if dklen == 0 {
        0
    } else {
        ((dklen - 1) / v.spec_output_size() as int + 1) as nat
    };
    spec_dk_raw(v, password, salt, iterations, n).take(dklen as int)
}

/// Law: PBKDF2 derivation is deterministic — two derivations from the same
/// password, salt, iteration count, length and variant yield byte-identical
/// output.
pub proof fn lemma_pbkdf2_deterministic(
    v: ShaVariantOption,
    password: Seq<u8>,
    salt: Seq<u8>,
    iterations: nat,
    dklen: nat,
    r1: Seq<u8>,
    r2: Seq<u8>,
)
    requires
        r1 == spec_pbkdf2(v, password, salt, iterations, dklen),
        r2 == spec_pbkdf2(v, password, salt, iterations, dklen),
    ensures
        r1 == r2,
{
}

/// Law: verification is consistent — a candidate that differs from the
/// derived key in any byte is not that key, so `Pbkdf2::verify` rejects it.
pub proof fn lemma_pbkdf2_verify_rejects_mismatch(
    v: ShaVariantOption,
    password: Seq<u8>,
    salt: Seq<u8>,
    iterations: nat,
    dklen: nat,
    candidate: Seq<u8>,
    i: int,
)
    requires
        0 <= i < candidate.len(),
        i < spec_pbkdf2(v, password, salt, iterations, dklen).len(),
        candidate[i] != spec_pbkdf2(v, password, salt, iterations, dklen)[i],
    ensures
        candidate != spec_pbkdf2(v, password, salt, iterations, dklen),
{
}

/// PBKDF2 parameters (RFC 8018): a password and salt of any length, an
/// iteration count and desired key length that must both be at least 1, and
/// the hash variant to run the iterated HMAC on.
pub struct Pbkdf2 {
    pub password: Vec<u8>,
    pub salt: Vec<u8>,
    pub iterations: usize,
    pub dklen: usize,
    pub hmac: ShaVariantOption,
}

impl Pbkdf2 {
    /// The iteration count and requested key length are both at least 1.
    pub open spec fn params_ok(self) -> bool {
        self.iterations >= 1 && self.dklen >= 1
    }

    /// The requested key length keeps the block counter within its four-byte
    /// big-endian encoding, as the construction's single-block counter
    /// requires.
    pub open spec fn dklen_representable(self) -> bool {
        self.dklen <= 0xffff_ffff * self.hmac.spec_output_size()
    }

    /// One application of the pseudorandom function:
    /// `HMAC(key = password, message = data)`.
    fn prf(&self, data: &[u8]) -> (r: Vec<u8>)
        ensures
            r@ == spec_hmac(self.hmac, self.password@, data@),
            r@.len() == self.hmac.spec_output_size(),
    {
        let mac = Hmac {
            secret_key: util::copy_bytes(self.password.as_slice()),
            data: util::copy_bytes(data),
            sha2: self.hmac,
        };
        mac.finalize()
    }

    /// Compute block `T_i`: the XOR of `iterations` successive HMAC iterates,
    /// seeded from the salt and the big-endian block index.
    fn derive_block(&self, i: usize) -> (r: Vec<u8>)
        requires
            self.iterations >= 1,
            i <= 0xffff_ffff,
        ensures
            r@ == spec_t(
                self.hmac,
                self.password@,
                self.salt@,
                i as nat,
                self.iterations as nat,
            ),
            r@.len() == self.hmac.spec_output_size(),
    {
        let hlen = self.hmac.output_size();
        let x: u32 = i as u32;
        let mut msg = util::copy_bytes(self.salt.as_slice());
        msg.push((x / 0x1000000 % 256) as u8);
        msg.push((x / 0x10000 % 256) as u8);
        msg.push((x / 0x100 % 256) as u8);
        msg.push((x % 256) as u8);
        assert(msg@ =~= self.salt@ + spec_be32(i as nat));

        let mut u = self.prf(msg.as_slice());
        let mut t = util::copy_bytes(u.as_slice());
        let mut j: usize = 1;
        while j < self.iterations
            invariant
                1 <= j <= self.iterations,
                hlen == self.hmac.spec_output_size(),
                u@ == spec_u(self.hmac, self.password@, self.salt@, i as nat, j as nat),
                t@ == spec_t(self.hmac, self.password@, self.salt@, i as nat, j as nat),
                u@.len() == hlen,
                t@.len() == hlen,
            decreases self.iterations - j,
        {
            u = self.prf(u.as_slice());
            let ghost t_prev = t@;
            let mut k: usize = 0;
            while k < hlen
                invariant
                    k <= hlen,
                    u@.len() == hlen,
                    t@.len() == hlen,
                    t_prev.len() == hlen,
                    forall|m: int| 0 <= m < k ==> t@[m] == (t_prev[m] ^ u@[m]),
                    forall|m: int| k <= m < hlen ==> t@[m] == t_prev[m],
                decreases hlen - k,
            {
                let b = t[k] ^ u[k];
                t.set(k, b);
                k = k + 1;
            }
            assert(t@ =~= xor_seq(t_prev, u@));
            j = j + 1;
        }
        t
    }

    /// Derive a key of exactly `dklen` bytes from the password and salt by
    /// iterated, XOR-accumulated HMAC. Succeeds exactly when the iteration
    /// count and the key length are both at least 1.
    pub fn derive_key(&self) -> (r: Result<Vec<u8>, UnknownCryptoError>)
        requires
            self.dklen_representable(),
        ensures
            r is Ok <==> self.params_ok(),
            r is Ok ==> r->Ok_0@ == spec_pbkdf2(
                self.hmac,
                self.password@,
                self.salt@,
                self.iterations as nat,
                self.dklen as nat,
            ),
            r is Ok ==> r->Ok_0@.len() == self.dklen,
    {
        if self.iterations < 1 {
            return Err(UnknownCryptoError);
        }
        if self.dklen < 1 {
            return Err(UnknownCryptoError);
        }

        let hlen = self.hmac.output_size();
        let n_blocks: usize = 1 + ((self.dklen - 1) / hlen);
        assert((self.dklen - 1) / hlen as int <= 0xffff_fffe) by (nonlinear_arith)
            requires
                32 <= hlen,
                1 <= self.dklen <= 0xffff_ffff * hlen,
        ;

        let mut dk: Vec<u8> = Vec::new();
        let mut done: usize = 0;
        while done < n_blocks
            invariant
                done <= n_blocks,
                n_blocks <= 0xffff_ffff,
                hlen == self.hmac.spec_output_size(),
                self.iterations >= 1,
                dk@ == spec_dk_raw(
                    self.hmac,
                    self.password@,
                    self.salt@,
                    self.iterations as nat,
                    done as nat,
                ),
                dk@.len() == done * hlen,
            decreases n_blocks - done,
        {
            let i = done + 1;
            let t = self.derive_block(i);
            util::extend_bytes(&mut dk, t.as_slice());
            assert(done * hlen + hlen == i * hlen) by (nonlinear_arith)
                requires
                    i == done + 1,
            ;
            done = i;
        }
        assert(dk@.len() >= self.dklen) by (nonlinear_arith)
            requires
                dk@.len() == n_blocks * hlen,
                n_blocks == 1 + ((self.dklen - 1) / hlen as int),
                32 <= hlen,
                1 <= self.dklen,
        ;

        dk.truncate(self.dklen);
        Ok(dk)
    }

    /// Verify a derived key against the one this record's fields produce,
    /// comparing in constant time. Equality is the only success; any
    /// mismatch, of length or of content, is a validation error.
    pub fn verify(&self, expected_dk: &[u8]) -> (r: Result<bool, ValidationCryptoError>)
        requires
            self.params_ok(),
            self.dklen_representable(),
        ensures
            r is Ok <==> expected_dk@ == spec_pbkdf2(
                self.hmac,
                self.password@,
                self.salt@,
                self.iterations as nat,
                self.dklen as nat,
            ),
            r is Ok ==> r->Ok_0 == true,
    {
        let own_dk = match self.derive_key() {
            Ok(dk) => dk,
            Err(_) => {
                return Err(ValidationCryptoError);
            },
        };
        if util::compare_ct(own_dk.as_slice(), expected_dk).is_err() {
            Err(ValidationCryptoError)
        } else {
            Ok(true)
        }
    }

    /// Overwrite this record's password and salt buffers with zero bytes;
    /// their lengths are kept, so the wiped state is observable.
    pub fn wipe(&mut self)
        ensures
            final(self).password@ == zero_bytes(old(self).password@.len()),
            final(self).salt@ == zero_bytes(old(self).salt@.len()),
            final(self).iterations == old(self).iterations,
            final(self).dklen == old(self).dklen,
            final(self).hmac == old(self).hmac,
    {
        util::clear_bytes(&mut self.password);
        util::clear_bytes(&mut self.salt);
    }
}

} // verus!
