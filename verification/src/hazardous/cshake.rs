use vstd::prelude::*;

use crate::errors::{UnknownCryptoError, ValidationCryptoError};
use crate::options::KeccakVariantOption;
use crate::util;
use crate::util::zero_bytes;

verus! {

/// Powers of 256, used to bound the number of base-256 digits of a `u64`.
pub open spec fn pow256(n: nat) -> nat
    decreases n,
{
    if n == 0 {
        1
    } else {
        256 * pow256((n - 1) as nat)
    }
}

proof fn lemma_pow256_pos(n: nat)
    ensures
        pow256(n) >= 1,
    decreases n,
{
    if n > 0 {
        lemma_pow256_pos((n - 1) as nat);
    }
}

proof fn lemma_pow256_monotonic(m: nat, n: nat)
    requires
        m <= n,
    ensures
        pow256(m) <= pow256(n),
    decreases n,
{
    if m < n {
        lemma_pow256_monotonic(m, (n - 1) as nat);
        lemma_pow256_pos((n - 1) as nat);
    }
}

/// The minimal big-endian byte representation of `x`; zero has no bytes.
pub open spec fn be_bytes(x: nat) -> Seq<u8>
    decreases x,
{
    if x == 0 {
        Seq::empty()
    } else {
        be_bytes(x / 256) + seq![(x % 256) as u8]
    }
}

/// The left_encode function of NIST SP 800-185: a count byte followed by the
/// minimal big-endian representation, where zero encodes as the single byte
/// 0x00.
pub open spec fn spec_left_encode(x: nat) -> Seq<u8> {
    if x == 0 {
        seq![1u8, 0u8]
    } else {
        seq![be_bytes(x).len() as u8] + be_bytes(x)
    }
}

/// Emit the left_encode encoding of `x`: the minimal big-endian byte
/// representation preceded by a byte holding its length.
pub fn left_encode(x: u64) -> (r: Vec<u8>)
    ensures
        r@ == spec_left_encode(x as nat),
{
    let mut out: Vec<u8> = Vec::new();
    if x == 0 {
        out.push(1u8);
        out.push(0u8);
        assert(out@ =~= spec_left_encode(0));
        return out;
    }

    // Collect the base-256 digits of x, least significant first.
    let mut rev: Vec<u8> = Vec::new();
    let mut y: u64 = x;
    proof {
        assert(pow256(0) == 1);
        assert(y * pow256(0) == y) by (nonlinear_arith)
            requires
                pow256(0) == 1,
        ;
    }
    while y > 0
        invariant
            rev@.len() <= 8,
            y * pow256(rev@.len()) <= 0xffff_ffff_ffff_ffff,
            be_bytes(x as nat) == be_bytes(y as nat) + Seq::new(
                rev@.len(),
                |i: int| rev@[rev@.len() - 1 - i],
            ),
        decreases y,
    {
        let ghost prev_rev = rev@;
        let ghost prev_y = y as nat;
        proof {
            // y >= 1, so pow256(rev.len()) is bounded and the digit count
            // stays below 8.
            if prev_rev.len() >= 8 {
                lemma_pow256_monotonic(8, prev_rev.len());
                reveal_with_fuel(pow256, 9);
                assert(pow256(8) == 0x1_0000_0000_0000_0000);
                assert(y * pow256(prev_rev.len()) >= pow256(prev_rev.len())) by (nonlinear_arith)
                    requires
                        y >= 1,
                ;
                assert(false);
            }
        }
        let d: u8 = (y % 256) as u8;
        rev.push(d);
        y = y / 256;
        proof {
            assert(y as nat == prev_y / 256);
            assert(y * (256 * pow256(prev_rev.len())) <= prev_y * pow256(prev_rev.len()))
                by (nonlinear_arith)
                requires
                    y as nat == prev_y / 256,
            ;
            assert(Seq::new(rev@.len(), |i: int| rev@[rev@.len() - 1 - i]) =~= seq![d]
                + Seq::new(prev_rev.len(), |i: int| prev_rev[prev_rev.len() - 1 - i]));
            assert(be_bytes(prev_y) == be_bytes(prev_y / 256) + seq![(prev_y % 256) as u8]);
        }
    }
    assert(be_bytes(x as nat) =~= Seq::new(rev@.len(), |i: int| rev@[rev@.len() - 1 - i]));
    assert(be_bytes(x as nat).len() == rev@.len());

    out.push(rev.len() as u8);
    let ghost count = rev@.len();
    let mut i: usize = rev.len();
    while i > 0
        invariant
            i <= rev@.len(),
            rev@.len() == count,
            count <= 8,
            out@ == seq![count as u8] + Seq::new(
                (count - i) as nat,
                |k: int| rev@[count - 1 - k],
            ),
        decreases i,
    {
        i = i - 1;
        out.push(rev[i]);
        assert(out@ =~= seq![count as u8] + Seq::new(
            (count - i) as nat,
            |k: int| rev@[count - 1 - k],
        ));
    }
    assert(out@ =~= spec_left_encode(x as nat));
    out
}

/// The rate in bytes of a sponge, named; a property the sponge was created
/// with.
pub uninterp spec fn sponge_rate(k: tiny_keccak::Keccak) -> nat;

/// The stream of bytes a sponge has absorbed so far, named.
pub uninterp spec fn sponge_absorbed(k: tiny_keccak::Keccak) -> Seq<u8>;

/// The extendable output of the cSHAKE-padded Keccak sponge, named: `outlen`
/// bytes squeezed from a sponge of the given rate after it absorbed the given
/// stream; a function of those three alone.
pub uninterp spec fn keccak_xof(rate: nat, absorbed: Seq<u8>, outlen: nat) -> Seq<u8>;

#[verifier::external_type_specification]
#[verifier::external_body]
pub struct ExKeccak(tiny_keccak::Keccak);

/// Relies on tiny_keccak::Keccak::new: a fresh sponge of the given byte rate,
/// created with the cSHAKE domain-separation byte, with nothing absorbed yet.
#[verifier::external_body]
fn keccak_init(rate: usize) -> (k: tiny_keccak::Keccak)
    requires
        1 <= rate <= 200,
    ensures
        sponge_rate(k) == rate,
        sponge_absorbed(k) == Seq::<u8>::empty(),
{
    tiny_keccak::Keccak::new(rate, 0x04)
}

/// Relies on tiny_keccak::Keccak::update: absorbs `input`, appending it to
/// the sponge's absorbed stream and leaving the rate unchanged.
#[verifier::external_body]
fn keccak_update(k: &mut tiny_keccak::Keccak, input: &[u8])
    requires
        1 <= sponge_rate(*old(k)) <= 200,
    ensures
        sponge_rate(*final(k)) == sponge_rate(*old(k)),
        sponge_absorbed(*final(k)) == sponge_absorbed(*old(k)) + input@,
{
    k.update(input)
}

/// The number of zero bytes that a block-boundary pad absorbs: enough to
/// reach the next multiple of the rate, and a full block when the stream is
/// already aligned.
pub open spec fn fill_pad_len(rate: nat, len: nat) -> nat {
    if len % rate == 0 {
        rate
    } else {
        (rate - len % rate) as nat
    }
}

/// Relies on tiny_keccak::Keccak::fill_block: permutes at the block boundary,
/// which equals absorbing zero bytes up to the next multiple of the rate (a
/// full block of zeros when the stream is already aligned).
#[verifier::external_body]
fn keccak_fill_block(k: &mut tiny_keccak::Keccak)
    requires
        1 <= sponge_rate(*old(k)) <= 200,
    ensures
        sponge_rate(*final(k)) == sponge_rate(*old(k)),
        sponge_absorbed(*final(k)) == sponge_absorbed(*old(k)) + zero_bytes(
            fill_pad_len(sponge_rate(*old(k)), sponge_absorbed(*old(k)).len()),
        ),
{
    k.fill_block()
}

/// Relies on tiny_keccak::Keccak::finalize: applies the sponge's own padding
/// and permutation, then squeezes exactly `outlen` bytes, a function of the
/// rate, the absorbed stream and the output length alone.
#[verifier::external_body]
fn keccak_finalize(k: tiny_keccak::Keccak, outlen: usize) -> (r: Vec<u8>)
    requires
        1 <= sponge_rate(k) <= 200,
    ensures
        r@ == keccak_xof(sponge_rate(k), sponge_absorbed(k), outlen as nat),
        r@.len() == outlen,
{
    let mut out = vec![0u8; outlen];
    k.finalize(&mut out);
    out
}

/// The prefix a cSHAKE computation absorbs before its main input:
/// `left_encode(rate)`, then each of the name and customization strings
/// preceded by the left_encode of its length in bits.
pub open spec fn spec_cshake_prefix(
    v: KeccakVariantOption,
    name: Seq<u8>,
    custom: Seq<u8>,
) -> Seq<u8> {
    spec_left_encode(v.spec_rate()) + spec_left_encode(8 * name.len()) + name + spec_left_encode(
        8 * custom.len(),
    ) + custom
}

/// The cSHAKE digest: the sponge output over the prefix, zero-padded to a
/// block boundary, followed by the main input.
pub open spec fn spec_cshake(
    v: KeccakVariantOption,
    input: Seq<u8>,
    name: Seq<u8>,
    custom: Seq<u8>,
    length: nat,
) -> Seq<u8> {
    let prefix = spec_cshake_prefix(v, name, custom);
    keccak_xof(
        v.spec_rate(),
        prefix + zero_bytes(fill_pad_len(v.spec_rate(), prefix.len())) + input,
        length,
    )
}

/// Law: cSHAKE is deterministic — two computations over the same input,
/// name, customization string, length and variant yield byte-identical
/// output.
pub proof fn lemma_cshake_deterministic(
    v: KeccakVariantOption,
    input: Seq<u8>,
    name: Seq<u8>,
    custom: Seq<u8>,
    length: nat,
    r1: Seq<u8>,
    r2: Seq<u8>,
)
    requires
        r1 == spec_cshake(v, input, name, custom, length),
        r2 == spec_cshake(v, input, name, custom, length),
    ensures
        r1 == r2,
{
}

/// Law: verification is consistent — a candidate that differs from the
/// computed digest in any byte is not that digest, so `CShake::verify`
/// rejects it.
pub proof fn lemma_cshake_verify_rejects_mismatch(
    v: KeccakVariantOption,
    input: Seq<u8>,
    name: Seq<u8>,
    custom: Seq<u8>,
    length: nat,
    candidate: Seq<u8>,
    i: int,
)
    requires
        0 <= i < candidate.len(),
        i < spec_cshake(v, input, name, custom, length).len(),
        candidate[i] != spec_cshake(v, input, name, custom, length)[i],
    ensures
        candidate != spec_cshake(v, input, name, custom, length),
{
}

/// cSHAKE parameters (NIST SP 800-185): a main input, a function-name string
/// and a customization string that must not both be empty, an output length
/// in `1 ..= 65536` bytes, and the sponge variant.
pub struct CShake {
    pub input: Vec<u8>,
    pub name: Vec<u8>,
    pub custom: Vec<u8>,
    pub length: usize,
    pub keccak: KeccakVariantOption,
}

impl CShake {
    /// The name and customization strings are not both empty (that would
    /// degenerate to a plain SHAKE call), each is at most 65536 bytes, and
    /// the output length lies in `1 ..= 65536`.
    pub open spec fn params_ok(self) -> bool {
        &&& !(self.name@.len() == 0 && self.custom@.len() == 0)
        &&& 1 <= self.length <= 65536
        &&& self.name@.len() <= 65536
        &&& self.custom@.len() <= 65536
    }

    /// Return the rate in bytes of the respective Keccak sponge function.
    pub fn rate(&self) -> (r: u64)
        ensures
            r == self.keccak.spec_rate(),
    {
        match self.keccak {
            KeccakVariantOption::KECCAK256 => 168u64,
            KeccakVariantOption::KECCAK512 => 136u64,
        }
    }

    /// Return the cSHAKE digest of this record's input: the encoded rate,
    /// name and customization strings are absorbed, padded to a block
    /// boundary, the input absorbed, and exactly `length` bytes squeezed.
    /// Succeeds exactly when the parameter rules hold.
    pub fn finalize(&self) -> (r: Result<Vec<u8>, UnknownCryptoError>)
        ensures
            r is Ok <==> self.params_ok(),
            r is Ok ==> r->Ok_0@ == spec_cshake(
                self.keccak,
                self.input@,
                self.name@,
                self.custom@,
                self.length as nat,
            ),
            r is Ok ==> r->Ok_0@.len() == self.length,
    {
        if self.name.len() == 0 && self.custom.len() == 0 {
            return Err(UnknownCryptoError);
        }
        if self.length == 0 || self.length > 65536 {
            return Err(UnknownCryptoError);
        }
        if self.name.len() > 65536 || self.custom.len() > 65536 {
            return Err(UnknownCryptoError);
        }

        let rate: u64 = self.rate();
        let mut sponge = keccak_init(rate as usize);

        // Only the left-encoded rate is absorbed, not the rate itself; the
        // two update pairs below are encode_string() of the standard.
        let le_rate = left_encode(rate);
        keccak_update(&mut sponge, le_rate.as_slice());

        let le_name = left_encode((self.name.len() as u64) * 8);
        keccak_update(&mut sponge, le_name.as_slice());
        keccak_update(&mut sponge, self.name.as_slice());

        let le_custom = left_encode((self.custom.len() as u64) * 8);
        keccak_update(&mut sponge, le_custom.as_slice());
        keccak_update(&mut sponge, self.custom.as_slice());

        assert(sponge_absorbed(sponge) =~= spec_cshake_prefix(
            self.keccak,
            self.name@,
            self.custom@,
        ));

        // Zero-pad the absorbed prefix to a full rate-sized block, distinct
        // from the sponge's own domain-separation padding.
        keccak_fill_block(&mut sponge);
        keccak_update(&mut sponge, self.input.as_slice());

        let ghost prefix = spec_cshake_prefix(self.keccak, self.name@, self.custom@);
        assert(sponge_absorbed(sponge) =~= prefix + zero_bytes(
            fill_pad_len(self.keccak.spec_rate(), prefix.len()),
        ) + self.input@);

        Ok(keccak_finalize(sponge, self.length))
    }

    /// Verify a cSHAKE digest against the one this record's fields produce,
    /// comparing in constant time. Equality is the only success; any
    /// mismatch, of length or of content, is a validation error.
    pub fn verify(&self, expected: &[u8]) -> (r: Result<bool, ValidationCryptoError>)
        requires
            self.params_ok(),
        ensures
            r is Ok <==> expected@ == spec_cshake(
                self.keccak,
                self.input@,
                self.name@,
                self.custom@,
                self.length as nat,
            ),
            r is Ok ==> r->Ok_0 == true,
    {
        let own_hash = match self.finalize() {
            Ok(h) => h,
            Err(_) => {
                return Err(ValidationCryptoError);
            },
        };
        if util::compare_ct(own_hash.as_slice(), expected).is_err() {
            Err(ValidationCryptoError)
        } else {
            Ok(true)
        }
    }

    /// Overwrite this record's input and customization buffers with zero
    /// bytes; their lengths are kept, so the wiped state is observable.
    pub fn wipe(&mut self)
        ensures
            final(self).input@ == zero_bytes(old(self).input@.len()),
            final(self).custom@ == zero_bytes(old(self).custom@.len()),
            final(self).name@ == old(self).name@,
            final(self).length == old(self).length,
            final(self).keccak == old(self).keccak,
    {
        util::clear_bytes(&mut self.input);
        util::clear_bytes(&mut self.custom);
    }
}

} // verus!
