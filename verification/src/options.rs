use vstd::prelude::*;

verus! {

/// Selector for the SHA-2 hash function that HMAC, HKDF and PBKDF2 run on.
/// Each variant carries its derived constants: the digest size `hLen` and the
/// internal block size of the compression function.
#[derive(Clone, Copy, Debug, PartialEq, Eq, Structural)]
pub enum ShaVariantOption {
    SHA256,
    SHA384,
    SHA512,
}

impl ShaVariantOption {
    /// Digest size `hLen` in bytes.
    pub open spec fn spec_output_size(self) -> nat {
        match self {
            ShaVariantOption::SHA256 => 32,
            ShaVariantOption::SHA384 => 48,
            ShaVariantOption::SHA512 => 64,
        }
    }

    /// Internal block size of the compression function, in bytes; HMAC pads
    /// or hashes the key down to exactly this length.
    pub open spec fn spec_block_size(self) -> nat {
        match self {
            ShaVariantOption::SHA256 => 64,
            ShaVariantOption::SHA384 => 128,
            ShaVariantOption::SHA512 => 128,
        }
    }

    /// Return the digest size in bytes of the chosen hash function.
    pub fn output_size(&self) -> (r: usize)
        ensures
            r == self.spec_output_size(),
    {
        match self {
            ShaVariantOption::SHA256 => 32,
            ShaVariantOption::SHA384 => 48,
            ShaVariantOption::SHA512 => 64,
        }
    }

    /// Return the internal block size in bytes of the chosen hash function.
    pub fn block_size(&self) -> (r: usize)
        ensures
            r == self.spec_block_size(),
    {
        match self {
            ShaVariantOption::SHA256 => 64,
            ShaVariantOption::SHA384 => 128,
            ShaVariantOption::SHA512 => 128,
        }
    }
}

/// Selector for the Keccak sponge that cSHAKE drives: the 168-byte rate gives
/// 128-bit security, the 136-byte rate 256-bit security.
#[derive(Clone, Copy, Debug, PartialEq, Eq, Structural)]
pub enum KeccakVariantOption {
    KECCAK256,
    KECCAK512,
}

impl KeccakVariantOption {
    /// Rate of the sponge in bytes.
    pub open spec fn spec_rate(self) -> nat {
        match self {
            KeccakVariantOption::KECCAK256 => 168,
            KeccakVariantOption::KECCAK512 => 136,
        }
    }
}

} // verus!
