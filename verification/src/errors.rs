use vstd::prelude::*;

verus! {

/// Error for malformed or out-of-range parameters: zero or over-large lengths,
/// empty mandatory fields, or a random generator that could not be read.
/// It is raised before any secret-dependent computation begins.
#[derive(Clone, Copy, Debug, PartialEq, Eq, Structural)]
pub struct UnknownCryptoError;

/// Error raised exclusively by the `verify` operations when a recomputed value
/// fails the constant-time comparison against a caller-supplied candidate.
/// Its shape does not distinguish a wrong length from wrong content.
#[derive(Clone, Copy, Debug, PartialEq, Eq, Structural)]
pub struct ValidationCryptoError;

} // verus!
