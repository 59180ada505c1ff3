//! Low-level keyed-hashing and key-derivation primitives: HMAC, HKDF, PBKDF2
//! and cSHAKE, together with the utilities they share (CSPRNG-backed key
//! generation, constant-time comparison) and a small error taxonomy.
//!
//! Every construction is a pure, one-shot transform over caller-supplied byte
//! buffers, and each is specified against a mathematical model of its exact
//! byte-level output.

pub mod errors;
pub mod hazardous;
pub mod options;
pub mod util;
