//! The "hazardous" primitive layer: the HMAC, HKDF, PBKDF2 and cSHAKE
//! constructions. Each reproduces a precise byte-level specification; callers
//! are expected to understand the security properties of what they invoke.

pub mod cshake;
pub mod hkdf;
pub mod hmac;
pub mod pbkdf2;
