//! An oblivious pseudo-random function (OPRF) built from multiplicative
//! blinding over the ristretto255 prime-order group.
//!
//! The client blinds its input, the server evaluates the blinded element
//! under its secret key, and the client unblinds the result and hashes it
//! down to a fixed 32-byte output.  Group elements and scalars cross every
//! boundary as fixed-length canonical byte strings.

pub mod errors;
pub mod group;
pub mod hash;
pub mod oprf;
