//! An accelerated X3DH-style asynchronous key agreement ("pqMuDH"), optionally
//! hybridized with a post-quantum KEM shared secret supplied by the caller.
//!
//! The core folds several elliptic-curve Diffie-Hellman agreements into a single
//! simultaneous double-and-add pass: transcript hashing derives domain-separated
//! randomizers, big-integer arithmetic combines them with the private scalars
//! modulo the curve's group order, and the combined point plus optional KEM
//! secret are expanded into a 64-byte key through HKDF-SHA-256.

pub mod bytes;
pub mod curve;
pub mod hashing;
pub mod key_derivation;
pub mod params;
pub mod pqmudh;
pub mod pqxdh;
pub mod scalars;
pub mod stats;
