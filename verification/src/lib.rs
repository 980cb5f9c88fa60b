//! Split evaluation of the TLS pseudo-random function over SHA-256 hash-chain
//! midstates.
//!
//! The slave role of a two-party PRF computation holds the outer HMAC hash
//! state `H(pms xor opad)` and finishes hash chains over inner digests sent by
//! the master, without ever holding the combined secret.

pub mod hmac;
pub mod master;
pub mod sha;
pub mod slave;
