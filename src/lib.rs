//! A BBS+-style multi-message signature scheme over the BLS12-381 pairing
//! curve: key generation, signing of an ordered vector of scalar attributes,
//! and verification of such a signature against a public key.
//!
//! Scalars travel as their canonical 32-byte little-endian encoding and group
//! points as their compressed encoding; the arithmetic itself is done by the
//! `bls12_381` crate.

pub mod scalar;
pub mod group;
pub mod bbsp;
