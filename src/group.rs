//! Points of the BLS12-381 groups G1 and G2, held in compressed form.

use bls12_381::{pairing, G1Affine, G1Projective, G2Affine, G2Projective, Scalar};
use crate::scalar::{is_scalar, scalar_value};
use vstd::prelude::*;

verus! {

/// The compressed encoding of the fixed generator of G1.
pub open spec fn g1_generator_bytes() -> Seq<u8> {
    seq![
        0x97, 0xf1, 0xd3, 0xa7, 0x31, 0x97, 0xd7, 0x94, 0x26, 0x95, 0x63, 0x8c,
        0x4f, 0xa9, 0xac, 0x0f, 0xc3, 0x68, 0x8c, 0x4f, 0x97, 0x74, 0xb9, 0x05,
        0xa1, 0x4e, 0x3a, 0x3f, 0x17, 0x1b, 0xac, 0x58, 0x6c, 0x55, 0xe8, 0x3f,
        0xf9, 0x7a, 0x1a, 0xef, 0xfb, 0x3a, 0xf0, 0x0a, 0xdb, 0x22, 0xc6, 0xbb,
    ]
}

/// The compressed encoding of the fixed generator of G2.
pub open spec fn g2_generator_bytes() -> Seq<u8> {
    seq![
        0x93, 0xe0, 0x2b, 0x60, 0x52, 0x71, 0x9f, 0x60, 0x7d, 0xac, 0xd3, 0xa0,
        0x88, 0x27, 0x4f, 0x65, 0x59, 0x6b, 0xd0, 0xd0, 0x99, 0x20, 0xb6, 0x1a,
        0xb5, 0xda, 0x61, 0xbb, 0xdc, 0x7f, 0x50, 0x49, 0x33, 0x4c, 0xf1, 0x12,
        0x13, 0x94, 0x5d, 0x57, 0xe5, 0xac, 0x7d, 0x05, 0x5d, 0x04, 0x2b, 0x7e,
        0x02, 0x4a, 0xa2, 0xb2, 0xf0, 0x8f, 0x0a, 0x91, 0x26, 0x08, 0x05, 0x27,
        0x2d, 0xc5, 0x10, 0x51, 0xc6, 0xe4, 0x7a, 0xd4, 0xfa, 0x40, 0x3b, 0x02,
        0xb4, 0x51, 0x0b, 0x64, 0x7a, 0xe3, 0xd1, 0x77, 0x0b, 0xac, 0x03, 0x26,
        0xa8, 0x05, 0xbb, 0xef, 0xd4, 0x80, 0x56, 0xc8, 0xc1, 0x21, 0xbd, 0xb8,
    ]
}

/// Whether 48 bytes are the compressed encoding of a point of G1.
pub uninterp spec fn g1_valid(b: Seq<u8>) -> bool;

/// Whether 96 bytes are the compressed encoding of a point of G2.
pub uninterp spec fn g2_valid(b: Seq<u8>) -> bool;

/// The encoding of the sum of two points of G1.
pub uninterp spec fn g1_sum(a: Seq<u8>, b: Seq<u8>) -> Seq<u8>;

/// The encoding of a point of G1 multiplied by a scalar.
pub uninterp spec fn g1_scaled(p: Seq<u8>, k: nat) -> Seq<u8>;

/// The encoding of the sum of two points of G2.
pub uninterp spec fn g2_sum(a: Seq<u8>, b: Seq<u8>) -> Seq<u8>;

/// The encoding of a point of G2 multiplied by a scalar.
pub uninterp spec fn g2_scaled(q: Seq<u8>, k: nat) -> Seq<u8>;

/// Whether the pairings `e(a, y)` and `e(b, z)` are equal in the target group.
pub uninterp spec fn pairings_match(a: Seq<u8>, y: Seq<u8>, b: Seq<u8>, z: Seq<u8>) -> bool;

/// Relies on `G1Affine::generator` and `to_compressed`: the fixed generator
/// of G1, whose compressed form is the constant above.
#[verifier::external_body]
pub(crate) fn g1_generator() -> (r: [u8; 48])
    ensures
        r@ == g1_generator_bytes(),
        g1_valid(r@),
{
    G1Affine::generator().to_compressed()
}

/// Relies on `G2Affine::generator` and `to_compressed`: the fixed generator
/// of G2, whose compressed form is the constant above.
#[verifier::external_body]
pub(crate) fn g2_generator() -> (r: [u8; 96])
    ensures
        r@ == g2_generator_bytes(),
        g2_valid(r@),
{
    G2Affine::generator().to_compressed()
}

/// Relies on `G1Affine::from_compressed`: whether the bytes decode to a
/// point of the prime-order subgroup.
#[verifier::external_body]
pub(crate) fn g1_decodes(b: &[u8; 48]) -> (r: bool)
    ensures
        r == g1_valid(b@),
{
    bool::from(G1Affine::from_compressed(b).is_some())
}

/// Relies on the addition of `G1Projective`; what `to_compressed` gives
/// decodes again.
#[verifier::external_body]
pub(crate) fn g1_add(a: &[u8; 48], b: &[u8; 48]) -> (r: [u8; 48])
    requires
        g1_valid(a@),
        g1_valid(b@),
    ensures
        r@ == g1_sum(a@, b@),
        g1_valid(r@),
{
    let a = G1Projective::from(G1Affine::from_compressed(a).unwrap());
    let b = G1Affine::from_compressed(b).unwrap();
    G1Affine::from(a + b).to_compressed()
}

/// Relies on the scalar multiplication of `G1Projective`; what
/// `to_compressed` gives decodes again.
#[verifier::external_body]
pub(crate) fn g1_mul(p: &[u8; 48], k: &[u8; 32]) -> (r: [u8; 48])
    requires
        g1_valid(p@),
        is_scalar(*k),
    ensures
        r@ == g1_scaled(p@, scalar_value(*k)),
        g1_valid(r@),
{
    let p = G1Projective::from(G1Affine::from_compressed(p).unwrap());
    G1Affine::from(p * Scalar::from_bytes(k).unwrap()).to_compressed()
}

/// Relies on the addition of `G2Projective`; what `to_compressed` gives
/// decodes again.
#[verifier::external_body]
pub(crate) fn g2_add(a: &[u8; 96], b: &[u8; 96]) -> (r: [u8; 96])
    requires
        g2_valid(a@),
        g2_valid(b@),
    ensures
        r@ == g2_sum(a@, b@),
        g2_valid(r@),
{
    let a = G2Projective::from(G2Affine::from_compressed(a).unwrap());
    let b = G2Affine::from_compressed(b).unwrap();
    G2Affine::from(a + b).to_compressed()
}

/// Relies on the scalar multiplication of `G2Projective`; what
/// `to_compressed` gives decodes again.
#[verifier::external_body]
pub(crate) fn g2_mul(q: &[u8; 96], k: &[u8; 32]) -> (r: [u8; 96])
    requires
        g2_valid(q@),
        is_scalar(*k),
    ensures
        r@ == g2_scaled(q@, scalar_value(*k)),
        g2_valid(r@),
{
    let q = G2Projective::from(G2Affine::from_compressed(q).unwrap());
    G2Affine::from(q * Scalar::from_bytes(k).unwrap()).to_compressed()
}

/// Relies on `bls12_381::pairing` and the equality of its results: whether
/// `e(a, y) == e(b, z)`.
#[verifier::external_body]
pub(crate) fn pairing_check(a: &[u8; 48], y: &[u8; 96], b: &[u8; 48], z: &[u8; 96]) -> (r: bool)
    requires
        g1_valid(a@),
        g2_valid(y@),
        g1_valid(b@),
        g2_valid(z@),
    ensures
        r == pairings_match(a@, y@, b@, z@),
{
    let a = G1Affine::from_compressed(a).unwrap();
    let y = G2Affine::from_compressed(y).unwrap();
    let b = G1Affine::from_compressed(b).unwrap();
    let z = G2Affine::from_compressed(z).unwrap();
    pairing(&a, &y) == pairing(&b, &z)
}

} // verus!
