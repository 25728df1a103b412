//! Scalars of the BLS12-381 scalar field, held as canonical little-endian bytes.

use bls12_381::Scalar;
use ff::Field;
use vstd::prelude::*;

verus! {

/// The order of the BLS12-381 groups, which is the modulus of the scalar field.
pub open spec fn group_order() -> nat {
    let w: nat = 0x1_0000_0000_0000_0000;
    ((0x73ed_a753_299d_7d48 * w + 0x3339_d808_09a1_d805) * w + 0x53bd_a402_fffe_5bfe) * w
        + 0xffff_ffff_0000_0001
}

/// The integer that a little-endian byte string denotes.
pub open spec fn le_value(b: Seq<u8>) -> nat
    decreases b.len(),
{
    if b.len() == 0 {
        0
    } else {
        b[0] as nat + 256 * le_value(b.subrange(1, b.len() as int))
    }
}

/// The field element that a 32-byte encoding denotes.
pub open spec fn scalar_value(b: [u8; 32]) -> nat {
    le_value(b@)
}

/// A 32-byte string is a scalar exactly when it is the canonical encoding of
/// a field element, that is, when its value is below the group order.
pub open spec fn is_scalar(b: [u8; 32]) -> bool {
    scalar_value(b) < group_order()
}

/// Every attribute of the vector is a canonical scalar.
pub open spec fn all_scalars(m: Seq<[u8; 32]>) -> bool {
    forall|i: int| 0 <= i < m.len() ==> #[trigger] is_scalar(m[i])
}

#[verifier::external_type_specification]
#[verifier::external_body]
pub struct ExChaCha20Rng(rand_chacha::ChaCha20Rng);

/// Relies on `Scalar::from_bytes`: it succeeds exactly on canonical
/// little-endian encodings, those whose value is below the modulus.
#[verifier::external_body]
pub(crate) fn scalar_decodes(b: &[u8; 32]) -> (r: bool)
    ensures
        r == is_scalar(*b),
{
    bool::from(Scalar::from_bytes(b).is_some())
}

/// Relies on `Scalar::add` (with `from_bytes` and `to_bytes`): addition
/// modulo the group order.
#[verifier::external_body]
pub(crate) fn scalar_add(a: &[u8; 32], b: &[u8; 32]) -> (r: [u8; 32])
    requires
        is_scalar(*a),
        is_scalar(*b),
    ensures
        is_scalar(r),
        scalar_value(r) == (scalar_value(*a) + scalar_value(*b)) % group_order(),
{
    (Scalar::from_bytes(a).unwrap() + Scalar::from_bytes(b).unwrap()).to_bytes()
}

/// Relies on `Scalar::invert`: the multiplicative inverse, failing exactly
/// on zero.
#[verifier::external_body]
pub(crate) fn scalar_invert(a: &[u8; 32]) -> (r: Option<[u8; 32]>)
    requires
        is_scalar(*a),
    ensures
        r is Some <==> scalar_value(*a) != 0,
        r matches Some(v) ==> is_scalar(v) && (scalar_value(v) * scalar_value(*a)) %
            group_order() == 1,
{
    let inv: Option<Scalar> = Scalar::from_bytes(a).unwrap().invert().into();
    match inv {
        Some(v) => Some(v.to_bytes()),
        None => None,
    }
}

/// Relies on `Field::random` for `Scalar`: a field element drawn from the
/// generator, always returned in canonical form.
#[verifier::external_body]
pub(crate) fn random_scalar(rng: &mut rand_chacha::ChaCha20Rng) -> (r: [u8; 32])
    ensures
        is_scalar(r),
{
    Scalar::random(&mut *rng).to_bytes()
}

} // verus!
