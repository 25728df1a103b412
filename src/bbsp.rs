//! Key generation, signing and verification.

use crate::group::{
    g1_add, g1_decodes, g1_generator, g1_generator_bytes, g1_mul, g1_scaled, g1_sum, g1_valid,
    g2_add, g2_generator, g2_generator_bytes, g2_mul, g2_scaled, g2_sum, g2_valid,
    pairing_check, pairings_match,
};
use crate::scalar::{
    all_scalars, group_order, is_scalar, random_scalar, scalar_add, scalar_decodes,
    scalar_invert, scalar_value,
};
use rand_chacha::ChaChaRng;
use vstd::prelude::*;

verus! {

/// A keypair for attribute vectors of a fixed length `l`: the secret scalar
/// `x`, the public point `X = g2 * x`, and `l + 1` generators of G1.
#[allow(non_snake_case)]
pub struct BBSPlusKey {
    x: [u8; 32],
    X: [u8; 96],
    H: Vec<[u8; 48]>,
}

/// A signature `(A, e, s)`: a point of G1 and two scalars.
#[allow(non_snake_case)]
#[derive(Clone, Copy, Debug, PartialEq, Eq)]
pub struct BBSPlusSig {
    pub A: [u8; 48],
    pub e: [u8; 32],
    pub s: [u8; 32],
}

/// Why signing failed.
#[derive(Clone, Copy, Debug, PartialEq, Eq, Structural)]
pub enum SignError {
    /// The attribute vector's length is not the key's capacity.
    CapacityMismatch,
    /// `x + e` is zero in the scalar field.
    NonInvertibleExponent,
    /// An attribute or a randomizer is not a canonical scalar.
    InvalidEncoding,
}

/// Why verification failed.
#[derive(Clone, Copy, Debug, PartialEq, Eq, Structural)]
pub enum VerifyError {
    /// The attribute vector's length is not the key's capacity.
    CapacityMismatch,
    /// The pairing equation does not hold.
    SignatureInvalid,
    /// A component of the signature or an attribute is not a valid encoding.
    InvalidEncoding,
}

/// The commitment after the first `n` attributes: `g1 + H_0 * m_0 + ... + H_{n-1} * m_{n-1}`.
pub open spec fn partial_commitment(h: Seq<[u8; 48]>, m: Seq<[u8; 32]>, n: nat) -> Seq<u8>
    decreases n,
{
    if n == 0 {
        g1_generator_bytes()
    } else {
        g1_sum(
            partial_commitment(h, m, (n - 1) as nat),
            g1_scaled(h[n - 1]@, scalar_value(m[n - 1])),
        )
    }
}

/// The commitment `B = g1 + sum of H_i * m_i + H_l * s` to the attributes `m`
/// under the generators `h`, blinded by `s`.
pub open spec fn commitment(h: Seq<[u8; 48]>, m: Seq<[u8; 32]>, s: [u8; 32]) -> Seq<u8> {
    g1_sum(partial_commitment(h, m, m.len()), g1_scaled(h[m.len() as int]@, scalar_value(s)))
}

/// Computes the commitment to `m` under `h`, blinded by `s`.
fn commit(h: &Vec<[u8; 48]>, m: &[[u8; 32]], s: &[u8; 32]) -> (r: [u8; 48])
    requires
        h.len() == m.len() + 1,
        forall|i: int| 0 <= i < h.len() ==> #[trigger] g1_valid(h[i]@),
        all_scalars(m@),
        is_scalar(*s),
    ensures
        r@ == commitment(h@, m@, *s),
        g1_valid(r@),
{
    let mut acc = g1_generator();
    let mut i: usize = 0;
    while i < m.len()
        invariant
            h.len() == m.len() + 1,
            forall|j: int| 0 <= j < h.len() ==> #[trigger] g1_valid(h[j]@),
            all_scalars(m@),
            0 <= i <= m.len(),
            acc@ == partial_commitment(h@, m@, i as nat),
            g1_valid(acc@),
        decreases m.len() - i,
    {
        assert(is_scalar(m@[i as int]));
        assert(g1_valid(h@[i as int]@));
        let term = g1_mul(&h[i], &m[i]);
        acc = g1_add(&acc, &term);
        i = i + 1;
    }
    let last = g1_mul(&h[m.len()], s);
    g1_add(&acc, &last)
}

impl BBSPlusKey {
    /// The secret scalar `x`.
    pub closed spec fn secret(&self) -> [u8; 32] {
        self.x
    }

    /// The compressed public point `X`.
    pub closed spec fn public_point(&self) -> Seq<u8> {
        self.X@
    }

    /// The generators `H_0, ..., H_l`.
    pub closed spec fn gens(&self) -> Seq<[u8; 48]> {
        self.H@
    }

    /// The number of attributes that the key signs.
    pub open spec fn capacity_spec(&self) -> int {
        self.gens().len() - 1
    }

    /// A key holds a canonical secret, the public point that belongs to it,
    /// and at least one generator, each a point of G1.
    #[verifier::type_invariant]
    spec fn wf(&self) -> bool {
        &&& is_scalar(self.x)
        &&& g2_valid(self.X@)
        &&& self.X@ == g2_scaled(g2_generator_bytes(), scalar_value(self.x))
        &&& self.H.len() >= 1
        &&& forall|i: int| 0 <= i < self.H.len() ==> #[trigger] g1_valid(self.H@[i]@)
    }

    /// Builds the key with secret `x` and generators `g1 * r_i`.
    fn build(x: [u8; 32], r: &Vec<[u8; 32]>) -> (key: Self)
        requires
            is_scalar(x),
            r.len() >= 1,
            all_scalars(r@),
        ensures
            key.secret() == x,
            key.public_point() == g2_scaled(g2_generator_bytes(), scalar_value(x)),
            key.gens().len() == r.len(),
            forall|i: int|
                0 <= i < r.len() ==> (#[trigger] key.gens()[i])@ == g1_scaled(
                    g1_generator_bytes(),
                    scalar_value(r@[i]),
                ),
    {
        let g1 = g1_generator();
        let g2 = g2_generator();
        let big_x = g2_mul(&g2, &x);
        let mut h: Vec<[u8; 48]> = Vec::new();
        let mut i: usize = 0;
        while i < r.len()
            invariant
                all_scalars(r@),
                g1@ == g1_generator_bytes(),
                g1_valid(g1@),
                0 <= i <= r.len(),
                h.len() == i,
                forall|j: int| 0 <= j < i ==> #[trigger] g1_valid(h@[j]@),
                forall|j: int|
                    0 <= j < i ==> (#[trigger] h@[j])@ == g1_scaled(
                        g1_generator_bytes(),
                        scalar_value(r@[j]),
                    ),
            decreases r.len() - i,
        {
            assert(is_scalar(r@[i as int]));
            let p = g1_mul(&g1, &r[i]);
            h.push(p);
            i = i + 1;
        }
        BBSPlusKey { x, X: big_x, H: h }
    }

    /// The key with secret `x` and generators `g1 * r_0, ..., g1 * r_l`, so of
    /// capacity `r.len() - 1`; `None` when `r` is empty or a value is not a
    /// canonical scalar.
    pub fn from_scalars(x: [u8; 32], r: &Vec<[u8; 32]>) -> (res: Option<Self>)
        ensures
            res is Some <==> (is_scalar(x) && r.len() >= 1 && all_scalars(r@)),
            res matches Some(key) ==> {
                &&& key.secret() == x
                &&& key.public_point() == g2_scaled(g2_generator_bytes(), scalar_value(x))
                &&& key.gens().len() == r.len()
                &&& forall|i: int|
                    0 <= i < r.len() ==> (#[trigger] key.gens()[i])@ == g1_scaled(
                        g1_generator_bytes(),
                        scalar_value(r@[i]),
                    )
            },
    {
        if !scalar_decodes(&x) || r.len() == 0 {
            return None;
        }
        let mut i: usize = 0;
        while i < r.len()
            invariant
                0 <= i <= r.len(),
                forall|j: int| 0 <= j < i ==> #[trigger] is_scalar(r@[j]),
            decreases r.len() - i,
        {
            if !scalar_decodes(&r[i]) {
                return None;
            }
            i = i + 1;
        }
        Some(Self::build(x, r))
    }

    /// Draws a secret and `l + 1` generators from `rng`, in that order, and
    /// returns the key of capacity `l`.
    pub fn keygen(rng: &mut ChaChaRng, l: usize) -> (key: Self)
        requires
            l < usize::MAX,
        ensures
            key.capacity_spec() == l,
            key.public_point() == g2_scaled(g2_generator_bytes(), scalar_value(key.secret())),
            is_scalar(key.secret()),
            forall|i: int|
                0 <= i <= l ==> exists|k: [u8; 32]|
                    is_scalar(k) && (#[trigger] key.gens()[i])@ == g1_scaled(
                        g1_generator_bytes(),
                        scalar_value(k),
                    ),
    {
        let x = random_scalar(rng);
        let mut r: Vec<[u8; 32]> = Vec::new();
        let mut i: usize = 0;
        while i <= l
            invariant
                l < usize::MAX,
                0 <= i <= l + 1,
                r.len() == i,
                all_scalars(r@),
            decreases l + 1 - i,
        {
            let k = random_scalar(rng);
            r.push(k);
            i = i + 1;
        }
        let key = Self::build(x, &r);
        assert forall|i: int| 0 <= i <= l implies exists|k: [u8; 32]|
            is_scalar(k) && (#[trigger] key.gens()[i])@ == g1_scaled(
                g1_generator_bytes(),
                scalar_value(k),
            ) by {
            assert(is_scalar(r@[i]));
        }
        key
    }

    /// The number of attributes that the key signs.
    pub fn capacity(&self) -> (r: usize)
        ensures
            r == self.capacity_spec(),
    {
        proof {
            use_type_invariant(self);
        }
        self.H.len() - 1
    }

    /// The generator `H_i`, compressed.
    pub fn generator(&self, i: usize) -> (r: [u8; 48])
        requires
            i < self.gens().len(),
        ensures
            r == self.gens()[i as int],
    {
        self.H[i]
    }

    /// The compressed public point `X = g2 * x`.
    pub fn public_key(&self) -> (r: [u8; 96])
        ensures
            r@ == self.public_point(),
    {
        self.X
    }
}

/// Whether every attribute of `m` is a canonical scalar.
fn all_canonical(m: &[[u8; 32]]) -> (r: bool)
    ensures
        r == all_scalars(m@),
{
    let mut i: usize = 0;
    while i < m.len()
        invariant
            0 <= i <= m.len(),
            forall|j: int| 0 <= j < i ==> #[trigger] is_scalar(m@[j]),
        decreases m.len() - i,
    {
        if !scalar_decodes(&m[i]) {
            return false;
        }
        i = i + 1;
    }
    true
}

/// The exponent `x + e` of the scalar field for the key's secret `x`.
pub open spec fn exponent(key: &BBSPlusKey, e: [u8; 32]) -> nat {
    (scalar_value(key.secret()) + scalar_value(e)) % group_order()
}

/// `w` is the inverse of `v` in the scalar field.
pub open spec fn is_inverse(w: nat, v: nat) -> bool {
    w < group_order() && (w * v) % group_order() == 1
}

/// The failure that signing `m` with `key` meets before any randomizer is
/// looked at: a length other than the key's capacity `l`, or an attribute
/// that is not a canonical scalar.
pub open spec fn sign_precheck(key: &BBSPlusKey, m: Seq<[u8; 32]>, l: usize) -> Option<SignError> {
    if l != key.capacity_spec() || m.len() != l {
        Some(SignError::CapacityMismatch)
    } else if !all_scalars(m) {
        Some(SignError::InvalidEncoding)
    } else {
        None
    }
}

/// `sig` is what signing `m` with `key` gives for the randomizers `sig.e`
/// and `sig.s`: both canonical, `x + e` nonzero, and
/// `A = commitment(H, m, s) * (x + e)^-1`.
pub open spec fn is_signature_on(key: &BBSPlusKey, m: Seq<[u8; 32]>, sig: BBSPlusSig) -> bool {
    &&& is_scalar(sig.e)
    &&& is_scalar(sig.s)
    &&& exponent(key, sig.e) != 0
    &&& g1_valid(sig.A@)
    &&& exists|w: nat|
        #[trigger] is_inverse(w, exponent(key, sig.e)) && sig.A@ == g1_scaled(
            commitment(key.gens(), m, sig.s),
            w,
        )
}

/// What verifying `sig` on `m` under `key` (announced capacity `l`) returns.
pub open spec fn verify_outcome(key: &BBSPlusKey, m: Seq<[u8; 32]>, l: usize, sig: BBSPlusSig) -> Result<
    (),
    VerifyError,
> {
    if l != key.capacity_spec() || m.len() != l {
        Err(VerifyError::CapacityMismatch)
    } else if !(g1_valid(sig.A@) && is_scalar(sig.e) && is_scalar(sig.s) && all_scalars(m)) {
        Err(VerifyError::InvalidEncoding)
    } else if pairings_match(
        sig.A@,
        g2_sum(key.public_point(), g2_scaled(g2_generator_bytes(), scalar_value(sig.e))),
        commitment(key.gens(), m, sig.s),
        g2_generator_bytes(),
    ) {
        Ok(())
    } else {
        Err(VerifyError::SignatureInvalid)
    }
}

impl BBSPlusSig {
    /// Signs `msg` with `key` for the randomizers `e` and `s`.
    pub fn sign_with(key: &BBSPlusKey, msg: &[[u8; 32]], l: usize, e: [u8; 32], s: [u8; 32]) -> (r:
        Result<Self, SignError>)
        ensures
            sign_precheck(key, msg@, l) matches Some(err) ==> r == Err::<Self, SignError>(err),
            sign_precheck(key, msg@, l) is None && !(is_scalar(e) && is_scalar(s)) ==> r
                == Err::<Self, SignError>(SignError::InvalidEncoding),
            sign_precheck(key, msg@, l) is None && is_scalar(e) && is_scalar(s) && exponent(key, e)
                == 0 ==> r == Err::<Self, SignError>(SignError::NonInvertibleExponent),
            sign_precheck(key, msg@, l) is None && is_scalar(e) && is_scalar(s) && exponent(key, e)
                != 0 ==> (r matches Ok(sig) && sig.e == e && sig.s == s && is_signature_on(
                key,
                msg@,
                sig,
            )),
    {
        proof {
            use_type_invariant(key);
        }
        if l != key.capacity() || msg.len() != l {
            return Err(SignError::CapacityMismatch);
        }
        if !all_canonical(msg) {
            return Err(SignError::InvalidEncoding);
        }
        if !scalar_decodes(&e) || !scalar_decodes(&s) {
            return Err(SignError::InvalidEncoding);
        }
        let b = commit(&key.H, msg, &s);
        let xe = scalar_add(&key.x, &e);
        match scalar_invert(&xe) {
            None => Err(SignError::NonInvertibleExponent),
            Some(inv) => {
                let a = g1_mul(&b, &inv);
                let sig = BBSPlusSig { A: a, e, s };
                proof {
                    let w = scalar_value(inv);
                    assert(scalar_value(xe) == exponent(key, e));
                    assert(w < group_order() && (w * exponent(key, e)) % group_order() == 1);
                    assert(sig.A@ == g1_scaled(commitment(key.gens(), msg@, s), w));
                    assert(is_inverse(w, exponent(key, sig.e)));
                }
                Ok(sig)
            },
        }
    }

    /// Draws the randomizers `e` and `s` from `rng`, in that order, and signs
    /// `msg` with `key`.
    pub fn sign(rng: &mut ChaChaRng, key: &BBSPlusKey, msg: &[[u8; 32]], l: usize) -> (r: Result<
        Self,
        SignError,
    >)
        ensures
            sign_precheck(key, msg@, l) matches Some(err) ==> r == Err::<Self, SignError>(err),
            sign_precheck(key, msg@, l) is None ==> (r matches Ok(sig) && is_signature_on(
                key,
                msg@,
                sig,
            )) || r == Err::<Self, SignError>(SignError::NonInvertibleExponent),
    {
        let e = random_scalar(rng);
        let s = random_scalar(rng);
        Self::sign_with(key, msg, l, e, s)
    }

    /// Checks `sig` on `msg` under `key`, whose capacity the caller gives as
    /// `l`: accepts exactly when `e(A, X + g2 * e) == e(B, g2)` for the
    /// commitment `B` to `msg` blinded by `s`.
    pub fn verify(key: &BBSPlusKey, msg: &[[u8; 32]], l: usize, sig: &BBSPlusSig) -> (r: Result<
        (),
        VerifyError,
    >)
        ensures
            r == verify_outcome(key, msg@, l, *sig),
    {
        proof {
            use_type_invariant(key);
        }
        if l != key.capacity() || msg.len() != l {
            return Err(VerifyError::CapacityMismatch);
        }
        if !g1_decodes(&sig.A) || !scalar_decodes(&sig.e) || !scalar_decodes(&sig.s)
            || !all_canonical(msg) {
            return Err(VerifyError::InvalidEncoding);
        }
        let b = commit(&key.H, msg, &sig.s);
        let g2 = g2_generator();
        let ge = g2_mul(&g2, &sig.e);
        let y = g2_add(&key.X, &ge);
        if pairing_check(&sig.A, &y, &b, &g2) {
            Ok(())
        } else {
            Err(VerifyError::SignatureInvalid)
        }
    }
}

/// A signature that signing produced for `m` under `key` passes every check
/// of verification but the last: neither a capacity mismatch nor an invalid
/// encoding can reject it, and verification accepts it exactly when
/// `e(B * (x + e)^-1, X + g2 * e) == e(B, g2)` for its commitment `B`.
pub proof fn lemma_signed_reaches_pairing_check(
    key: &BBSPlusKey,
    m: Seq<[u8; 32]>,
    l: usize,
    sig: BBSPlusSig,
)
    requires
        sign_precheck(key, m, l) is None,
        is_signature_on(key, m, sig),
    ensures
        verify_outcome(key, m, l, sig) == (if pairings_match(
            sig.A@,
            g2_sum(key.public_point(), g2_scaled(g2_generator_bytes(), scalar_value(sig.e))),
            commitment(key.gens(), m, sig.s),
            g2_generator_bytes(),
        ) {
            Ok::<(), VerifyError>(())
        } else {
            Err::<(), VerifyError>(VerifyError::SignatureInvalid)
        }),
{
}

} // verus!
