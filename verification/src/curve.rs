//! The interface between the protocol and the curve arithmetic.

use vstd::prelude::*;

verus! {

/// A pairing-friendly curve: two source groups, a target field, and the
/// operations on them that Groth16 verification needs.
///
/// Every operation comes as a pair: a specification function that names
/// the mathematical result, and an executable function that computes it.
/// The verifier reasons with the names alone; it assumes nothing about the
/// arithmetic beyond the fact that each operation is a function of its
/// arguments.
pub trait PairingCurve: Sized {
    /// An element of the scalar field.
    type Fr: Copy;

    /// An element of the first source group, in affine form.
    type G1Affine: Copy;

    /// An element of the first source group, in projective form.
    type G1Projective: Copy;

    /// An element of the second source group, in affine form.
    type G2Affine: Copy;

    /// An element of the second source group in the form that the pairing
    /// consumes.
    type G2Prepared;

    /// An element of the extension field that holds the target group.
    type Fqk: Copy;

    /// The projective form of an affine point.
    spec fn g1_into_projective_value(p: Self::G1Affine) -> Self::G1Projective;

    /// The affine form of a projective point.
    spec fn g1_into_affine_value(p: Self::G1Projective) -> Self::G1Affine;

    /// The product of a point and a scalar.
    spec fn g1_mul_value(base: Self::G1Affine, scalar: Self::Fr) -> Self::G1Projective;

    /// The sum of two points.
    spec fn g1_add_value(a: Self::G1Projective, b: Self::G1Projective) -> Self::G1Projective;

    /// The number of bytes in the uncompressed encoding of a point of the
    /// first source group.
    spec fn g1_uncompressed_size() -> nat;

    /// The point that an uncompressed encoding stands for, if any.
    spec fn g1_decode_value(bytes: Seq<u8>) -> Option<Self::G1Projective>;

    /// The negation of a point.
    spec fn g2_neg_value(q: Self::G2Affine) -> Self::G2Affine;

    /// The pairing-ready form of a point.
    spec fn g2_prepare_value(q: Self::G2Affine) -> Self::G2Prepared;

    /// The product of the Miller loops of the pairs, in order.
    spec fn miller_loop_value(pairs: Seq<(Self::G1Affine, Self::G2Prepared)>) -> Self::Fqk;

    /// The final exponentiation of a Miller loop product; `None` where the
    /// product has no inverse.
    spec fn final_exponentiation_value(f: Self::Fqk) -> Option<Self::Fqk>;

    /// Whether `x` is fit for the Miller loop. Every pairing-ready form of
    /// a point is.
    spec fn is_prepared(x: Self::G2Prepared) -> bool;

    /// The pairing-ready form of any point is fit for the Miller loop.
    proof fn lemma_prepare_value_is_prepared(q: Self::G2Affine)
        ensures
            Self::is_prepared(Self::g2_prepare_value(q)),
    ;

    /// Computes the projective form of an affine point.
    fn g1_into_projective(p: &Self::G1Affine) -> (r: Self::G1Projective)
        ensures
            r == Self::g1_into_projective_value(*p),
    ;

    /// Computes the affine form of a projective point.
    fn g1_into_affine(p: &Self::G1Projective) -> (r: Self::G1Affine)
        ensures
            r == Self::g1_into_affine_value(*p),
    ;

    /// Multiplies a point by a scalar.
    fn g1_mul(base: &Self::G1Affine, scalar: &Self::Fr) -> (r: Self::G1Projective)
        ensures
            r == Self::g1_mul_value(*base, *scalar),
    ;

    /// Adds `rhs` to `acc`.
    fn g1_add_assign(acc: &mut Self::G1Projective, rhs: &Self::G1Projective)
        ensures
            *final(acc) == Self::g1_add_value(*old(acc), *rhs),
    ;

    /// The number of bytes in the uncompressed encoding of a point of the
    /// first source group.
    fn g1_uncompressed_len() -> (n: usize)
        ensures
            n == Self::g1_uncompressed_size(),
    ;

    /// Decodes the uncompressed encoding of a point. Never reads past the
    /// slice it is given.
    fn g1_decode(bytes: &[u8]) -> (r: Option<Self::G1Projective>)
        ensures
            r == Self::g1_decode_value(bytes@),
    ;

    /// Negates a point.
    fn g2_neg(q: &Self::G2Affine) -> (r: Self::G2Affine)
        ensures
            r == Self::g2_neg_value(*q),
    ;

    /// Computes the pairing-ready form of a point.
    fn g2_prepare(q: &Self::G2Affine) -> (r: Self::G2Prepared)
        ensures
            r == Self::g2_prepare_value(*q),
    ;

    /// Copies a pairing-ready point.
    fn g2_prepared_clone(q: &Self::G2Prepared) -> (r: Self::G2Prepared)
        ensures
            r == *q,
    ;

    /// The pairing of two points, for callers that know it to be defined.
    fn pairing(p: &Self::G1Affine, q: &Self::G2Affine) -> (r: Self::Fqk)
        requires
            Self::final_exponentiation_value(
                Self::miller_loop_value(seq![(*p, Self::g2_prepare_value(*q))]),
            ) is Some,
        ensures
            Self::final_exponentiation_value(
                Self::miller_loop_value(seq![(*p, Self::g2_prepare_value(*q))]),
            ) == Some(r),
    ;

    /// The Miller loop over pairs whose second components are all fit for
    /// it.
    fn miller_loop(pairs: Vec<(Self::G1Affine, Self::G2Prepared)>) -> (r: Self::Fqk)
        requires
            forall|i: int| 0 <= i < pairs@.len() ==> Self::is_prepared((#[trigger] pairs@[i]).1),
        ensures
            r == Self::miller_loop_value(pairs@),
    ;

    /// Exponentiates a Miller loop product.
    fn final_exponentiation(f: &Self::Fqk) -> (r: Option<Self::Fqk>)
        ensures
            r == Self::final_exponentiation_value(*f),
    ;

    /// Exact equality in the target field.
    fn fqk_eq(a: &Self::Fqk, b: &Self::Fqk) -> (r: bool)
        ensures
            r == (*a == *b),
    ;
}

/// The pairing of `p` and `q`: the final exponentiation of the Miller loop
/// of the one pair. `None` where the exponentiation is undefined.
pub open spec fn pairing_value<E: PairingCurve>(p: E::G1Affine, q: E::G2Affine) -> Option<E::Fqk> {
    E::final_exponentiation_value(E::miller_loop_value(seq![(p, E::g2_prepare_value(q))]))
}

} // verus!
