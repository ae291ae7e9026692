//! The BN254 curve, with the arithmetic of the arkworks crates.
//!
//! Every function in this module that is marked `external_body` is trusted:
//! its contract is a statement about arkworks code that the verifier does
//! not read. Each such contract only gives a name to what the call returns;
//! none says anything about the algebra.
//!
//! Scalars are `ark_bn254::Fr` values as they are. The point types and the
//! extension field of arkworks are generic structs bounded by parameter
//! traits, and the verifier takes no declaration of such a type. Each is
//! therefore held in a struct of this module that verified code carries
//! around unopened. The structs add nothing to the values: build one from
//! its `inner` field and read the field back where the arkworks value is
//! needed. As everywhere in arkworks, field elements inside a value are
//! expected to be reduced.

use crate::curve::PairingCurve;
use ark_ec::{AffineCurve, PairingEngine, ProjectiveCurve};
use ark_ff::PrimeField;
use ark_serialize::CanonicalDeserialize;
use vstd::prelude::*;

verus! {

/// The number of bytes in the uncompressed encoding of a `G1` point: two
/// base-field coordinates of 32 bytes each.
pub const G1_UNCOMPRESSED_SIZE: usize = 64;

/// The four-limb prime fields of arkworks (`ark_ff::Fp256`), of which the
/// scalar field is one. Nothing is read from a value.
#[verifier::external_type_specification]
#[verifier::external_body]
#[verifier::reject_recursive_types(P)]
pub struct ExFp256<P>(ark_ff::Fp256<P>);

/// The marker that picks the scalar field among them
/// (`ark_bn254::FrParameters`).
#[verifier::external_type_specification]
#[verifier::external_body]
pub struct ExFrParameters(ark_bn254::FrParameters);

/// A point of the first source group in affine form
/// (`ark_bn254::G1Affine`), carried unopened.
#[verifier::external_body]
#[derive(Debug, PartialEq, Eq)]
pub struct G1Affine {
    pub inner: ark_bn254::G1Affine,
}

/// A point of the first source group in Jacobian form
/// (`ark_bn254::G1Projective`), carried unopened. Two values are the same
/// here when their coordinates are; one group element has many such forms.
#[verifier::external_body]
#[derive(Debug)]
pub struct G1Projective {
    pub inner: ark_bn254::G1Projective,
}

/// A point of the second source group in affine form
/// (`ark_bn254::G2Affine`), carried unopened.
#[verifier::external_body]
#[derive(Debug, PartialEq, Eq)]
pub struct G2Affine {
    pub inner: ark_bn254::G2Affine,
}

/// The line coefficients that the Miller loop reads for one point of the
/// second source group (`ark_ec::bn::G2Prepared`), carried unopened.
#[verifier::external_body]
#[derive(Debug, PartialEq, Eq)]
pub struct G2Prepared {
    pub inner: ark_ec::bn::G2Prepared<ark_bn254::Parameters>,
}

/// An element of the degree-twelve extension field (`ark_bn254::Fq12`),
/// carried unopened.
#[verifier::external_body]
#[derive(Debug, PartialEq, Eq)]
pub struct Fq12 {
    pub inner: ark_bn254::Fq12,
}

/// The error of arkworks' deserialisers. Nothing is read from it.
#[verifier::external_type_specification]
#[verifier::external_body]
pub struct ExSerializationError(ark_serialize::SerializationError);

impl Copy for G1Affine {}

impl Clone for G1Affine {
    fn clone(&self) -> (r: Self)
        ensures
            r == *self,
    {
        *self
    }
}

impl Copy for G1Projective {}

impl Clone for G1Projective {
    fn clone(&self) -> (r: Self)
        ensures
            r == *self,
    {
        *self
    }
}

impl Copy for G2Affine {}

impl Clone for G2Affine {
    fn clone(&self) -> (r: Self)
        ensures
            r == *self,
    {
        *self
    }
}

impl Copy for Fq12 {}

impl Clone for Fq12 {
    fn clone(&self) -> (r: Self)
        ensures
            r == *self,
    {
        *self
    }
}

/// What `AffineCurve::into_projective` returns for `p`.
pub uninterp spec fn ark_g1_into_projective_value(p: G1Affine) -> G1Projective;

/// What `ProjectiveCurve::into_affine` returns for `p`.
pub uninterp spec fn ark_g1_into_affine_value(p: G1Projective) -> G1Affine;

/// What `AffineCurve::mul` returns for `base` and the integer form of
/// `scalar`.
pub uninterp spec fn ark_g1_mul_value(base: G1Affine, scalar: ark_bn254::Fr) -> G1Projective;

/// What `a += &b` leaves in `a`.
pub uninterp spec fn ark_g1_add_value(a: G1Projective, b: G1Projective) -> G1Projective;

/// What `CanonicalDeserialize::deserialize_uncompressed` makes of `bytes`:
/// the point, or `None` where it returns an error.
pub uninterp spec fn ark_g1_decode_value(bytes: Seq<u8>) -> Option<G1Projective>;

/// What negation returns for `q`.
pub uninterp spec fn ark_g2_neg_value(q: G2Affine) -> G2Affine;

/// What `G2Prepared::from` returns for `q`.
pub uninterp spec fn ark_g2_prepare_value(q: G2Affine) -> G2Prepared;

/// What `PairingEngine::miller_loop` returns for `pairs`.
pub uninterp spec fn ark_miller_loop_value(pairs: Seq<(G1Affine, G2Prepared)>) -> Fq12;

/// What `PairingEngine::final_exponentiation` returns for `f`.
pub uninterp spec fn ark_final_exponentiation_value(f: Fq12) -> Option<Fq12>;

/// Whether `x` is what `G2Prepared::from` returns for some point.
pub open spec fn ark_is_prepared(x: G2Prepared) -> bool {
    exists|q: G2Affine| x == ark_g2_prepare_value(q)
}

/// `AffineCurve::into_projective` on a `G1` point. A pure function of the
/// point; the contract names its result.
#[verifier::external_body]
fn ark_g1_into_projective(p: &G1Affine) -> (r: G1Projective)
    ensures
        r == ark_g1_into_projective_value(*p),
{
    G1Projective { inner: p.inner.into_projective() }
}

/// `ProjectiveCurve::into_affine` on a `G1` point. Where the `z` coordinate
/// is neither zero nor one it is inverted, which a nonzero reduced field
/// element always can be. A pure function of the point; the contract names
/// its result.
#[verifier::external_body]
fn ark_g1_into_affine(p: &G1Projective) -> (r: G1Affine)
    ensures
        r == ark_g1_into_affine_value(*p),
{
    G1Affine { inner: p.inner.into_affine() }
}

/// `AffineCurve::mul` on a `G1` point, with the scalar handed over as
/// `PrimeField::into_repr` gives it. A pure function of point and scalar;
/// the contract names its result.
#[verifier::external_body]
fn ark_g1_mul(base: &G1Affine, scalar: &ark_bn254::Fr) -> (r: G1Projective)
    ensures
        r == ark_g1_mul_value(*base, *scalar),
{
    G1Projective { inner: base.inner.mul(scalar.into_repr()) }
}

/// `AddAssign<&G1Projective>` on `G1Projective`. What it leaves in `acc` is
/// a pure function of both points; the contract names it.
#[verifier::external_body]
fn ark_g1_add_assign(acc: &mut G1Projective, rhs: &G1Projective)
    ensures
        *final(acc) == ark_g1_add_value(*old(acc), *rhs),
{
    acc.inner += &rhs.inner;
}

/// `CanonicalDeserialize::deserialize_uncompressed` for `G1Projective`,
/// reading from `bytes`. It reads from the slice only, and what it returns
/// is a pure function of the bytes: the contract names the point and says
/// that the call fails exactly where the name is `None`.
#[verifier::external_body]
fn ark_g1_deserialize_uncompressed(bytes: &[u8]) -> (r: Result<
    G1Projective,
    ark_serialize::SerializationError,
>)
    ensures
        r is Ok <==> ark_g1_decode_value(bytes@) is Some,
        r matches Ok(p) ==> ark_g1_decode_value(bytes@) == Some(p),
{
    match ark_bn254::G1Projective::deserialize_uncompressed(bytes) {
        Ok(p) => Ok(G1Projective { inner: p }),
        Err(e) => Err(e),
    }
}

/// `Neg` on a `G2` point. A pure function of the point; the contract names
/// its result.
#[verifier::external_body]
fn ark_g2_neg(q: &G2Affine) -> (r: G2Affine)
    ensures
        r == ark_g2_neg_value(*q),
{
    G2Affine { inner: -q.inner }
}

/// `From<G2Affine>` for `ark_ec::bn::G2Prepared`. A pure function of the
/// point; the contract names its result.
#[verifier::external_body]
fn ark_g2_prepare(q: &G2Affine) -> (r: G2Prepared)
    ensures
        r == ark_g2_prepare_value(*q),
{
    G2Prepared { inner: q.inner.into() }
}

/// `Clone` on `ark_ec::bn::G2Prepared`, which copies the coefficients and
/// the flag: the clone is the same value.
#[verifier::external_body]
fn ark_g2_prepared_clone(q: &G2Prepared) -> (r: G2Prepared)
    ensures
        r == *q,
{
    G2Prepared { inner: q.inner.clone() }
}

/// `PairingEngine::pairing` on one pair. By its source it prepares both
/// points, runs the Miller loop on the one pair and unwraps the final
/// exponentiation: it panics where that is `None`, which the precondition
/// excludes, and otherwise returns what the contract says.
#[verifier::external_body]
fn ark_pairing(p: &G1Affine, q: &G2Affine) -> (r: Fq12)
    requires
        ark_final_exponentiation_value(
            ark_miller_loop_value(seq![(*p, ark_g2_prepare_value(*q))]),
        ) is Some,
    ensures
        Some(r) == ark_final_exponentiation_value(
            ark_miller_loop_value(seq![(*p, ark_g2_prepare_value(*q))]),
        ),
{
    Fq12 { inner: ark_bn254::Bn254::pairing(p.inner, q.inner) }
}

/// `PairingEngine::miller_loop` over the pairs, each `G1` point wrapped
/// into `G1Prepared` as `From` does. The loop takes one coefficient per
/// step from each prepared point and panics where they run out. A prepared
/// point that `G2Prepared::from` built either holds exactly as many as the
/// loop takes or is marked as the point at infinity, which the loop skips;
/// the precondition admits no others. The result is a pure function of the
/// pairs; the contract names it.
#[verifier::external_body]
fn ark_miller_loop(pairs: Vec<(G1Affine, G2Prepared)>) -> (r: Fq12)
    requires
        forall|i: int| 0 <= i < pairs@.len() ==> ark_is_prepared((#[trigger] pairs@[i]).1),
    ensures
        r == ark_miller_loop_value(pairs@),
{
    let prepared: Vec<_> = pairs.into_iter().map(|(p, q)| (p.inner.into(), q.inner)).collect();
    Fq12 { inner: ark_bn254::Bn254::miller_loop(prepared.iter()) }
}

/// `PairingEngine::final_exponentiation`. It returns `None` where `f` has
/// no inverse; in either case the result is a pure function of `f`, which
/// the contract names.
#[verifier::external_body]
fn ark_final_exponentiation(f: &Fq12) -> (r: Option<Fq12>)
    ensures
        r == ark_final_exponentiation_value(*f),
{
    match ark_bn254::Bn254::final_exponentiation(&f.inner) {
        Some(x) => Some(Fq12 { inner: x }),
        None => None,
    }
}

/// `PartialEq` on `ark_bn254::Fq12`, which compares the two elements
/// coefficient by coefficient, limb by limb: it holds exactly where the
/// values are the same.
#[verifier::external_body]
fn ark_fq12_eq(a: &Fq12, b: &Fq12) -> (r: bool)
    ensures
        r == (*a == *b),
{
    a.inner == b.inner
}

/// The BN254 curve.
#[derive(Clone, Copy, Debug, PartialEq, Eq)]
pub struct Bn254;

impl PairingCurve for Bn254 {
    type Fr = ark_bn254::Fr;

    type G1Affine = G1Affine;

    type G1Projective = G1Projective;

    type G2Affine = G2Affine;

    type G2Prepared = G2Prepared;

    type Fqk = Fq12;

    open spec fn g1_into_projective_value(p: G1Affine) -> G1Projective {
        ark_g1_into_projective_value(p)
    }

    open spec fn g1_into_affine_value(p: G1Projective) -> G1Affine {
        ark_g1_into_affine_value(p)
    }

    open spec fn g1_mul_value(base: G1Affine, scalar: ark_bn254::Fr) -> G1Projective {
        ark_g1_mul_value(base, scalar)
    }

    open spec fn g1_add_value(a: G1Projective, b: G1Projective) -> G1Projective {
        ark_g1_add_value(a, b)
    }

    open spec fn g1_uncompressed_size() -> nat {
        G1_UNCOMPRESSED_SIZE as nat
    }

    open spec fn g1_decode_value(bytes: Seq<u8>) -> Option<G1Projective> {
        ark_g1_decode_value(bytes)
    }

    open spec fn g2_neg_value(q: G2Affine) -> G2Affine {
        ark_g2_neg_value(q)
    }

    open spec fn g2_prepare_value(q: G2Affine) -> G2Prepared {
        ark_g2_prepare_value(q)
    }

    open spec fn miller_loop_value(pairs: Seq<(G1Affine, G2Prepared)>) -> Fq12 {
        ark_miller_loop_value(pairs)
    }

    open spec fn final_exponentiation_value(f: Fq12) -> Option<Fq12> {
        ark_final_exponentiation_value(f)
    }

    open spec fn is_prepared(x: G2Prepared) -> bool {
        ark_is_prepared(x)
    }

    proof fn lemma_prepare_value_is_prepared(q: G2Affine) {
    }

    fn g1_into_projective(p: &G1Affine) -> (r: G1Projective) {
        ark_g1_into_projective(p)
    }

    fn g1_into_affine(p: &G1Projective) -> (r: G1Affine) {
        ark_g1_into_affine(p)
    }

    fn g1_mul(base: &G1Affine, scalar: &ark_bn254::Fr) -> (r: G1Projective) {
        ark_g1_mul(base, scalar)
    }

    fn g1_add_assign(acc: &mut G1Projective, rhs: &G1Projective) {
        ark_g1_add_assign(acc, rhs)
    }

    fn g1_uncompressed_len() -> (n: usize) {
        G1_UNCOMPRESSED_SIZE
    }

    fn g1_decode(bytes: &[u8]) -> (r: Option<G1Projective>) {
        match ark_g1_deserialize_uncompressed(bytes) {
            Ok(p) => Some(p),
            Err(_) => None,
        }
    }

    fn g2_neg(q: &G2Affine) -> (r: G2Affine) {
        ark_g2_neg(q)
    }

    fn g2_prepare(q: &G2Affine) -> (r: G2Prepared) {
        ark_g2_prepare(q)
    }

    fn g2_prepared_clone(q: &G2Prepared) -> (r: G2Prepared) {
        ark_g2_prepared_clone(q)
    }

    fn pairing(p: &G1Affine, q: &G2Affine) -> (r: Fq12) {
        ark_pairing(p, q)
    }

    fn miller_loop(pairs: Vec<(G1Affine, G2Prepared)>) -> (r: Fq12) {
        ark_miller_loop(pairs)
    }

    fn final_exponentiation(f: &Fq12) -> (r: Option<Fq12>) {
        ark_final_exponentiation(f)
    }

    fn fqk_eq(a: &Fq12, b: &Fq12) -> (r: bool) {
        ark_fq12_eq(a, b)
    }
}

} // verus!
