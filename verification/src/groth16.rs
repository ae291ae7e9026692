//! The Groth16 verification protocol.
//!
//! A key is prepared once per circuit. Each proof is then checked in two
//! steps: the public inputs are folded into one point of the first source
//! group, the prepared input, and one pairing product over the proof, the
//! prepared input and the key is compared with the key's own pairing. The
//! prepared input may also be supplied in serialised form by a caller who
//! has computed it already.
//!
//! The serialised path checks the proof against the point it is given, not
//! against any public inputs: nothing here ties that point to the inputs
//! that the caller has in mind. It is sound only for callers that establish
//! that tie themselves.

use crate::curve::{pairing_value, PairingCurve};
use crate::error::VerificationError;
use crate::keys::{PreparedVerifyingKey, Proof, VerifyingKey, VerifyingKeyView};
use vstd::prelude::*;

verus! {

/// The constant base plus the first `n` scalars times their bases, summed
/// in input order:
/// `bases[0] + scalars[0] * bases[1] + ... + scalars[n - 1] * bases[n]`.
pub open spec fn linear_combination<E: PairingCurve>(
    bases: Seq<E::G1Affine>,
    scalars: Seq<E::Fr>,
    n: nat,
) -> E::G1Projective
    recommends
        n <= scalars.len(),
        n < bases.len(),
    decreases n,
{
    if n == 0 {
        E::g1_into_projective_value(bases[0])
    } else {
        E::g1_add_value(
            linear_combination::<E>(bases, scalars, (n - 1) as nat),
            E::g1_mul_value(bases[n as int], scalars[n - 1]),
        )
    }
}

/// The prepared input for `inputs` under `vk`: the linear combination of
/// all inputs, or `MalformedVerifyingKey` where the key does not hold
/// exactly one base more than there are inputs.
pub open spec fn prepared_input_value<E: PairingCurve>(
    vk: VerifyingKeyView<E>,
    inputs: Seq<E::Fr>,
) -> Result<E::G1Projective, VerificationError> {
    if inputs.len() + 1 != vk.gamma_abc_g1.len() {
        Err(VerificationError::MalformedVerifyingKey)
    } else {
        Ok(linear_combination::<E>(vk.gamma_abc_g1, inputs, inputs.len()))
    }
}

/// The three pairs of the Groth16 equation, in the order in which they
/// enter the pairing product: the proof's `a` with its `b`, the prepared
/// input with the negated `gamma_g2`, the proof's `c` with the negated
/// `delta_g2`.
pub open spec fn equation_pairs<E: PairingCurve>(
    vk: VerifyingKeyView<E>,
    proof: Proof<E>,
    prepared_input: E::G1Projective,
) -> Seq<(E::G1Affine, E::G2Prepared)> {
    seq![
        (proof.a, E::g2_prepare_value(proof.b)),
        (
            E::g1_into_affine_value(prepared_input),
            E::g2_prepare_value(E::g2_neg_value(vk.gamma_g2)),
        ),
        (proof.c, E::g2_prepare_value(E::g2_neg_value(vk.delta_g2))),
    ]
}

/// The verdict for an exponentiated pairing product: `UnexpectedIdentity`
/// where the exponentiation was undefined, else whether the product is
/// exactly `expected`.
pub open spec fn verdict_value<E: PairingCurve>(
    expected: E::Fqk,
    exponentiated: Option<E::Fqk>,
) -> Result<bool, VerificationError> {
    match exponentiated {
        None => Err(VerificationError::UnexpectedIdentity),
        Some(product) => Ok(product == expected),
    }
}

/// The left-hand side of the Groth16 equation: one Miller loop over the
/// three pairs, then one final exponentiation. `None` where the
/// exponentiation is undefined.
pub open spec fn pairing_product_value<E: PairingCurve>(
    vk: VerifyingKeyView<E>,
    proof: Proof<E>,
    prepared_input: E::G1Projective,
) -> Option<E::Fqk> {
    E::final_exponentiation_value(
        E::miller_loop_value(equation_pairs::<E>(vk, proof, prepared_input)),
    )
}

/// The Groth16 equation for `proof` and `prepared_input` under `vk`:
/// whether the pairing product is exactly the pairing of `alpha_g1` with
/// `beta_g2`, or `UnexpectedIdentity` where the product is undefined.
pub open spec fn pairing_check_value<E: PairingCurve>(
    vk: VerifyingKeyView<E>,
    proof: Proof<E>,
    prepared_input: E::G1Projective,
) -> Result<bool, VerificationError> {
    match pairing_product_value::<E>(vk, proof, prepared_input) {
        None => Err(VerificationError::UnexpectedIdentity),
        Some(product) => Ok(pairing_value::<E>(vk.alpha_g1, vk.beta_g2) == Some(product)),
    }
}

/// Verification from the public inputs: input preparation, then the
/// pairing check. An error of the first step is the error of the whole.
pub open spec fn verification_value<E: PairingCurve>(
    vk: VerifyingKeyView<E>,
    proof: Proof<E>,
    inputs: Seq<E::Fr>,
) -> Result<bool, VerificationError> {
    match prepared_input_value::<E>(vk, inputs) {
        Err(e) => Err(e),
        Ok(prepared_input) => pairing_check_value::<E>(vk, proof, prepared_input),
    }
}

/// The point that a serialised prepared input stands for: `MalformedInput`
/// unless the buffer has exactly the length of one uncompressed point and
/// decodes to one.
pub open spec fn decoded_input_value<E: PairingCurve>(bytes: Seq<u8>) -> Result<
    E::G1Projective,
    VerificationError,
> {
    if bytes.len() != E::g1_uncompressed_size() {
        Err(VerificationError::MalformedInput)
    } else {
        match E::g1_decode_value(bytes) {
            None => Err(VerificationError::MalformedInput),
            Some(point) => Ok(point),
        }
    }
}

/// Verification from a serialised prepared input: decoding, then the
/// pairing check. An error of the first step is the error of the whole.
pub open spec fn serialised_verification_value<E: PairingCurve>(
    vk: VerifyingKeyView<E>,
    proof: Proof<E>,
    bytes: Seq<u8>,
) -> Result<bool, VerificationError> {
    match decoded_input_value::<E>(bytes) {
        Err(e) => Err(e),
        Ok(prepared_input) => pairing_check_value::<E>(vk, proof, prepared_input),
    }
}

/// Prepares `vk` for verification, for callers that know the pairing of its
/// `alpha_g1` with its `beta_g2` to be defined, as it is for every key of
/// well-formed group elements.
///
/// The result holds a copy of the key, that pairing, and the negated
/// `gamma_g2` and `delta_g2` in pairing-ready form. It is a function of the
/// key alone.
pub fn prepare_verifying_key<E: PairingCurve>(vk: &VerifyingKey<E>) -> (pvk: PreparedVerifyingKey<
    E,
>)
    requires
        pairing_value::<E>(vk.alpha_g1, vk.beta_g2) is Some,
    ensures
        pvk@ == vk@,
        pvk.wf(),
{
    let alpha_g1_beta_g2 = E::pairing(&vk.alpha_g1, &vk.beta_g2);
    let gamma_g2_neg_pc = E::g2_prepare(&E::g2_neg(&vk.gamma_g2));
    let delta_g2_neg_pc = E::g2_prepare(&E::g2_neg(&vk.delta_g2));
    PreparedVerifyingKey::from_parts(vk.clone(), alpha_g1_beta_g2, gamma_g2_neg_pc, delta_g2_neg_pc)
}

/// Prepares `vk` for verification after checking that it can be prepared.
///
/// Fails with `UnexpectedIdentity` exactly where the pairing of `alpha_g1`
/// with `beta_g2` is undefined; otherwise returns what
/// `prepare_verifying_key` returns. The check computes that pairing once
/// more than the unchecked function does.
pub fn checked_prepare_verifying_key<E: PairingCurve>(vk: &VerifyingKey<E>) -> (r: Result<
    PreparedVerifyingKey<E>,
    VerificationError,
>)
    ensures
        match r {
            Ok(pvk) => pairing_value::<E>(vk.alpha_g1, vk.beta_g2) is Some && pvk@ == vk@
                && pvk.wf(),
            Err(e) => pairing_value::<E>(vk.alpha_g1, vk.beta_g2) is None
                && e == VerificationError::UnexpectedIdentity,
        },
{
    let mut pairs: Vec<(E::G1Affine, E::G2Prepared)> = Vec::new();
    pairs.push((vk.alpha_g1, E::g2_prepare(&vk.beta_g2)));
    proof {
        assert(pairs@ =~= seq![(vk.alpha_g1, E::g2_prepare_value(vk.beta_g2))]);
        E::lemma_prepare_value_is_prepared(vk.beta_g2);
    }
    let product = E::miller_loop(pairs);
    match E::final_exponentiation(&product) {
        None => Err(VerificationError::UnexpectedIdentity),
        Some(_) => Ok(prepare_verifying_key(vk)),
    }
}

/// Folds the public inputs against the key's bases into one point.
///
/// Fails with `MalformedVerifyingKey`, before any arithmetic, unless the key
/// holds exactly one base more than there are inputs.
pub fn prepare_inputs<E: PairingCurve>(pvk: &PreparedVerifyingKey<E>, public_inputs: &[E::Fr]) -> (r:
    Result<E::G1Projective, VerificationError>)
    ensures
        r == prepared_input_value::<E>(pvk@, public_inputs@),
        public_inputs@.len() + 1 != pvk@.gamma_abc_g1.len() ==> r == Err::<
            E::G1Projective,
            VerificationError,
        >(VerificationError::MalformedVerifyingKey),
        public_inputs@.len() + 1 == pvk@.gamma_abc_g1.len() ==> r is Ok,
{
    let bases = &pvk.vk().gamma_abc_g1;
    if bases.len() == 0 || public_inputs.len() != bases.len() - 1 {
        return Err(VerificationError::MalformedVerifyingKey);
    }
    let mut g_ic = E::g1_into_projective(&bases[0]);
    let mut i: usize = 0;
    while i < public_inputs.len()
        invariant
            i <= public_inputs.len(),
            public_inputs.len() + 1 == bases.len(),
            g_ic == linear_combination::<E>(bases@, public_inputs@, i as nat),
        decreases public_inputs.len() - i,
    {
        let term = E::g1_mul(&bases[i + 1], &public_inputs[i]);
        E::g1_add_assign(&mut g_ic, &term);
        i += 1;
    }
    Ok(g_ic)
}

/// Decides the verdict from the exponentiated pairing product and the
/// value it has to equal.
pub fn verdict<E: PairingCurve>(expected: &E::Fqk, exponentiated: Option<E::Fqk>) -> (r: Result<
    bool,
    VerificationError,
>)
    ensures
        r == verdict_value::<E>(*expected, exponentiated),
{
    match exponentiated {
        None => Err(VerificationError::UnexpectedIdentity),
        Some(product) => Ok(E::fqk_eq(&product, expected)),
    }
}

/// Verifies `proof` against the prepared key `pvk` and an already prepared
/// input.
///
/// Returns `Ok(true)` exactly where the Groth16 equation holds, `Ok(false)`
/// where it does not, and `UnexpectedIdentity` where the pairing product
/// cannot be exponentiated.
pub fn verify_proof_with_prepared_inputs<E: PairingCurve>(
    pvk: &PreparedVerifyingKey<E>,
    proof: &Proof<E>,
    prepared_inputs: &E::G1Projective,
) -> (r: Result<bool, VerificationError>)
    ensures
        r == pairing_check_value::<E>(pvk@, *proof, *prepared_inputs),
{
    let mut pairs: Vec<(E::G1Affine, E::G2Prepared)> = Vec::new();
    pairs.push((proof.a, E::g2_prepare(&proof.b)));
    pairs.push(
        (E::g1_into_affine(prepared_inputs), E::g2_prepared_clone(pvk.gamma_g2_neg_pc())),
    );
    pairs.push((proof.c, E::g2_prepared_clone(pvk.delta_g2_neg_pc())));
    proof {
        assert(pairs@ =~= equation_pairs::<E>(pvk@, *proof, *prepared_inputs));
        E::lemma_prepare_value_is_prepared(proof.b);
        E::lemma_prepare_value_is_prepared(E::g2_neg_value(pvk@.gamma_g2));
        E::lemma_prepare_value_is_prepared(E::g2_neg_value(pvk@.delta_g2));
    }
    let product = E::miller_loop(pairs);
    let exponentiated = E::final_exponentiation(&product);
    let expected = pvk.alpha_g1_beta_g2();
    verdict::<E>(&expected, exponentiated)
}

/// Verifies `proof` against the prepared key `pvk` and the public inputs.
///
/// The composition of `prepare_inputs` and
/// `verify_proof_with_prepared_inputs`: a key that does not fit the inputs
/// is reported before any pairing is computed.
pub fn verify_proof<E: PairingCurve>(
    pvk: &PreparedVerifyingKey<E>,
    proof: &Proof<E>,
    public_inputs: &[E::Fr],
) -> (r: Result<bool, VerificationError>)
    ensures
        r == verification_value::<E>(pvk@, *proof, public_inputs@),
        public_inputs@.len() + 1 != pvk@.gamma_abc_g1.len() ==> r == Err::<bool, VerificationError>(
            VerificationError::MalformedVerifyingKey,
        ),
{
    match prepare_inputs(pvk, public_inputs) {
        Err(e) => Err(e),
        Ok(prepared_input) => verify_proof_with_prepared_inputs(pvk, proof, &prepared_input),
    }
}

/// Decodes a serialised prepared input.
///
/// The buffer must be exactly one uncompressed point long: a shorter or
/// longer one is refused with `MalformedInput` before anything is decoded,
/// and so is one that does not decode to a point.
pub fn decode_prepared_input<E: PairingCurve>(serialised: &[u8]) -> (r: Result<
    E::G1Projective,
    VerificationError,
>)
    ensures
        r == decoded_input_value::<E>(serialised@),
        serialised@.len() != E::g1_uncompressed_size() ==> r == Err::<
            E::G1Projective,
            VerificationError,
        >(VerificationError::MalformedInput),
{
    if serialised.len() != E::g1_uncompressed_len() {
        return Err(VerificationError::MalformedInput);
    }
    match E::g1_decode(serialised) {
        None => Err(VerificationError::MalformedInput),
        Some(point) => Ok(point),
    }
}

/// Verifies `proof` against the prepared key `pvk` and a prepared input in
/// its uncompressed encoding.
///
/// The proof is checked against the point that the bytes decode to. That
/// this point belongs to the public inputs the caller has in mind is the
/// caller's to establish.
pub fn verify_proof_with_prepared_inputs_serialised<E: PairingCurve>(
    pvk: &PreparedVerifyingKey<E>,
    proof: &Proof<E>,
    prepared_input_serialised: &Vec<u8>,
) -> (r: Result<bool, VerificationError>)
    ensures
        r == serialised_verification_value::<E>(pvk@, *proof, prepared_input_serialised@),
        prepared_input_serialised@.len() != E::g1_uncompressed_size() ==> r == Err::<
            bool,
            VerificationError,
        >(VerificationError::MalformedInput),
{
    match decode_prepared_input::<E>(prepared_input_serialised.as_slice()) {
        Err(e) => Err(e),
        Ok(prepared_input) => verify_proof_with_prepared_inputs(pvk, proof, &prepared_input),
    }
}

} // verus!
