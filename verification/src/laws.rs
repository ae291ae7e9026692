//! What holds of the protocol as a whole.

use crate::curve::{pairing_value, PairingCurve};
use crate::error::VerificationError;
use crate::groth16::{
    decoded_input_value, linear_combination, pairing_check_value, pairing_product_value,
    prepared_input_value, serialised_verification_value, verification_value,
};
use crate::keys::{PreparedVerifyingKey, Proof, VerifyingKeyView};
use vstd::prelude::*;

verus! {

/// Preparation is deterministic: two prepared keys of the same verifying
/// key hold the same derived values.
pub proof fn lemma_preparation_is_deterministic<E: PairingCurve>(
    first: PreparedVerifyingKey<E>,
    second: PreparedVerifyingKey<E>,
)
    requires
        first.wf(),
        second.wf(),
        first@ == second@,
    ensures
        first.spec_alpha_g1_beta_g2() == second.spec_alpha_g1_beta_g2(),
        first.spec_gamma_g2_neg_pc() == second.spec_gamma_g2_neg_pc(),
        first.spec_delta_g2_neg_pc() == second.spec_delta_g2_neg_pc(),
{
}

/// A number of public inputs other than the number of the key's bases less
/// one, too few or too many, is a malformed key: for input preparation and
/// for verification alike, whatever the proof.
pub proof fn lemma_wrong_input_count_is_malformed_key<E: PairingCurve>(
    vk: VerifyingKeyView<E>,
    proof: Proof<E>,
    inputs: Seq<E::Fr>,
)
    requires
        inputs.len() != vk.gamma_abc_g1.len() - 1,
    ensures
        prepared_input_value::<E>(vk, inputs) == Err::<E::G1Projective, VerificationError>(
            VerificationError::MalformedVerifyingKey,
        ),
        verification_value::<E>(vk, proof, inputs) == Err::<bool, VerificationError>(
            VerificationError::MalformedVerifyingKey,
        ),
{
}

/// A buffer of any length but that of one uncompressed point, shorter or
/// longer, is a malformed input, whatever the key and the proof.
pub proof fn lemma_wrong_length_is_malformed_input<E: PairingCurve>(
    vk: VerifyingKeyView<E>,
    proof: Proof<E>,
    bytes: Seq<u8>,
)
    requires
        bytes.len() != E::g1_uncompressed_size(),
    ensures
        decoded_input_value::<E>(bytes) == Err::<E::G1Projective, VerificationError>(
            VerificationError::MalformedInput,
        ),
        serialised_verification_value::<E>(vk, proof, bytes) == Err::<bool, VerificationError>(
            VerificationError::MalformedInput,
        ),
{
}

/// The linear combination of the first `n` inputs reads the first `n`
/// scalars and the first `n + 1` bases, and nothing else.
pub proof fn lemma_linear_combination_reads_prefix<E: PairingCurve>(
    bases: Seq<E::G1Affine>,
    scalars: Seq<E::Fr>,
    other_bases: Seq<E::G1Affine>,
    other_scalars: Seq<E::Fr>,
    n: nat,
)
    requires
        n < bases.len(),
        n < other_bases.len(),
        n <= scalars.len(),
        n <= other_scalars.len(),
        forall|i: int| 0 <= i <= n ==> bases[i] == other_bases[i],
        forall|i: int| 0 <= i < n ==> scalars[i] == other_scalars[i],
    ensures
        linear_combination::<E>(bases, scalars, n) == linear_combination::<E>(
            other_bases,
            other_scalars,
            n,
        ),
    decreases n,
{
    if n > 0 {
        lemma_linear_combination_reads_prefix::<E>(
            bases,
            scalars,
            other_bases,
            other_scalars,
            (n - 1) as nat,
        );
    }
}

/// Every input enters the prepared input once, in its place: one more
/// input with one more base adds exactly the product of the two to what
/// was there.
pub proof fn lemma_one_more_input_adds_one_term<E: PairingCurve>(
    vk: VerifyingKeyView<E>,
    inputs: Seq<E::Fr>,
    base: E::G1Affine,
    input: E::Fr,
)
    requires
        inputs.len() + 1 == vk.gamma_abc_g1.len(),
    ensures
        prepared_input_value::<E>(vk, inputs) matches Ok(so_far) && prepared_input_value::<E>(
            (VerifyingKeyView { gamma_abc_g1: vk.gamma_abc_g1.push(base), ..vk }),
            inputs.push(input),
        ) == Ok::<E::G1Projective, VerificationError>(
            E::g1_add_value(so_far, E::g1_mul_value(base, input)),
        ),
{
    let n = inputs.len();
    lemma_linear_combination_reads_prefix::<E>(
        vk.gamma_abc_g1.push(base),
        inputs.push(input),
        vk.gamma_abc_g1,
        inputs,
        n,
    );
}

/// The pairing check ends in exactly one of three ways: an unexpected
/// identity where the pairing product is undefined, acceptance where the
/// product is the pairing of `alpha_g1` with `beta_g2`, and rejection
/// where it is anything else. It reports no other error.
pub proof fn lemma_outcomes_of_pairing_check<E: PairingCurve>(
    vk: VerifyingKeyView<E>,
    proof: Proof<E>,
    prepared_input: E::G1Projective,
)
    ensures
        ({
            let outcome = pairing_check_value::<E>(vk, proof, prepared_input);
            let product = pairing_product_value::<E>(vk, proof, prepared_input);
            let expected = pairing_value::<E>(vk.alpha_g1, vk.beta_g2);
            &&& outcome == Err::<bool, VerificationError>(VerificationError::UnexpectedIdentity)
                <==> product is None
            &&& outcome == Ok::<bool, VerificationError>(true) <==> product is Some && product
                == expected
            &&& outcome == Ok::<bool, VerificationError>(false) <==> product is Some && product
                != expected
            &&& outcome != Err::<bool, VerificationError>(VerificationError::MalformedVerifyingKey)
            &&& outcome != Err::<bool, VerificationError>(VerificationError::MalformedInput)
        }),
{
}

/// Verification from the public inputs reports a malformed key exactly
/// where the input count does not fit the key, and never a malformed
/// input: a structural error is never a verdict, nor a verdict an error.
pub proof fn lemma_outcomes_of_verification<E: PairingCurve>(
    vk: VerifyingKeyView<E>,
    proof: Proof<E>,
    inputs: Seq<E::Fr>,
)
    ensures
        ({
            let outcome = verification_value::<E>(vk, proof, inputs);
            &&& outcome == Err::<bool, VerificationError>(VerificationError::MalformedVerifyingKey)
                <==> inputs.len() + 1 != vk.gamma_abc_g1.len()
            &&& outcome != Err::<bool, VerificationError>(VerificationError::MalformedInput)
        }),
{
}

/// Verification from a serialised prepared input reports a malformed input
/// exactly where the buffer has the wrong length or does not decode, and
/// never a malformed key.
pub proof fn lemma_outcomes_of_serialised_verification<E: PairingCurve>(
    vk: VerifyingKeyView<E>,
    proof: Proof<E>,
    bytes: Seq<u8>,
)
    ensures
        ({
            let outcome = serialised_verification_value::<E>(vk, proof, bytes);
            &&& outcome == Err::<bool, VerificationError>(VerificationError::MalformedInput) <==> (
            bytes.len() != E::g1_uncompressed_size() || E::g1_decode_value(bytes) is None)
            &&& outcome != Err::<bool, VerificationError>(VerificationError::MalformedVerifyingKey)
        }),
{
}

/// The pairing check reads the prepared input through its affine form
/// only: two points with the same affine form get the same verdict.
pub proof fn lemma_verdict_depends_on_affine_form<E: PairingCurve>(
    vk: VerifyingKeyView<E>,
    proof: Proof<E>,
    first: E::G1Projective,
    second: E::G1Projective,
)
    requires
        E::g1_into_affine_value(first) == E::g1_into_affine_value(second),
    ensures
        pairing_check_value::<E>(vk, proof, first) == pairing_check_value::<E>(vk, proof, second),
{
}

/// The serialised path agrees with the in-process path: where the bytes
/// have the length of one point and decode to a point with the affine form
/// of `prepared_input`, verification from the bytes gives what the pairing
/// check gives for `prepared_input`.
pub proof fn lemma_serialised_path_agrees<E: PairingCurve>(
    vk: VerifyingKeyView<E>,
    proof: Proof<E>,
    prepared_input: E::G1Projective,
    bytes: Seq<u8>,
)
    requires
        bytes.len() == E::g1_uncompressed_size(),
        E::g1_decode_value(bytes) matches Some(decoded) && E::g1_into_affine_value(decoded)
            == E::g1_into_affine_value(prepared_input),
    ensures
        serialised_verification_value::<E>(vk, proof, bytes) == pairing_check_value::<E>(
            vk,
            proof,
            prepared_input,
        ),
{
    lemma_verdict_depends_on_affine_form::<E>(
        vk,
        proof,
        E::g1_decode_value(bytes)->0,
        prepared_input,
    );
}

/// Verification from the public inputs is the pairing check on the
/// prepared input: where the inputs fit the key, the two agree.
pub proof fn lemma_verification_is_check_of_prepared_input<E: PairingCurve>(
    vk: VerifyingKeyView<E>,
    proof: Proof<E>,
    inputs: Seq<E::Fr>,
)
    requires
        inputs.len() + 1 == vk.gamma_abc_g1.len(),
    ensures
        prepared_input_value::<E>(vk, inputs) matches Ok(prepared_input) && verification_value::<E>(
            vk,
            proof,
            inputs,
        ) == pairing_check_value::<E>(vk, proof, prepared_input),
{
}

} // verus!
