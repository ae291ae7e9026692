use ark_ec::{AffineCurve, PairingEngine, ProjectiveCurve};
use ark_ff::{Field, One, Zero};
use ark_serialize::CanonicalSerialize;
use groth16_verifier::bn254::{Bn254, Fq12, G1Affine, G1Projective, G2Affine, G2Prepared};
use groth16_verifier::{
    checked_prepare_verifying_key, decode_prepared_input, prepare_inputs, prepare_verifying_key,
    verdict, verify_proof, verify_proof_with_prepared_inputs,
    verify_proof_with_prepared_inputs_serialised, PairingCurve, PreparedVerifyingKey, Proof,
    VerificationError, VerifyingKey,
};

/// The discrete logarithms behind a verifying key: whoever knows them can
/// write a proof for any public inputs.
struct Trapdoor {
    alpha: ark_bn254::Fr,
    beta: ark_bn254::Fr,
    gamma: ark_bn254::Fr,
    delta: ark_bn254::Fr,
    abc: Vec<ark_bn254::Fr>,
}

fn scalar(n: u64) -> ark_bn254::Fr {
    ark_bn254::Fr::from(n)
}

fn ark_g1(s: ark_bn254::Fr) -> ark_bn254::G1Affine {
    ark_bn254::G1Affine::prime_subgroup_generator().mul(s).into_affine()
}

fn ark_g2(s: ark_bn254::Fr) -> ark_bn254::G2Affine {
    ark_bn254::G2Affine::prime_subgroup_generator().mul(s).into_affine()
}

fn g1(s: ark_bn254::Fr) -> G1Affine {
    G1Affine { inner: ark_g1(s) }
}

fn g2(s: ark_bn254::Fr) -> G2Affine {
    G2Affine { inner: ark_g2(s) }
}

fn trapdoor(inputs: usize) -> Trapdoor {
    Trapdoor {
        alpha: scalar(3),
        beta: scalar(5),
        gamma: scalar(7),
        delta: scalar(11),
        abc: (0..=inputs).map(|i| scalar(13 + 4 * i as u64)).collect(),
    }
}

fn key(t: &Trapdoor) -> VerifyingKey<Bn254> {
    VerifyingKey {
        alpha_g1: g1(t.alpha),
        beta_g2: g2(t.beta),
        gamma_g2: g2(t.gamma),
        delta_g2: g2(t.delta),
        gamma_abc_g1: t.abc.iter().map(|k| g1(*k)).collect(),
    }
}

/// The discrete logarithm of the prepared input for `inputs`.
fn input_commitment(t: &Trapdoor, inputs: &[u64]) -> ark_bn254::Fr {
    let mut ic = t.abc[0];
    for (x, k) in inputs.iter().zip(t.abc.iter().skip(1)) {
        ic += scalar(*x) * k;
    }
    ic
}

/// A proof that verifies for `inputs`, built from the trapdoor with the
/// blinding scalars `a` and `b`.
fn proof_for(t: &Trapdoor, inputs: &[u64], a: u64, b: u64) -> Proof<Bn254> {
    let ab = scalar(a) * scalar(b);
    let c = (ab - t.alpha * t.beta - input_commitment(t, inputs) * t.gamma)
        * t.delta.inverse().unwrap();
    Proof { a: g1(scalar(a)), b: g2(scalar(b)), c: g1(c) }
}

fn frs(inputs: &[u64]) -> Vec<ark_bn254::Fr> {
    inputs.iter().map(|x| scalar(*x)).collect()
}

fn one_input_circuit() -> (Trapdoor, PreparedVerifyingKey<Bn254>) {
    let t = trapdoor(1);
    let pvk = prepare_verifying_key(&key(&t));
    (t, pvk)
}

fn encode(p: &G1Projective) -> Vec<u8> {
    let mut bytes = vec![0u8; 64];
    p.inner.serialize_uncompressed(&mut bytes[..]).unwrap();
    bytes
}

/// A pair of malformed points, neither on its curve, whose Miller loop is
/// zero: with both coordinates of the first point zero and the abscissa of
/// the second zero, the first addition line of the loop vanishes.
fn degenerate_pair() -> (G1Affine, G2Affine) {
    let p = ark_bn254::G1Affine::new(ark_bn254::Fq::zero(), ark_bn254::Fq::zero(), false);
    let q = ark_bn254::G2Affine::new(ark_bn254::Fq2::zero(), ark_bn254::Fq2::one(), false);
    assert!(!p.is_on_curve() && !q.is_on_curve());
    (G1Affine { inner: p }, G2Affine { inner: q })
}

#[test]
fn known_good_proof_verifies() {
    let (t, pvk) = one_input_circuit();
    let proof = proof_for(&t, &[42], 23, 29);
    assert_eq!(verify_proof(&pvk, &proof, &frs(&[42])), Ok(true));
}

#[test]
fn proof_for_another_input_is_rejected() {
    let (t, pvk) = one_input_circuit();
    let proof = proof_for(&t, &[42], 23, 29);
    assert_eq!(verify_proof(&pvk, &proof, &frs(&[43])), Ok(false));
}

#[test]
fn omitted_input_is_a_malformed_key() {
    let (t, pvk) = one_input_circuit();
    let proof = proof_for(&t, &[42], 23, 29);
    assert_eq!(
        verify_proof(&pvk, &proof, &frs(&[])),
        Err(VerificationError::MalformedVerifyingKey)
    );
}

#[test]
fn prepare_inputs_refuses_too_few_inputs() {
    let t = trapdoor(3);
    let pvk = prepare_verifying_key(&key(&t));
    for n in 0..3 {
        let inputs = frs(&vec![1; n]);
        let r = prepare_inputs(&pvk, &inputs);
        assert!(matches!(r, Err(VerificationError::MalformedVerifyingKey)));
    }
}

#[test]
fn prepare_inputs_refuses_too_many_inputs() {
    let t = trapdoor(3);
    let pvk = prepare_verifying_key(&key(&t));
    for n in 4..7 {
        let inputs = frs(&vec![1; n]);
        let r = prepare_inputs(&pvk, &inputs);
        assert!(matches!(r, Err(VerificationError::MalformedVerifyingKey)));
    }
}

#[test]
fn prepare_inputs_refuses_any_input_for_a_key_without_bases() {
    let t = trapdoor(0);
    let mut vk = key(&t);
    vk.gamma_abc_g1.clear();
    let pvk = prepare_verifying_key(&vk);
    assert!(matches!(
        prepare_inputs(&pvk, &frs(&[])),
        Err(VerificationError::MalformedVerifyingKey)
    ));
    assert!(matches!(
        prepare_inputs(&pvk, &frs(&[1])),
        Err(VerificationError::MalformedVerifyingKey)
    ));
}

#[test]
fn prepare_inputs_is_the_linear_combination() {
    let t = trapdoor(2);
    let pvk = prepare_verifying_key(&key(&t));
    let got = prepare_inputs(&pvk, &frs(&[6, 9])).unwrap();
    // 13 + 6 * 17 + 9 * 21 = 304
    assert_eq!(got.inner.into_affine(), ark_g1(scalar(304)));
    assert_eq!(input_commitment(&t, &[6, 9]), scalar(304));
}

#[test]
fn prepare_inputs_without_inputs_is_the_constant_base() {
    let t = trapdoor(0);
    let pvk = prepare_verifying_key(&key(&t));
    let got = prepare_inputs(&pvk, &frs(&[])).unwrap();
    assert_eq!(got.inner, ark_g1(scalar(13)).into_projective());
}

#[test]
fn prepare_inputs_respects_input_order() {
    let t = trapdoor(2);
    let pvk = prepare_verifying_key(&key(&t));
    let forward = prepare_inputs(&pvk, &frs(&[6, 9])).unwrap();
    let backward = prepare_inputs(&pvk, &frs(&[9, 6])).unwrap();
    assert_ne!(forward.inner, backward.inner);
    // 13 + 9 * 17 + 6 * 21 = 292
    assert_eq!(backward.inner.into_affine(), ark_g1(scalar(292)));
}

#[test]
fn circuit_without_inputs_verifies() {
    let t = trapdoor(0);
    let pvk = prepare_verifying_key(&key(&t));
    let proof = proof_for(&t, &[], 31, 37);
    assert_eq!(verify_proof(&pvk, &proof, &frs(&[])), Ok(true));
}

#[test]
fn circuit_with_three_inputs_verifies() {
    let t = trapdoor(3);
    let pvk = prepare_verifying_key(&key(&t));
    let proof = proof_for(&t, &[2, 4, 8], 31, 37);
    assert_eq!(verify_proof(&pvk, &proof, &frs(&[2, 4, 8])), Ok(true));
    assert_eq!(verify_proof(&pvk, &proof, &frs(&[2, 8, 4])), Ok(false));
    assert_eq!(verify_proof(&pvk, &proof, &frs(&[2, 4, 9])), Ok(false));
}

#[test]
fn tampered_proof_element_a_is_rejected() {
    let (t, pvk) = one_input_circuit();
    let mut proof = proof_for(&t, &[42], 23, 29);
    proof.a = g1(scalar(24));
    assert_eq!(verify_proof(&pvk, &proof, &frs(&[42])), Ok(false));
}

#[test]
fn tampered_proof_element_b_is_rejected() {
    let (t, pvk) = one_input_circuit();
    let mut proof = proof_for(&t, &[42], 23, 29);
    proof.b = g2(scalar(30));
    assert_eq!(verify_proof(&pvk, &proof, &frs(&[42])), Ok(false));
}

#[test]
fn tampered_proof_element_c_is_rejected() {
    let (t, pvk) = one_input_circuit();
    let mut proof = proof_for(&t, &[42], 23, 29);
    proof.c = G1Affine { inner: -proof.c.inner };
    assert_eq!(verify_proof(&pvk, &proof, &frs(&[42])), Ok(false));
}

#[test]
fn single_bit_mutations_of_the_proof_are_rejected() {
    let (t, pvk) = one_input_circuit();
    let good = proof_for(&t, &[42], 23, 29);
    let inputs = frs(&[42]);
    assert_eq!(verify_proof(&pvk, &good, &inputs), Ok(true));

    let mut proof = good.clone();
    proof.a.inner.x.0 .0[0] ^= 1;
    assert_eq!(verify_proof(&pvk, &proof, &inputs), Ok(false));

    let mut proof = good.clone();
    proof.a.inner.y.0 .0[3] ^= 1 << 7;
    assert_eq!(verify_proof(&pvk, &proof, &inputs), Ok(false));

    let mut proof = good.clone();
    proof.b.inner.x.c0.0 .0[1] ^= 1 << 20;
    assert_eq!(verify_proof(&pvk, &proof, &inputs), Ok(false));

    let mut proof = good.clone();
    proof.b.inner.y.c1.0 .0[0] ^= 2;
    assert_eq!(verify_proof(&pvk, &proof, &inputs), Ok(false));

    let mut proof = good.clone();
    proof.c.inner.x.0 .0[2] ^= 1 << 63;
    assert_eq!(verify_proof(&pvk, &proof, &inputs), Ok(false));

    let mut proof = good.clone();
    proof.c.inner.y.0 .0[0] ^= 1;
    assert_eq!(verify_proof(&pvk, &proof, &inputs), Ok(false));
}

#[test]
fn proof_clone_is_the_same_proof() {
    let t = trapdoor(1);
    let proof = proof_for(&t, &[42], 23, 29);
    let copy = proof.clone();
    assert_eq!(copy.a, proof.a);
    assert_eq!(copy.b, proof.b);
    assert_eq!(copy.c, proof.c);
}

#[test]
fn proof_under_another_key_is_rejected() {
    let (t, _) = one_input_circuit();
    let proof = proof_for(&t, &[42], 23, 29);
    let mut other = trapdoor(1);
    other.delta = scalar(12);
    let pvk = prepare_verifying_key(&key(&other));
    assert_eq!(verify_proof(&pvk, &proof, &frs(&[42])), Ok(false));
}

#[test]
fn prepared_key_holds_the_derived_values() {
    let t = trapdoor(1);
    let vk = key(&t);
    let pvk = prepare_verifying_key(&vk);
    let alpha_beta = ark_bn254::Bn254::pairing(ark_g1(t.alpha), ark_g2(t.beta));
    assert_eq!(pvk.alpha_g1_beta_g2().inner, alpha_beta);
    let gamma_neg = ark_ec::bn::G2Prepared::<ark_bn254::Parameters>::from(-ark_g2(t.gamma));
    let delta_neg = ark_ec::bn::G2Prepared::<ark_bn254::Parameters>::from(-ark_g2(t.delta));
    assert_eq!(pvk.gamma_g2_neg_pc().inner, gamma_neg);
    assert_eq!(pvk.delta_g2_neg_pc().inner, delta_neg);
    let gamma = ark_ec::bn::G2Prepared::<ark_bn254::Parameters>::from(ark_g2(t.gamma));
    assert_ne!(pvk.gamma_g2_neg_pc().inner, gamma);
}

#[test]
fn prepared_key_holds_a_copy_of_the_key() {
    let t = trapdoor(2);
    let vk = key(&t);
    let pvk = prepare_verifying_key(&vk);
    assert_eq!(pvk.vk().alpha_g1, vk.alpha_g1);
    assert_eq!(pvk.vk().beta_g2, vk.beta_g2);
    assert_eq!(pvk.vk().gamma_g2, vk.gamma_g2);
    assert_eq!(pvk.vk().delta_g2, vk.delta_g2);
    assert_eq!(pvk.vk().gamma_abc_g1, vk.gamma_abc_g1);
    assert_eq!(pvk.vk().gamma_abc_g1.len(), 3);
}

#[test]
fn verifying_key_clone_is_equal() {
    let vk = key(&trapdoor(2));
    let copy = vk.clone();
    assert_eq!(copy.alpha_g1, vk.alpha_g1);
    assert_eq!(copy.beta_g2, vk.beta_g2);
    assert_eq!(copy.gamma_g2, vk.gamma_g2);
    assert_eq!(copy.delta_g2, vk.delta_g2);
    assert_eq!(copy.gamma_abc_g1, vk.gamma_abc_g1);
}

#[test]
fn preparing_twice_gives_identical_keys() {
    let vk = key(&trapdoor(1));
    let first = prepare_verifying_key(&vk);
    let second = prepare_verifying_key(&vk);
    assert_eq!(first.alpha_g1_beta_g2(), second.alpha_g1_beta_g2());
    assert_eq!(first.gamma_g2_neg_pc(), second.gamma_g2_neg_pc());
    assert_eq!(first.delta_g2_neg_pc(), second.delta_g2_neg_pc());
    assert_eq!(first.vk().gamma_abc_g1, second.vk().gamma_abc_g1);
}

#[test]
fn checked_preparation_agrees_with_preparation() {
    let vk = key(&trapdoor(1));
    let checked = checked_prepare_verifying_key(&vk).ok().unwrap();
    let plain = prepare_verifying_key(&vk);
    assert_eq!(checked.alpha_g1_beta_g2(), plain.alpha_g1_beta_g2());
    assert_eq!(checked.gamma_g2_neg_pc(), plain.gamma_g2_neg_pc());
    assert_eq!(checked.delta_g2_neg_pc(), plain.delta_g2_neg_pc());
}

#[test]
fn checked_preparation_refuses_a_degenerate_key() {
    let (p, q) = degenerate_pair();
    let mut vk = key(&trapdoor(1));
    vk.alpha_g1 = p;
    vk.beta_g2 = q;
    let r = checked_prepare_verifying_key(&vk);
    assert!(matches!(r, Err(VerificationError::UnexpectedIdentity)));
}

#[test]
fn degenerate_proof_is_an_unexpected_identity() {
    let (t, pvk) = one_input_circuit();
    let (p, q) = degenerate_pair();
    let mut proof = proof_for(&t, &[42], 23, 29);
    proof.a = p;
    proof.b = q;
    assert_eq!(
        verify_proof(&pvk, &proof, &frs(&[42])),
        Err(VerificationError::UnexpectedIdentity)
    );
}

#[test]
fn key_of_identity_elements_can_be_prepared() {
    let t = trapdoor(1);
    let mut vk = key(&t);
    vk.alpha_g1 = G1Affine { inner: ark_bn254::G1Affine::zero() };
    let pvk = checked_prepare_verifying_key(&vk).ok().unwrap();
    assert_eq!(pvk.alpha_g1_beta_g2().inner, ark_bn254::Fq12::one());
}

#[test]
fn verdict_compares_exactly() {
    let one = Fq12 { inner: ark_bn254::Fq12::one() };
    let two = Fq12 { inner: ark_bn254::Fq12::one().double() };
    assert_eq!(verdict::<Bn254>(&one, Some(one)), Ok(true));
    assert_eq!(verdict::<Bn254>(&one, Some(two)), Ok(false));
    assert_eq!(verdict::<Bn254>(&two, Some(one)), Ok(false));
    assert_eq!(verdict::<Bn254>(&two, Some(two)), Ok(true));
    assert_eq!(verdict::<Bn254>(&one, None), Err(VerificationError::UnexpectedIdentity));
}

#[test]
fn prepared_input_path_agrees_with_verify_proof() {
    let (t, pvk) = one_input_circuit();
    let proof = proof_for(&t, &[42], 23, 29);
    let good = prepare_inputs(&pvk, &frs(&[42])).unwrap();
    let bad = prepare_inputs(&pvk, &frs(&[43])).unwrap();
    assert_eq!(verify_proof_with_prepared_inputs(&pvk, &proof, &good), Ok(true));
    assert_eq!(verify_proof_with_prepared_inputs(&pvk, &proof, &bad), Ok(false));
}

#[test]
fn prepared_input_is_read_through_its_affine_form() {
    let (t, pvk) = one_input_circuit();
    let proof = proof_for(&t, &[42], 23, 29);
    let ic = input_commitment(&t, &[42]);
    // The same group element in another Jacobian form: twice its half.
    let half = ark_g1(ic * scalar(2).inverse().unwrap()).into_projective();
    let doubled = G1Projective { inner: half.double() };
    assert!(!doubled.inner.is_normalized());
    assert_eq!(verify_proof_with_prepared_inputs(&pvk, &proof, &doubled), Ok(true));
}

#[test]
fn serialised_prepared_input_round_trips() {
    let (t, pvk) = one_input_circuit();
    let good = proof_for(&t, &[42], 23, 29);
    let bad = proof_for(&t, &[41], 23, 29);
    let prepared = prepare_inputs(&pvk, &frs(&[42])).unwrap();
    let bytes = encode(&prepared);
    assert_eq!(bytes.len(), 64);
    for proof in [&good, &bad] {
        assert_eq!(
            verify_proof_with_prepared_inputs_serialised(&pvk, proof, &bytes),
            verify_proof_with_prepared_inputs(&pvk, proof, &prepared)
        );
    }
    assert_eq!(verify_proof_with_prepared_inputs_serialised(&pvk, &good, &bytes), Ok(true));
    assert_eq!(verify_proof_with_prepared_inputs_serialised(&pvk, &bad, &bytes), Ok(false));
}

#[test]
fn decoded_prepared_input_is_the_encoded_point() {
    let p = G1Projective { inner: ark_g1(scalar(304)).into_projective().double() };
    let decoded = decode_prepared_input::<Bn254>(&encode(&p)).ok().unwrap();
    assert_eq!(decoded.inner, p.inner);
    assert_eq!(decoded.inner.into_affine(), ark_g1(scalar(608)));
}

#[test]
fn short_buffer_is_a_malformed_input() {
    let (t, pvk) = one_input_circuit();
    let proof = proof_for(&t, &[42], 23, 29);
    let bytes = encode(&prepare_inputs(&pvk, &frs(&[42])).unwrap());
    for n in [0, 1, 32, 63] {
        let short = bytes[..n].to_vec();
        assert_eq!(
            verify_proof_with_prepared_inputs_serialised(&pvk, &proof, &short),
            Err(VerificationError::MalformedInput)
        );
        assert!(matches!(
            decode_prepared_input::<Bn254>(&short),
            Err(VerificationError::MalformedInput)
        ));
    }
}

#[test]
fn long_buffer_is_a_malformed_input() {
    let (t, pvk) = one_input_circuit();
    let proof = proof_for(&t, &[42], 23, 29);
    let mut bytes = encode(&prepare_inputs(&pvk, &frs(&[42])).unwrap());
    bytes.push(0);
    assert_eq!(
        verify_proof_with_prepared_inputs_serialised(&pvk, &proof, &bytes),
        Err(VerificationError::MalformedInput)
    );
}

#[test]
fn undecodable_buffer_is_a_malformed_input() {
    let (t, pvk) = one_input_circuit();
    let proof = proof_for(&t, &[42], 23, 29);
    // Coordinates above the modulus.
    let unreduced = vec![0xffu8; 64];
    assert_eq!(
        verify_proof_with_prepared_inputs_serialised(&pvk, &proof, &unreduced),
        Err(VerificationError::MalformedInput)
    );
    // A flag that no encoding carries.
    let mut flagged = encode(&prepare_inputs(&pvk, &frs(&[42])).unwrap());
    flagged[63] |= 0xc0;
    assert_eq!(
        verify_proof_with_prepared_inputs_serialised(&pvk, &proof, &flagged),
        Err(VerificationError::MalformedInput)
    );
}

#[test]
fn encoded_identity_is_accepted_as_a_point() {
    let zero = G1Projective { inner: ark_bn254::G1Projective::zero() };
    let decoded = decode_prepared_input::<Bn254>(&encode(&zero)).ok().unwrap();
    assert!(decoded.inner.is_zero());
}

#[test]
fn uncompressed_length_is_sixty_four() {
    assert_eq!(Bn254::g1_uncompressed_len(), 64);
    assert_eq!(groth16_verifier::bn254::G1_UNCOMPRESSED_SIZE, 64);
    assert_eq!(ark_g1(scalar(1)).uncompressed_size(), 64);
}

#[test]
fn curve_operations_are_those_of_the_arithmetic() {
    let p = ark_g1(scalar(5));
    let q = ark_g2(scalar(7));
    let lifted = Bn254::g1_into_projective(&G1Affine { inner: p });
    assert_eq!(lifted.inner, p.into_projective());
    assert_eq!(Bn254::g1_into_affine(&lifted).inner, p);
    let product = Bn254::g1_mul(&G1Affine { inner: p }, &scalar(3));
    assert_eq!(product.inner.into_affine(), ark_g1(scalar(15)));
    let mut sum = lifted;
    Bn254::g1_add_assign(&mut sum, &product);
    assert_eq!(sum.inner.into_affine(), ark_g1(scalar(20)));
    let negated = Bn254::g2_neg(&G2Affine { inner: q });
    assert_eq!(negated.inner, -q);
    assert_ne!(negated.inner, q);
    let prepared = Bn254::g2_prepare(&negated);
    assert_eq!(prepared.inner, ark_ec::bn::G2Prepared::<ark_bn254::Parameters>::from(-q));
    let copy = Bn254::g2_prepared_clone(&prepared);
    assert_eq!(copy, prepared);
}

#[test]
fn pairing_is_the_exponentiated_miller_loop() {
    let p = G1Affine { inner: ark_g1(scalar(5)) };
    let q = G2Affine { inner: ark_g2(scalar(7)) };
    let direct = Bn254::pairing(&p, &q);
    let looped = Bn254::miller_loop(vec![(p, Bn254::g2_prepare(&q))]);
    assert_ne!(looped, direct);
    assert_eq!(Bn254::final_exponentiation(&looped), Some(direct));
    assert_eq!(direct.inner, ark_bn254::Bn254::pairing(p.inner, q.inner));
    assert!(Bn254::fqk_eq(&direct, &direct));
    assert!(!Bn254::fqk_eq(&direct, &looped));
}

#[test]
fn final_exponentiation_of_zero_is_undefined() {
    let zero = Fq12 { inner: ark_bn254::Fq12::zero() };
    assert_eq!(Bn254::final_exponentiation(&zero), None);
}

#[test]
fn miller_loop_of_no_pairs_is_one() {
    let pairs: Vec<(G1Affine, G2Prepared)> = Vec::new();
    assert_eq!(Bn254::miller_loop(pairs).inner, ark_bn254::Fq12::one());
}

#[test]
fn error_messages_are_distinct() {
    let key = VerificationError::MalformedVerifyingKey.message();
    let input = VerificationError::MalformedInput.message();
    let identity = VerificationError::UnexpectedIdentity.message();
    assert_eq!(key, "malformed verifying key");
    assert_eq!(input, "malformed prepared input");
    assert_eq!(identity, "unexpected identity");
}
