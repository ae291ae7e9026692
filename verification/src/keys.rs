//! Verifying keys, prepared verifying keys and proofs.

use crate::curve::{pairing_value, PairingCurve};
use vstd::prelude::*;

verus! {

/// The public parameters of one circuit.
pub struct VerifyingKey<E: PairingCurve> {
    pub alpha_g1: E::G1Affine,
    pub beta_g2: E::G2Affine,
    pub gamma_g2: E::G2Affine,
    pub delta_g2: E::G2Affine,
    /// The bases of the public-input commitment: one for the constant term,
    /// then one for each public input, in the circuit's order.
    pub gamma_abc_g1: Vec<E::G1Affine>,
}

/// A verifying key as a mathematical value.
pub struct VerifyingKeyView<E: PairingCurve> {
    pub alpha_g1: E::G1Affine,
    pub beta_g2: E::G2Affine,
    pub gamma_g2: E::G2Affine,
    pub delta_g2: E::G2Affine,
    pub gamma_abc_g1: Seq<E::G1Affine>,
}

impl<E: PairingCurve> View for VerifyingKey<E> {
    type V = VerifyingKeyView<E>;

    open spec fn view(&self) -> VerifyingKeyView<E> {
        VerifyingKeyView {
            alpha_g1: self.alpha_g1,
            beta_g2: self.beta_g2,
            gamma_g2: self.gamma_g2,
            delta_g2: self.delta_g2,
            gamma_abc_g1: self.gamma_abc_g1@,
        }
    }
}

impl<E: PairingCurve> Clone for VerifyingKey<E> {
    fn clone(&self) -> (r: Self)
        ensures
            r@ == self@,
    {
        let n = self.gamma_abc_g1.len();
        let mut bases: Vec<E::G1Affine> = Vec::new();
        let mut i: usize = 0;
        while i < n
            invariant
                n == self.gamma_abc_g1.len(),
                i <= n,
                bases@ == self.gamma_abc_g1@.take(i as int),
            decreases n - i,
        {
            bases.push(self.gamma_abc_g1[i]);
            i += 1;
            assert(bases@ =~= self.gamma_abc_g1@.take(i as int));
        }
        assert(bases@ =~= self.gamma_abc_g1@);
        VerifyingKey {
            alpha_g1: self.alpha_g1,
            beta_g2: self.beta_g2,
            gamma_g2: self.gamma_g2,
            delta_g2: self.delta_g2,
            gamma_abc_g1: bases,
        }
    }
}

/// A Groth16 proof: untrusted input, one per verification.
pub struct Proof<E: PairingCurve> {
    pub a: E::G1Affine,
    pub b: E::G2Affine,
    pub c: E::G1Affine,
}

impl<E: PairingCurve> Clone for Proof<E> {
    fn clone(&self) -> (r: Self)
        ensures
            r == *self,
    {
        Proof { a: self.a, b: self.b, c: self.c }
    }
}

/// A verifying key together with what every verification against it needs
/// and none should recompute: the pairing of `alpha_g1` with `beta_g2`, and
/// the negated `gamma_g2` and `delta_g2` in pairing-ready form.
///
/// The derived values always belong to the key they are stored with. They
/// cannot be set from outside; the view of a prepared key is its key.
pub struct PreparedVerifyingKey<E: PairingCurve> {
    vk: VerifyingKey<E>,
    alpha_g1_beta_g2: E::Fqk,
    gamma_g2_neg_pc: E::G2Prepared,
    delta_g2_neg_pc: E::G2Prepared,
}

impl<E: PairingCurve> View for PreparedVerifyingKey<E> {
    type V = VerifyingKeyView<E>;

    closed spec fn view(&self) -> VerifyingKeyView<E> {
        self.vk@
    }
}

impl<E: PairingCurve> PreparedVerifyingKey<E> {
    /// The stored pairing of `alpha_g1` with `beta_g2`.
    pub closed spec fn spec_alpha_g1_beta_g2(&self) -> E::Fqk {
        self.alpha_g1_beta_g2
    }

    /// The stored pairing-ready form of the negated `gamma_g2`.
    pub closed spec fn spec_gamma_g2_neg_pc(&self) -> E::G2Prepared {
        self.gamma_g2_neg_pc
    }

    /// The stored pairing-ready form of the negated `delta_g2`.
    pub closed spec fn spec_delta_g2_neg_pc(&self) -> E::G2Prepared {
        self.delta_g2_neg_pc
    }

    /// The derived values are those of the key.
    #[verifier::type_invariant]
    pub open spec fn wf(&self) -> bool {
        &&& pairing_value::<E>(self@.alpha_g1, self@.beta_g2) == Some(self.spec_alpha_g1_beta_g2())
        &&& self.spec_gamma_g2_neg_pc() == E::g2_prepare_value(E::g2_neg_value(self@.gamma_g2))
        &&& self.spec_delta_g2_neg_pc() == E::g2_prepare_value(E::g2_neg_value(self@.delta_g2))
    }

    /// Puts a key and its derived values together.
    pub(crate) fn from_parts(
        vk: VerifyingKey<E>,
        alpha_g1_beta_g2: E::Fqk,
        gamma_g2_neg_pc: E::G2Prepared,
        delta_g2_neg_pc: E::G2Prepared,
    ) -> (pvk: Self)
        requires
            pairing_value::<E>(vk.alpha_g1, vk.beta_g2) == Some(alpha_g1_beta_g2),
            gamma_g2_neg_pc == E::g2_prepare_value(E::g2_neg_value(vk.gamma_g2)),
            delta_g2_neg_pc == E::g2_prepare_value(E::g2_neg_value(vk.delta_g2)),
        ensures
            pvk@ == vk@,
            pvk.wf(),
    {
        PreparedVerifyingKey { vk, alpha_g1_beta_g2, gamma_g2_neg_pc, delta_g2_neg_pc }
    }

    /// The key that was prepared.
    pub fn vk(&self) -> (vk: &VerifyingKey<E>)
        ensures
            vk@ == self@,
    {
        &self.vk
    }

    /// The pairing of the key's `alpha_g1` with its `beta_g2`.
    pub fn alpha_g1_beta_g2(&self) -> (r: E::Fqk)
        ensures
            r == self.spec_alpha_g1_beta_g2(),
            pairing_value::<E>(self@.alpha_g1, self@.beta_g2) == Some(r),
    {
        proof {
            use_type_invariant(self);
        }
        self.alpha_g1_beta_g2
    }

    /// The pairing-ready form of the key's negated `gamma_g2`.
    pub fn gamma_g2_neg_pc(&self) -> (r: &E::G2Prepared)
        ensures
            *r == self.spec_gamma_g2_neg_pc(),
            *r == E::g2_prepare_value(E::g2_neg_value(self@.gamma_g2)),
    {
        proof {
            use_type_invariant(self);
        }
        &self.gamma_g2_neg_pc
    }

    /// The pairing-ready form of the key's negated `delta_g2`.
    pub fn delta_g2_neg_pc(&self) -> (r: &E::G2Prepared)
        ensures
            *r == self.spec_delta_g2_neg_pc(),
            *r == E::g2_prepare_value(E::g2_neg_value(self@.delta_g2)),
    {
        proof {
            use_type_invariant(self);
        }
        &self.delta_g2_neg_pc
    }
}

} // verus!
