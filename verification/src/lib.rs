//! Groth16 proof verification over a pairing-friendly curve.
//!
//! The protocol is written once against [`curve::PairingCurve`], an
//! interface to the group and pairing arithmetic whose operations are known
//! to the verifier only by name. What is proved here is the shape of the
//! protocol: which elements are negated, which pairs enter the pairing
//! product and in which order, what the verdict is compared against, and on
//! exactly which inputs each error is returned. The arithmetic itself is
//! done by the arkworks crates and is trusted; [`bn254`] binds the interface
//! to the BN254 curve.

pub mod bn254;
pub mod curve;
pub mod error;
pub mod groth16;
pub mod keys;
pub mod laws;

pub use crate::bn254::Bn254;
pub use crate::curve::PairingCurve;
pub use crate::error::VerificationError;
pub use crate::groth16::{
    checked_prepare_verifying_key, decode_prepared_input, prepare_inputs, prepare_verifying_key,
    verdict, verify_proof, verify_proof_with_prepared_inputs,
    verify_proof_with_prepared_inputs_serialised,
};
pub use crate::keys::{PreparedVerifyingKey, Proof, VerifyingKey};
