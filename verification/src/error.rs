//! The ways in which verification can fail without reaching a verdict.

use vstd::prelude::*;

verus! {

/// A structural failure. None of these says that a proof was rejected: a
/// rejected proof is the verdict `Ok(false)`.
#[derive(Clone, Copy, Debug, PartialEq, Eq, Structural)]
pub enum VerificationError {
    /// The number of public inputs does not fit the verifying key.
    MalformedVerifyingKey,
    /// A serialised prepared input has the wrong length or does not decode
    /// to a group element.
    MalformedInput,
    /// The pairing product cannot be exponentiated: proof or key material
    /// is degenerate.
    UnexpectedIdentity,
}

impl VerificationError {
    /// The text that describes the error.
    pub open spec fn message_value(self) -> Seq<char> {
        match self {
            VerificationError::MalformedVerifyingKey => "malformed verifying key"@,
            VerificationError::MalformedInput => "malformed prepared input"@,
            VerificationError::UnexpectedIdentity => "unexpected identity"@,
        }
    }

    /// A short description of the error, for people.
    pub fn message(&self) -> (s: &'static str)
        ensures
            s@ == self.message_value(),
    {
        match self {
            VerificationError::MalformedVerifyingKey => "malformed verifying key",
            VerificationError::MalformedInput => "malformed prepared input",
            VerificationError::UnexpectedIdentity => "unexpected identity",
        }
    }
}

} // verus!
