//! The ways in which a proof run can fail.

use vstd::prelude::*;

verus! {

/// Why a trace or a proof was not accepted.
#[derive(Clone, Copy, Debug, PartialEq, Eq, Structural)]
pub enum ProofInvalid {
    /// The prover's and the verifier's configurations differ.
    ConfigMismatch,
    /// The trace fails a first-row, transition or last-row constraint.
    ConstraintViolation,
    /// The openings do not check out against the verifier's transcript.
    TranscriptMismatch,
    /// The trace does not have the shape the AIR asks for, or holds a cell
    /// that is no element of the field.
    MalformedTrace,
    /// The proof does not have the shape the verifier expects.
    MalformedProof,
}

} // verus!
