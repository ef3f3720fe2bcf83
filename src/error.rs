use vstd::prelude::*;

verus! {

/// Failures of setup, folding and verification, each kept apart from a
/// legitimate negative verdict.
#[derive(Clone, Copy, Debug, PartialEq, Eq, Structural)]
pub enum ProofError {
    /// The folding primitive's setup rejected the shape set or its sizing hints.
    Setup,
    /// A step's shape index has no entry in the public parameters, or the
    /// primitive rejected the fold.
    Fold,
    /// A trace with no step was handed to the prover.
    EmptyTrace,
    /// The verification primitive itself failed on a malformed proof.
    Verification,
    /// The operation, compression of a proof, is not supported.
    NotImplemented,
}

} // verus!
