use vstd::prelude::*;

use crate::error::ProofError;

verus! {

/// A field element, held as the four little-endian 64-bit limbs of its
/// canonical representative.
#[derive(Clone, Copy, Debug, PartialEq, Eq, Structural)]
pub struct Scalar {
    pub l0: u64,
    pub l1: u64,
    pub l2: u64,
    pub l3: u64,
}

impl Scalar {
    /// The element zero.
    pub fn zero() -> (r: Scalar)
        ensures
            r == Scalar::spec_from_u64(0),
    {
        Scalar { l0: 0, l1: 0, l2: 0, l3: 0 }
    }

    pub open spec fn spec_from_u64(v: u64) -> Scalar {
        Scalar { l0: v, l1: 0, l2: 0, l3: 0 }
    }

    /// The element whose representative is `v`.
    pub fn from_u64(v: u64) -> (r: Scalar)
        ensures
            r == Scalar::spec_from_u64(v),
    {
        Scalar { l0: v, l1: 0, l2: 0, l3: 0 }
    }
}

/// The fixed initial state of the secondary side: the trivial circuit there
/// neither reads nor changes it, so it is also the expected terminal state.
pub open spec fn spec_z0_secondary() -> Seq<Scalar> {
    seq![Scalar::spec_from_u64(0)]
}

/// The secondary side's initial state, the same for every trace.
pub fn z0_secondary() -> (r: Vec<Scalar>)
    ensures
        r@ == spec_z0_secondary(),
{
    let mut r: Vec<Scalar> = Vec::new();
    r.push(Scalar::zero());
    proof {
        assert(r@ =~= spec_z0_secondary());
    }
    r
}

/// Whether two states hold the same elements in the same order.
pub fn states_equal(a: &Vec<Scalar>, b: &Vec<Scalar>) -> (r: bool)
    ensures
        r == (a@ == b@),
{
    if a.len() != b.len() {
        return false;
    }
    let mut i: usize = 0;
    while i < a.len()
        invariant
            0 <= i <= a@.len(),
            a@.len() == b@.len(),
            forall|j: int| 0 <= j < i ==> a@[j] == b@[j],
        decreases a@.len() - i,
    {
        if a[i] != b[i] {
            return false;
        }
        i = i + 1;
    }
    proof {
        assert(a@ =~= b@);
    }
    true
}

/// What the verification primitive of an accumulator reported: the terminal
/// primary and secondary states that it claims, or a structural failure.
pub type VerifyOutcome = Result<(Vec<Scalar>, Vec<Scalar>), ProofError>;

/// The verdict on a claimed terminal state `zi`, given what the
/// verification primitive reported: true exactly when the primary terminal
/// state is `zi` and the secondary one is the fixed trivial state; a
/// failure of the primitive is `ProofError::Verification`.
pub open spec fn verdict(
    outcome: Result<(Seq<Scalar>, Seq<Scalar>), ProofError>,
    zi: Seq<Scalar>,
) -> Result<bool, ProofError> {
    match outcome {
        Ok((primary, secondary)) => Ok(primary == zi && secondary == spec_z0_secondary()),
        Err(_) => Err(ProofError::Verification),
    }
}

pub open spec fn outcome_view(outcome: &VerifyOutcome) -> Result<(Seq<Scalar>, Seq<Scalar>), ProofError> {
    match outcome {
        Ok((p, s)) => Ok((p@, s@)),
        Err(e) => Err(*e),
    }
}

/// Decides a verification from what the primitive reported for the
/// accumulator and the claimed terminal state `zi`. A false claim is
/// `Ok(false)`, never an error.
pub fn decide_verification(outcome: &VerifyOutcome, zi: &Vec<Scalar>) -> (r: Result<bool, ProofError>)
    ensures
        r == verdict(outcome_view(outcome), zi@),
{
    match outcome {
        Ok((primary, secondary)) => {
            let expected_secondary = z0_secondary();
            Ok(states_equal(primary, zi) && states_equal(secondary, &expected_secondary))
        },
        Err(_) => Err(ProofError::Verification),
    }
}

/// The result of folding: a live accumulator. A compressed, constant-size
/// certificate is not offered.
pub enum Proof<A> {
    /// The accumulator of all the folded steps.
    Recursive(A),
}

impl<A> Proof<A> {
    /// The accumulator that this proof holds.
    pub fn accumulator(&self) -> (r: &A)
        ensures
            *self == Proof::Recursive(*r),
    {
        match self {
            Proof::Recursive(a) => a,
        }
    }

    /// Compression of an accumulator into a certificate: not supported.
    pub fn compress(self) -> (r: Result<Proof<A>, ProofError>)
        ensures
            r == Err::<Proof<A>, ProofError>(ProofError::NotImplemented),
    {
        Err(ProofError::NotImplemented)
    }
}

/// Verifying a proof whose fold went through: where the primitive reports the
/// terminal state that the trace computed, and the fixed secondary state,
/// the verdict on that terminal state is true.
pub proof fn lemma_honest_claim_accepted(zi: Seq<Scalar>)
    ensures
        verdict(Ok((zi, spec_z0_secondary())), zi) == Ok::<bool, ProofError>(true),
{
}

/// Changing any one element of a correct terminal state makes the claim
/// false: the verdict is `Ok(false)`, neither an error nor true.
pub proof fn lemma_flipped_claim_rejected(
    zi: Seq<Scalar>,
    secondary: Seq<Scalar>,
    i: int,
    v: Scalar,
)
    requires
        0 <= i < zi.len(),
        v != zi[i],
    ensures
        verdict(Ok((zi, secondary)), zi.update(i, v)) == Ok::<bool, ProofError>(false),
{
    assert(zi.update(i, v)[i] != zi[i]);
}

} // verus!
