use vstd::prelude::*;

use crate::error::ProofError;
use crate::verify::{spec_z0_secondary, verdict, Scalar};

verus! {

/// What the accumulator must do with the next step of a trace.
#[derive(Clone, Copy, Debug, PartialEq, Eq, Structural)]
pub enum FoldAction {
    /// Build a fresh accumulator from this first step and the initial
    /// states, then fold the step into it.
    CreateAndFold { shape_index: usize },
    /// Fold the step into the current accumulator.
    Fold { shape_index: usize },
}

/// The state of one folding run before it is finalized.
#[derive(Clone, Copy, Debug, PartialEq, Eq, Structural)]
pub enum FoldPhase {
    /// No step has been folded: there is no accumulator yet.
    Empty,
    /// At least one step has been folded into the accumulator.
    Folding,
}

/// The sequential driver of one folding run over public parameters that
/// cover `num_shapes` circuit shapes.
pub struct FoldEngine {
    num_shapes: usize,
    phase: FoldPhase,
    last_shape_index: usize,
    trace: Ghost<Seq<usize>>,
}

/// The action taken for step `i` of the accepted trace `shapes`.
pub open spec fn action_at(shapes: Seq<usize>, i: int) -> FoldAction {
    if i == 0 {
        FoldAction::CreateAndFold { shape_index: shapes[i] }
    } else {
        FoldAction::Fold { shape_index: shapes[i] }
    }
}

/// Every step of `shapes` has a shape that the public parameters cover.
pub open spec fn shapes_covered(num_shapes: usize, shapes: Seq<usize>) -> bool {
    forall|i: int| 0 <= i < shapes.len() ==> shapes[i] < num_shapes
}

/// The outcome of folding the trace `shapes`: the index of the shape of its
/// last step, or why it cannot be folded.
pub open spec fn fold_outcome(num_shapes: usize, shapes: Seq<usize>) -> Result<usize, ProofError> {
    if shapes.len() == 0 {
        Err(ProofError::EmptyTrace)
    } else if !shapes_covered(num_shapes, shapes) {
        Err(ProofError::Fold)
    } else {
        Ok(shapes.last())
    }
}

impl FoldEngine {
    /// The number of shapes that the public parameters cover.
    pub closed spec fn spec_num_shapes(&self) -> usize {
        self.num_shapes
    }

    pub closed spec fn spec_phase(&self) -> FoldPhase {
        self.phase
    }

    /// The shape indices of the steps folded so far, in order.
    pub closed spec fn spec_trace(&self) -> Seq<usize> {
        self.trace@
    }

    /// The engine's parts agree: the phase says whether a step was folded,
    /// every folded step has a covered shape, and the last shape index is
    /// that of the last folded step.
    pub closed spec fn wf(&self) -> bool {
        &&& (self.phase == FoldPhase::Empty <==> self.trace@.len() == 0)
        &&& shapes_covered(self.num_shapes, self.trace@)
        &&& (self.trace@.len() > 0 ==> self.last_shape_index == self.trace@.last())
    }

    /// A run with no step folded yet.
    pub fn new(num_shapes: usize) -> (r: FoldEngine)
        ensures
            r.wf(),
            r.spec_num_shapes() == num_shapes,
            r.spec_phase() == FoldPhase::Empty,
            r.spec_trace() == Seq::<usize>::empty(),
    {
        FoldEngine {
            num_shapes,
            phase: FoldPhase::Empty,
            last_shape_index: 0,
            trace: Ghost(Seq::empty()),
        }
    }

    /// The current phase.
    pub fn phase(&self) -> (r: FoldPhase)
        ensures
            r == self.spec_phase(),
    {
        self.phase
    }

    /// Takes the next step of the trace, whose circuit has shape
    /// `shape_index`, and says what the accumulator must do with it. A shape
    /// that the public parameters do not cover is refused with
    /// `ProofError::Fold`, and the run is left as it was.
    pub fn accept_step(&mut self, shape_index: usize) -> (r: Result<FoldAction, ProofError>)
        requires
            old(self).wf(),
        ensures
            final(self).wf(),
            final(self).spec_num_shapes() == old(self).spec_num_shapes(),
            shape_index >= old(self).spec_num_shapes() ==> {
                &&& r == Err::<FoldAction, ProofError>(ProofError::Fold)
                &&& *final(self) == *old(self)
            },
            shape_index < old(self).spec_num_shapes() ==> {
                &&& final(self).spec_phase() == FoldPhase::Folding
                &&& final(self).spec_trace() == old(self).spec_trace().push(shape_index)
                &&& r == Ok::<FoldAction, ProofError>(
                    action_at(final(self).spec_trace(), old(self).spec_trace().len() as int),
                )
            },
    {
        if shape_index >= self.num_shapes {
            return Err(ProofError::Fold);
        }
        let action = match self.phase {
            FoldPhase::Empty => FoldAction::CreateAndFold { shape_index },
            FoldPhase::Folding => FoldAction::Fold { shape_index },
        };
        self.phase = FoldPhase::Folding;
        self.last_shape_index = shape_index;
        self.trace = Ghost(self.trace@.push(shape_index));
        Ok(action)
    }

    /// Ends the run: the index of the shape of the last folded step, or
    /// `ProofError::EmptyTrace` where no step was folded.
    pub fn finish(self) -> (r: Result<usize, ProofError>)
        requires
            self.wf(),
        ensures
            r == fold_outcome(self.spec_num_shapes(), self.spec_trace()),
    {
        match self.phase {
            FoldPhase::Empty => Err(ProofError::EmptyTrace),
            FoldPhase::Folding => Ok(self.last_shape_index),
        }
    }
}

/// Plans the fold of a whole trace, given the shape index of each of its
/// steps: one action per step, in trace order, the first of which creates
/// the accumulator, and the shape index of the last step. An empty trace is
/// refused with `ProofError::EmptyTrace`, and a trace with a step whose
/// shape the public parameters do not cover with `ProofError::Fold`.
pub fn fold_schedule(num_shapes: usize, shapes: &Vec<usize>) -> (r: Result<
    (Vec<FoldAction>, usize),
    ProofError,
>)
    ensures
        r is Err <==> fold_outcome(num_shapes, shapes@) is Err,
        r is Err ==> r->Err_0 == fold_outcome(num_shapes, shapes@)->Err_0,
        r is Ok ==> {
            let (actions, last) = r->Ok_0;
            &&& Ok::<usize, ProofError>(last) == fold_outcome(num_shapes, shapes@)
            &&& actions@.len() == shapes@.len()
            &&& forall|i: int| 0 <= i < shapes@.len() ==> actions@[i] == action_at(shapes@, i)
        },
{
    let mut engine = FoldEngine::new(num_shapes);
    let mut actions: Vec<FoldAction> = Vec::new();
    let mut i: usize = 0;
    while i < shapes.len()
        invariant
            0 <= i <= shapes@.len(),
            engine.wf(),
            engine.spec_num_shapes() == num_shapes,
            engine.spec_trace() == shapes@.subrange(0, i as int),
            actions@.len() == i,
            forall|j: int| 0 <= j < i ==> actions@[j] == action_at(shapes@, j),
        decreases shapes@.len() - i,
    {
        match engine.accept_step(shapes[i]) {
            Ok(action) => {
                actions.push(action);
            },
            Err(e) => {
                assert(shapes@[i as int] >= num_shapes);
                assert(!shapes_covered(num_shapes, shapes@));
                return Err(e);
            },
        }
        i = i + 1;
        assert(engine.spec_trace() == shapes@.subrange(0, i as int));
    }
    assert(shapes@.subrange(0, i as int) == shapes@);
    match engine.finish() {
        Ok(last) => Ok((actions, last)),
        Err(e) => Err(e),
    }
}

/// Setup parameters produced by the folding primitive for a set of circuit
/// shapes, with the number of shapes they cover and their scheme digest.
pub struct PublicParams<P> {
    pp: P,
    num_shapes: usize,
    digest: Scalar,
}

impl<P> PublicParams<P> {
    pub closed spec fn spec_pp(&self) -> P {
        self.pp
    }

    pub closed spec fn spec_num_shapes(&self) -> usize {
        self.num_shapes
    }

    pub closed spec fn spec_digest(&self) -> Scalar {
        self.digest
    }

    /// Parameters `pp` that cover shapes `0..num_shapes`, with scheme digest
    /// `digest`.
    pub fn new(pp: P, num_shapes: usize, digest: Scalar) -> (r: PublicParams<P>)
        ensures
            r.spec_pp() == pp,
            r.spec_num_shapes() == num_shapes,
            r.spec_digest() == digest,
    {
        PublicParams { pp, num_shapes, digest }
    }

    /// The parameters themselves.
    pub fn params(&self) -> (r: &P)
        ensures
            *r == self.spec_pp(),
    {
        &self.pp
    }

    /// The digest that summarizes the whole parameter set.
    pub fn digest(&self) -> (r: Scalar)
        ensures
            r == self.spec_digest(),
    {
        self.digest
    }

    /// The number of shapes covered.
    pub fn num_shapes(&self) -> (r: usize)
        ensures
            r == self.spec_num_shapes(),
    {
        self.num_shapes
    }

    /// A folding run over these parameters.
    pub fn fold_engine(&self) -> (r: FoldEngine)
        ensures
            r.wf(),
            r.spec_num_shapes() == self.spec_num_shapes(),
            r.spec_phase() == FoldPhase::Empty,
            r.spec_trace() == Seq::<usize>::empty(),
    {
        FoldEngine::new(self.num_shapes)
    }
}

/// A non-empty trace whose shapes the parameters cover folds, and the
/// verdict on the terminal state that it computed is true, once the
/// primitive reports that state and the fixed secondary state.
pub proof fn lemma_fold_then_verify(num_shapes: usize, shapes: Seq<usize>, zi: Seq<Scalar>)
    requires
        shapes.len() > 0,
        shapes_covered(num_shapes, shapes),
    ensures
        fold_outcome(num_shapes, shapes) == Ok::<usize, ProofError>(shapes.last()),
        verdict(Ok((zi, spec_z0_secondary())), zi) == Ok::<bool, ProofError>(true),
{
}

/// A non-empty trace with a step whose shape index the parameters do not
/// cover fails with `ProofError::Fold`: it yields no proof.
pub proof fn lemma_uncovered_shape_fails(num_shapes: usize, shapes: Seq<usize>, i: int)
    requires
        0 <= i < shapes.len(),
        shapes[i] >= num_shapes,
    ensures
        fold_outcome(num_shapes, shapes) == Err::<usize, ProofError>(ProofError::Fold),
{
}

} // verus!
