use vstd::prelude::*;

verus! {

/// The language whose reductions are proved: the extension operators it
/// offers, each of which contributes one circuit shape under non-uniform
/// folding.
#[derive(Debug)]
pub struct Lang {
    extensions: Vec<String>,
}

impl Lang {
    /// The names of the extension operators, in order.
    pub closed spec fn spec_extensions(&self) -> Seq<String> {
        self.extensions@
    }

    #[verifier::type_invariant]
    closed spec fn inv(&self) -> bool {
        self.extensions@.len() < usize::MAX
    }

    /// A language with the given extension operators.
    pub fn new(extensions: Vec<String>) -> (r: Lang)
        requires
            extensions@.len() < usize::MAX,
        ensures
            r.spec_extensions() == extensions@,
    {
        Lang { extensions }
    }

    /// The number of extension operators.
    pub fn extension_count(&self) -> (r: usize)
        ensures
            r == self.spec_extensions().len(),
            r < usize::MAX,
    {
        proof {
            use_type_invariant(self);
        }
        self.extensions.len()
    }
}

/// How the steps of a computation are folded.
#[derive(Clone, Copy, Debug, PartialEq, Eq, Structural)]
pub enum FoldingMode {
    /// One circuit shape for every step.
    IVC,
    /// One circuit shape per reduction rule, plus the base shape.
    NIVC,
}

/// A folding configuration: the language, the number of small-step
/// reductions per folding step, and whether folding is uniform.
#[derive(Debug)]
pub enum FoldingConfig {
    /// Uniform folding: a single circuit implements the language's reduction.
    IVC(Lang, usize),
    /// Non-uniform folding: each step uses one of a fixed set of circuits.
    NIVC(Lang, usize),
}

/// The number of circuit shapes that folding under `cfg` may need.
pub open spec fn spec_num_circuits(cfg: &FoldingConfig) -> nat {
    match cfg {
        FoldingConfig::IVC(..) => 1,
        FoldingConfig::NIVC(lang, _) => 1 + lang.spec_extensions().len(),
    }
}

impl FoldingConfig {
    pub open spec fn spec_lang(&self) -> &Lang {
        match self {
            FoldingConfig::IVC(lang, _) => lang,
            FoldingConfig::NIVC(lang, _) => lang,
        }
    }

    pub open spec fn spec_reduction_count(&self) -> usize {
        match self {
            FoldingConfig::IVC(_, rc) => *rc,
            FoldingConfig::NIVC(_, rc) => *rc,
        }
    }

    pub open spec fn is_uniform(&self) -> bool {
        self is IVC
    }

    /// A uniform configuration for `lang`.
    pub fn new_ivc(lang: Lang, reduction_count: usize) -> (r: FoldingConfig)
        ensures
            r.is_uniform(),
            r.spec_lang() == lang,
            r.spec_reduction_count() == reduction_count,
    {
        FoldingConfig::IVC(lang, reduction_count)
    }

    /// A non-uniform configuration for `lang`.
    pub fn new_nivc(lang: Lang, reduction_count: usize) -> (r: FoldingConfig)
        ensures
            !r.is_uniform(),
            r.spec_lang() == lang,
            r.spec_reduction_count() == reduction_count,
    {
        FoldingConfig::NIVC(lang, reduction_count)
    }

    /// The total number of circuit shapes potentially required when folding
    /// programs under this configuration.
    pub fn num_circuits(&self) -> (r: usize)
        ensures
            r == spec_num_circuits(self),
            self.is_uniform() ==> r == 1,
            !self.is_uniform() ==> r == 1 + self.spec_lang().spec_extensions().len(),
    {
        match self {
            FoldingConfig::IVC(..) => 1,
            FoldingConfig::NIVC(lang, _) => 1 + lang.extension_count(),
        }
    }

    /// The language of this configuration.
    pub fn lang(&self) -> (r: &Lang)
        ensures
            r == self.spec_lang(),
    {
        match self {
            FoldingConfig::IVC(lang, _) => lang,
            FoldingConfig::NIVC(lang, _) => lang,
        }
    }

    /// The number of small-step reductions per folding step.
    pub fn reduction_count(&self) -> (r: usize)
        ensures
            r == self.spec_reduction_count(),
    {
        match self {
            FoldingConfig::IVC(_, rc) => *rc,
            FoldingConfig::NIVC(_, rc) => *rc,
        }
    }
}

/// The number of shapes depends only on the kind of folding and on the
/// language: one for a uniform configuration, one more than the number of
/// extension operators for a non-uniform one, whatever the reduction count.
pub proof fn lemma_num_circuits(lang: Lang, rc: usize)
    ensures
        spec_num_circuits(&FoldingConfig::IVC(lang, rc)) == 1,
        spec_num_circuits(&FoldingConfig::NIVC(lang, rc)) == 1 + lang.spec_extensions().len(),
{
}

/// A prover for non-uniform folding over a language.
#[derive(Debug)]
pub struct SuperNovaProver {
    reduction_count: usize,
    lang: Lang,
    folding_mode: FoldingMode,
}

impl SuperNovaProver {
    pub closed spec fn spec_reduction_count(&self) -> usize {
        self.reduction_count
    }

    pub closed spec fn spec_lang(&self) -> Lang {
        self.lang
    }

    pub closed spec fn spec_folding_mode(&self) -> FoldingMode {
        self.folding_mode
    }

    /// A prover with the given reduction count and language; it folds
    /// non-uniformly.
    pub fn new(reduction_count: usize, lang: Lang) -> (r: SuperNovaProver)
        ensures
            r.spec_reduction_count() == reduction_count,
            r.spec_lang() == lang,
            r.spec_folding_mode() == FoldingMode::NIVC,
    {
        SuperNovaProver { reduction_count, lang, folding_mode: FoldingMode::NIVC }
    }

    pub fn reduction_count(&self) -> (r: usize)
        ensures
            r == self.spec_reduction_count(),
    {
        self.reduction_count
    }

    pub fn lang(&self) -> (r: &Lang)
        ensures
            *r == self.spec_lang(),
    {
        &self.lang
    }

    pub fn folding_mode(&self) -> (r: FoldingMode)
        ensures
            r == self.spec_folding_mode(),
    {
        self.folding_mode
    }

}

} // verus!
