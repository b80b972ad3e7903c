use vstd::prelude::*;

verus! {

/// Radial profile k(r) of the emitters' wavenumber.
#[derive(Copy, Clone, PartialEq, Eq, Structural, Debug, Hash)]
pub enum FrequencyFn {
    Constant,
    Linear,
    Inverse,
    Quadratic,
    Cosine,
    Gaussian,
    Step,
    Sigmoid,
    Sawtooth,
    ExpDecay,
}

impl FrequencyFn {
    /// Position of the variant in the picker order.
    pub open spec fn ordinal(self) -> nat {
        match self {
            FrequencyFn::Constant => 0,
            FrequencyFn::Linear => 1,
            FrequencyFn::Inverse => 2,
            FrequencyFn::Quadratic => 3,
            FrequencyFn::Cosine => 4,
            FrequencyFn::Gaussian => 5,
            FrequencyFn::Step => 6,
            FrequencyFn::Sigmoid => 7,
            FrequencyFn::Sawtooth => 8,
            FrequencyFn::ExpDecay => 9,
        }
    }

    /// Every variant, in picker order.
    pub open spec fn all_spec() -> Seq<FrequencyFn> {
        seq![
            FrequencyFn::Constant,
            FrequencyFn::Linear,
            FrequencyFn::Inverse,
            FrequencyFn::Quadratic,
            FrequencyFn::Cosine,
            FrequencyFn::Gaussian,
            FrequencyFn::Step,
            FrequencyFn::Sigmoid,
            FrequencyFn::Sawtooth,
            FrequencyFn::ExpDecay,
        ]
    }

    pub open spec fn spec_label(self) -> Seq<char> {
        match self {
            FrequencyFn::Constant => "Constant"@,
            FrequencyFn::Linear => "Linear"@,
            FrequencyFn::Inverse => "Inverse"@,
            FrequencyFn::Quadratic => "Quadratic"@,
            FrequencyFn::Cosine => "Cosine"@,
            FrequencyFn::Gaussian => "Gaussian"@,
            FrequencyFn::Step => "Step"@,
            FrequencyFn::Sigmoid => "Sigmoid"@,
            FrequencyFn::Sawtooth => "Sawtooth"@,
            FrequencyFn::ExpDecay => "Exp. decay"@,
        }
    }

    pub open spec fn spec_formula(self) -> Seq<char> {
        match self {
            FrequencyFn::Constant => "k₀"@,
            FrequencyFn::Linear => "k₀·(1 + α·r)"@,
            FrequencyFn::Inverse => "k₀ / (1 + α·r)"@,
            FrequencyFn::Quadratic => "k₀·(1 + α·r²)"@,
            FrequencyFn::Cosine => "k₀·(1 + α·cos β·r)"@,
            FrequencyFn::Gaussian => "k₀·(1 + α·e^(−β·r²))"@,
            FrequencyFn::Step => "k₀ if r<½ else (1+α)·k₀"@,
            FrequencyFn::Sigmoid => "k₀·(1 + α·σ(β(r−½)))"@,
            FrequencyFn::Sawtooth => "k₀·(1 + α·frac(β·r))"@,
            FrequencyFn::ExpDecay => "k₀·(1 + α·e^(−β·r))"@,
        }
    }

    pub open spec fn spec_uses_alpha(self) -> bool {
        self != FrequencyFn::Constant
    }

    pub open spec fn spec_uses_beta(self) -> bool {
        ||| self == FrequencyFn::Cosine
        ||| self == FrequencyFn::Gaussian
        ||| self == FrequencyFn::Sigmoid
        ||| self == FrequencyFn::Sawtooth
        ||| self == FrequencyFn::ExpDecay
    }

    /// Every variant exactly once, in picker order.
    pub fn all() -> (v: Vec<FrequencyFn>)
        ensures
            v@ == Self::all_spec(),
    {
        vec![
            FrequencyFn::Constant,
            FrequencyFn::Linear,
            FrequencyFn::Inverse,
            FrequencyFn::Quadratic,
            FrequencyFn::Cosine,
            FrequencyFn::Gaussian,
            FrequencyFn::Step,
            FrequencyFn::Sigmoid,
            FrequencyFn::Sawtooth,
            FrequencyFn::ExpDecay,
        ]
    }

    /// Short name shown in the picker.
    pub fn label(&self) -> (s: &'static str)
        ensures
            s@ == self.spec_label(),
    {
        match self {
            FrequencyFn::Constant => "Constant",
            FrequencyFn::Linear => "Linear",
            FrequencyFn::Inverse => "Inverse",
            FrequencyFn::Quadratic => "Quadratic",
            FrequencyFn::Cosine => "Cosine",
            FrequencyFn::Gaussian => "Gaussian",
            FrequencyFn::Step => "Step",
            FrequencyFn::Sigmoid => "Sigmoid",
            FrequencyFn::Sawtooth => "Sawtooth",
            FrequencyFn::ExpDecay => "Exp. decay",
        }
    }

    /// The formula of k(r), with base wavenumber k₀ and parameters α, β.
    pub fn formula(&self) -> (s: &'static str)
        ensures
            s@ == self.spec_formula(),
    {
        match self {
            FrequencyFn::Constant => "k₀",
            FrequencyFn::Linear => "k₀·(1 + α·r)",
            FrequencyFn::Inverse => "k₀ / (1 + α·r)",
            FrequencyFn::Quadratic => "k₀·(1 + α·r²)",
            FrequencyFn::Cosine => "k₀·(1 + α·cos β·r)",
            FrequencyFn::Gaussian => "k₀·(1 + α·e^(−β·r²))",
            FrequencyFn::Step => "k₀ if r<½ else (1+α)·k₀",
            FrequencyFn::Sigmoid => "k₀·(1 + α·σ(β(r−½)))",
            FrequencyFn::Sawtooth => "k₀·(1 + α·frac(β·r))",
            FrequencyFn::ExpDecay => "k₀·(1 + α·e^(−β·r))",
        }
    }

    /// Whether the profile depends on α.
    pub fn uses_alpha(&self) -> (b: bool)
        ensures
            b == self.spec_uses_alpha(),
    {
        !matches!(self, FrequencyFn::Constant)
    }

    /// Whether the profile depends on β.
    pub fn uses_beta(&self) -> (b: bool)
        ensures
            b == self.spec_uses_beta(),
    {
        matches!(
            self,
            FrequencyFn::Cosine | FrequencyFn::Gaussian | FrequencyFn::Sigmoid
                | FrequencyFn::Sawtooth | FrequencyFn::ExpDecay
        )
    }
}

/// The picker lists every profile exactly once: position `i` holds the
/// variant of ordinal `i`, and each variant sits at its ordinal.
pub proof fn lemma_frequency_all_complete()
    ensures
        FrequencyFn::all_spec().len() == 10,
        forall|i: int|
            0 <= i < FrequencyFn::all_spec().len() ==> #[trigger] FrequencyFn::all_spec()[i].ordinal() == i,
        forall|k: FrequencyFn| #[trigger] FrequencyFn::all_spec()[k.ordinal() as int] == k,
        FrequencyFn::all_spec().no_duplicates(),
{
}

/// Every profile that reads β also reads α.
pub proof fn lemma_beta_implies_alpha(f: FrequencyFn)
    ensures
        f.spec_uses_beta() ==> f.spec_uses_alpha(),
{
}

/// The picker order of the profiles is their declaration order.
pub proof fn lemma_frequency_order()
    ensures
        FrequencyFn::Constant.ordinal() == 0,
        FrequencyFn::Linear.ordinal() == 1,
        FrequencyFn::Inverse.ordinal() == 2,
        FrequencyFn::Quadratic.ordinal() == 3,
        FrequencyFn::Cosine.ordinal() == 4,
        FrequencyFn::Gaussian.ordinal() == 5,
        FrequencyFn::Step.ordinal() == 6,
        FrequencyFn::Sigmoid.ordinal() == 7,
        FrequencyFn::Sawtooth.ordinal() == 8,
        FrequencyFn::ExpDecay.ordinal() == 9,
{
}

/// The sliders follow the formula: a profile reads α exactly when its
/// formula k(r) mentions α, and β exactly when it mentions β.
pub proof fn lemma_parameters_follow_formula(f: FrequencyFn)
    ensures
        f.spec_uses_alpha() <==> f.spec_formula().contains('α'),
        f.spec_uses_beta() <==> f.spec_formula().contains('β'),
{
    reveal_strlit("k₀");
    reveal_strlit("k₀·(1 + α·r)");
    reveal_strlit("k₀ / (1 + α·r)");
    reveal_strlit("k₀·(1 + α·r²)");
    reveal_strlit("k₀·(1 + α·cos β·r)");
    reveal_strlit("k₀·(1 + α·e^(−β·r²))");
    reveal_strlit("k₀ if r<½ else (1+α)·k₀");
    reveal_strlit("k₀·(1 + α·σ(β(r−½)))");
    reveal_strlit("k₀·(1 + α·frac(β·r))");
    reveal_strlit("k₀·(1 + α·e^(−β·r))");
    match f {
        FrequencyFn::Constant => {},
        FrequencyFn::Linear => { assert(f.spec_formula()[8] == 'α'); },
        FrequencyFn::Inverse => { assert(f.spec_formula()[10] == 'α'); },
        FrequencyFn::Quadratic => { assert(f.spec_formula()[8] == 'α'); },
        FrequencyFn::Cosine => { assert(f.spec_formula()[8] == 'α'); assert(f.spec_formula()[14] == 'β'); },
        FrequencyFn::Gaussian => { assert(f.spec_formula()[8] == 'α'); assert(f.spec_formula()[14] == 'β'); },
        FrequencyFn::Step => { assert(f.spec_formula()[18] == 'α'); },
        FrequencyFn::Sigmoid => { assert(f.spec_formula()[8] == 'α'); assert(f.spec_formula()[12] == 'β'); },
        FrequencyFn::Sawtooth => { assert(f.spec_formula()[8] == 'α'); assert(f.spec_formula()[15] == 'β'); },
        FrequencyFn::ExpDecay => { assert(f.spec_formula()[8] == 'α'); assert(f.spec_formula()[14] == 'β'); },
    }
}

/// The picker tells the profiles apart: every label is non-empty and no two
/// profiles share one.
pub proof fn lemma_frequency_labels_distinct(a: FrequencyFn, b: FrequencyFn)
    ensures
        a.spec_label().len() > 0,
        a.spec_label() == b.spec_label() ==> a == b,
{
    reveal_strlit("Constant");
    reveal_strlit("Linear");
    reveal_strlit("Inverse");
    reveal_strlit("Quadratic");
    reveal_strlit("Cosine");
    reveal_strlit("Gaussian");
    reveal_strlit("Step");
    reveal_strlit("Sigmoid");
    reveal_strlit("Sawtooth");
    reveal_strlit("Exp. decay");
    if a.spec_label() == b.spec_label() {
        assert(a.spec_label().len() == b.spec_label().len());
        assert(a.spec_label()[0] == b.spec_label()[0]);
        assert(a.spec_label()[1] == b.spec_label()[1]);
        assert(a.spec_label()[2] == b.spec_label()[2]);
        assert(a.spec_label()[3] == b.spec_label()[3]);
    }
}

} // verus!
