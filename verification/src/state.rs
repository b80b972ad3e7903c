use vstd::prelude::*;
use vstd::arithmetic::div_mod::{lemma_add_mod_noop, lemma_mod_bound};

verus! {

/// What the canvas shows.
#[derive(Copy, Clone, PartialEq, Eq, Structural, Debug, Hash)]
pub enum ColorMode {
    Real,
    Intensity,
    Domain,
    Spectral,
    Fft,
    Reaction,
    Fitzhugh,
}

/// Pointwise nonlinearity applied to the summed field.
#[derive(Copy, Clone, PartialEq, Eq, Structural, Debug, Hash)]
pub enum Nonlinearity {
    /// no nonlinearity
    Linear,
    Cubic,
    SoftThreshold,
    RadialSat,
    Membrane,
    PhaseWarp,
}

/// Amplitude fall-off with distance from an emitter.
#[derive(Copy, Clone, PartialEq, Eq, Structural, Debug, Hash)]
pub enum DecayMode {
    /// no decay
    Off,
    InvSqrtR,
    InvR,
}

impl ColorMode {
    /// The wave shader's colouring id: the FFT and the two reaction views
    /// post-process the real field, so they feed the shader the id of `Real`.
    pub open spec fn shader_id(self) -> nat {
        match self {
            ColorMode::Real => 0,
            ColorMode::Intensity => 1,
            ColorMode::Domain => 2,
            ColorMode::Spectral => 3,
            ColorMode::Fft => 0,
            ColorMode::Reaction => 0,
            ColorMode::Fitzhugh => 0,
        }
    }
}

impl DecayMode {
    pub open spec fn ordinal(self) -> nat {
        match self {
            DecayMode::Off => 0,
            DecayMode::InvSqrtR => 1,
            DecayMode::InvR => 2,
        }
    }
}

impl Nonlinearity {
    /// Position of the variant in the picker order; also its shader id.
    pub open spec fn ordinal(self) -> nat {
        match self {
            Nonlinearity::Linear => 0,
            Nonlinearity::Cubic => 1,
            Nonlinearity::SoftThreshold => 2,
            Nonlinearity::RadialSat => 3,
            Nonlinearity::Membrane => 4,
            Nonlinearity::PhaseWarp => 5,
        }
    }

    pub open spec fn all_spec() -> Seq<Nonlinearity> {
        seq![
            Nonlinearity::Linear,
            Nonlinearity::Cubic,
            Nonlinearity::SoftThreshold,
            Nonlinearity::RadialSat,
            Nonlinearity::Membrane,
            Nonlinearity::PhaseWarp,
        ]
    }

    pub open spec fn spec_label(self) -> Seq<char> {
        match self {
            Nonlinearity::Linear => "linear"@,
            Nonlinearity::Cubic => "cubic stiffen"@,
            Nonlinearity::SoftThreshold => "soft threshold"@,
            Nonlinearity::RadialSat => "radial saturate"@,
            Nonlinearity::Membrane => "membrane (binarize)"@,
            Nonlinearity::PhaseWarp => "phase warp"@,
        }
    }

    /// Every variant exactly once, in picker order.
    pub fn all() -> (v: Vec<Nonlinearity>)
        ensures
            v@ == Self::all_spec(),
    {
        vec![
            Nonlinearity::Linear,
            Nonlinearity::Cubic,
            Nonlinearity::SoftThreshold,
            Nonlinearity::RadialSat,
            Nonlinearity::Membrane,
            Nonlinearity::PhaseWarp,
        ]
    }

    /// The id the wave shader switches on.
    pub fn id(&self) -> (r: u32)
        ensures
            r == self.ordinal(),
    {
        match self {
            Nonlinearity::Linear => 0,
            Nonlinearity::Cubic => 1,
            Nonlinearity::SoftThreshold => 2,
            Nonlinearity::RadialSat => 3,
            Nonlinearity::Membrane => 4,
            Nonlinearity::PhaseWarp => 5,
        }
    }

    pub fn label(&self) -> (s: &'static str)
        ensures
            s@ == self.spec_label(),
    {
        match self {
            Nonlinearity::Linear => "linear",
            Nonlinearity::Cubic => "cubic stiffen",
            Nonlinearity::SoftThreshold => "soft threshold",
            Nonlinearity::RadialSat => "radial saturate",
            Nonlinearity::Membrane => "membrane (binarize)",
            Nonlinearity::PhaseWarp => "phase warp",
        }
    }
}

/// The shader ids of the nonlinearities are exactly their picker positions.
pub proof fn lemma_nonlinearity_ids_are_positions()
    ensures
        Nonlinearity::all_spec().len() == 6,
        forall|i: int|
            0 <= i < Nonlinearity::all_spec().len() ==> #[trigger] Nonlinearity::all_spec()[i].ordinal() == i,
        forall|n: Nonlinearity| #[trigger] Nonlinearity::all_spec()[n.ordinal() as int] == n,
        forall|a: Nonlinearity, b: Nonlinearity| a.ordinal() == b.ordinal() ==> a == b,
        Nonlinearity::all_spec().no_duplicates(),
{
}

/// The colouring id handed to the wave shader for `mode`.
pub fn color_mode_u32(mode: ColorMode) -> (r: u32)
    ensures
        r == mode.shader_id(),
{
    match mode {
        ColorMode::Real => 0,
        ColorMode::Intensity => 1,
        ColorMode::Domain => 2,
        ColorMode::Spectral => 3,
        ColorMode::Fft => 0,
        ColorMode::Reaction => 0,
        ColorMode::Fitzhugh => 0,
    }
}

/// The decay id handed to the wave shader for `mode`.
pub fn decay_mode_u32(mode: DecayMode) -> (r: u32)
    ensures
        r == mode.ordinal(),
{
    match mode {
        DecayMode::Off => 0,
        DecayMode::InvSqrtR => 1,
        DecayMode::InvR => 2,
    }
}

/// Shader ids: the views that the shader colours directly get distinct ids,
/// and every post-processed view is rendered like `Real`.
pub proof fn lemma_color_ids(a: ColorMode, b: ColorMode)
    ensures
        a.shader_id() < 4,
        (a == ColorMode::Fft || a == ColorMode::Reaction || a == ColorMode::Fitzhugh) ==> a.shader_id()
            == ColorMode::Real.shader_id(),
        (a == ColorMode::Real || a == ColorMode::Intensity || a == ColorMode::Domain || a
            == ColorMode::Spectral) && (b == ColorMode::Real || b == ColorMode::Intensity || b
            == ColorMode::Domain || b == ColorMode::Spectral) && a.shader_id() == b.shader_id() ==> a
            == b,
{
}

/// Default of a flag that is not stored in a preset and starts raised.
pub fn default_true() -> (b: bool)
    ensures
        b,
{
    true
}

/// The integer hash behind an emitter's phase seed: a multiply-add and two
/// xorshift-multiply rounds, all modulo 2³².
pub open spec fn phase_seed_bits_spec(i: u32) -> u32 {
    let s1 = ((i * 2654435761 + 0xdeadbeef) % 0x1_0000_0000) as u32;
    let s2 = s1 ^ (s1 >> 13u32);
    let s3 = ((s2 * 0x85ebca6b) % 0x1_0000_0000) as u32;
    s3 ^ (s3 >> 16u32)
}

/// Hash of emitter index `i`; divided by `u32::MAX` and scaled by 2π it is
/// the emitter's phase seed.
pub fn node_phase_seed_bits(i: u32) -> (r: u32)
    ensures
        r == phase_seed_bits_spec(i),
{
    let mut s = i.wrapping_mul(2_654_435_761).wrapping_add(0xdead_beef);
    proof {
        let m: int = 0x1_0000_0000;
        let p: int = i * 2654435761;
        lemma_add_mod_noop(p, 0xdeadbeef, m);
        lemma_mod_bound(p, m);
        assert(0xdeadbeefint % m == 0xdeadbeef);
    }
    s = s ^ (s >> 13);
    s = s.wrapping_mul(0x85eb_ca6b);
    s = s ^ (s >> 16);
    s
}

/// The shader id of each nonlinearity is its declaration index: linear 0,
/// cubic 1, soft threshold 2, radial saturation 3, membrane 4, phase warp 5.
pub proof fn lemma_nonlinearity_id_values()
    ensures
        Nonlinearity::Linear.ordinal() == 0,
        Nonlinearity::Cubic.ordinal() == 1,
        Nonlinearity::SoftThreshold.ordinal() == 2,
        Nonlinearity::RadialSat.ordinal() == 3,
        Nonlinearity::Membrane.ordinal() == 4,
        Nonlinearity::PhaseWarp.ordinal() == 5,
{
}

/// The decay ids: none 0, 1/√r 1, 1/r 2.
pub proof fn lemma_decay_id_values()
    ensures
        DecayMode::Off.ordinal() == 0,
        DecayMode::InvSqrtR.ordinal() == 1,
        DecayMode::InvR.ordinal() == 2,
{
}

/// The colouring ids: real part 0, intensity 1, domain colouring 2,
/// spectral 3; the FFT and both reaction views render the real part (0).
pub proof fn lemma_color_id_values()
    ensures
        ColorMode::Real.shader_id() == 0,
        ColorMode::Intensity.shader_id() == 1,
        ColorMode::Domain.shader_id() == 2,
        ColorMode::Spectral.shader_id() == 3,
        ColorMode::Fft.shader_id() == 0,
        ColorMode::Reaction.shader_id() == 0,
        ColorMode::Fitzhugh.shader_id() == 0,
{
}

/// The picker tells the nonlinearities apart: every label is non-empty and no
/// two share one.
pub proof fn lemma_nonlinearity_labels_distinct(a: Nonlinearity, b: Nonlinearity)
    ensures
        a.spec_label().len() > 0,
        a.spec_label() == b.spec_label() ==> a == b,
{
    reveal_strlit("linear");
    reveal_strlit("cubic stiffen");
    reveal_strlit("soft threshold");
    reveal_strlit("radial saturate");
    reveal_strlit("membrane (binarize)");
    reveal_strlit("phase warp");
    if a.spec_label() == b.spec_label() {
        assert(a.spec_label().len() == b.spec_label().len());
        assert(a.spec_label()[0] == b.spec_label()[0]);
        assert(a.spec_label()[1] == b.spec_label()[1]);
        assert(a.spec_label()[2] == b.spec_label()[2]);
        assert(a.spec_label()[3] == b.spec_label()[3]);
    }
}

} // verus!
