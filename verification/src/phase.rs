use vstd::prelude::*;

verus! {

/// How the emitters' initial phases are chosen.
#[derive(Copy, Clone, PartialEq, Eq, Structural, Debug, Hash)]
pub enum PhaseMode {
    Zero,
    Random,
    Focus,
    Vortex,
    Gradient,
    Chirp,
    Antiphase,
}

impl PhaseMode {
    /// Position of the variant in the picker order; also its shader id.
    pub open spec fn ordinal(self) -> nat {
        match self {
            PhaseMode::Zero => 0,
            PhaseMode::Random => 1,
            PhaseMode::Focus => 2,
            PhaseMode::Vortex => 3,
            PhaseMode::Gradient => 4,
            PhaseMode::Chirp => 5,
            PhaseMode::Antiphase => 6,
        }
    }

    pub open spec fn all_spec() -> Seq<PhaseMode> {
        seq![
            PhaseMode::Zero,
            PhaseMode::Random,
            PhaseMode::Focus,
            PhaseMode::Vortex,
            PhaseMode::Gradient,
            PhaseMode::Chirp,
            PhaseMode::Antiphase,
        ]
    }

    pub open spec fn spec_label(self) -> Seq<char> {
        match self {
            PhaseMode::Zero => "Zero"@,
            PhaseMode::Random => "Random"@,
            PhaseMode::Focus => "Focus"@,
            PhaseMode::Vortex => "Vortex"@,
            PhaseMode::Gradient => "Gradient"@,
            PhaseMode::Chirp => "Chirp"@,
            PhaseMode::Antiphase => "Antiphase"@,
        }
    }

    pub open spec fn spec_description(self) -> Seq<char> {
        match self {
            PhaseMode::Zero => "all in phase"@,
            PhaseMode::Random => "decorrelated speckle"@,
            PhaseMode::Focus => "φ = −k·r (focal spot at center)"@,
            PhaseMode::Vortex => "φ = m·θ (topological charge)"@,
            PhaseMode::Gradient => "φ = k·(p·n̂) (tilted plane wave)"@,
            PhaseMode::Chirp => "φ = α·t (frequency sweep)"@,
            PhaseMode::Antiphase => "alternate ±π every other emitter"@,
        }
    }

    pub open spec fn spec_uses_param_a(self) -> bool {
        ||| self == PhaseMode::Vortex
        ||| self == PhaseMode::Gradient
        ||| self == PhaseMode::Chirp
    }

    pub open spec fn spec_param_a_label(self) -> Seq<char> {
        match self {
            PhaseMode::Vortex => "m (charge)"@,
            PhaseMode::Gradient => "θ (rad)"@,
            PhaseMode::Chirp => "α (rad/s)"@,
            _ => ""@,
        }
    }

    /// Every variant exactly once, in picker order.
    pub fn all() -> (v: Vec<PhaseMode>)
        ensures
            v@ == Self::all_spec(),
    {
        vec![
            PhaseMode::Zero,
            PhaseMode::Random,
            PhaseMode::Focus,
            PhaseMode::Vortex,
            PhaseMode::Gradient,
            PhaseMode::Chirp,
            PhaseMode::Antiphase,
        ]
    }

    pub fn label(&self) -> (s: &'static str)
        ensures
            s@ == self.spec_label(),
    {
        match self {
            PhaseMode::Zero => "Zero",
            PhaseMode::Random => "Random",
            PhaseMode::Focus => "Focus",
            PhaseMode::Vortex => "Vortex",
            PhaseMode::Gradient => "Gradient",
            PhaseMode::Chirp => "Chirp",
            PhaseMode::Antiphase => "Antiphase",
        }
    }

    pub fn description(&self) -> (s: &'static str)
        ensures
            s@ == self.spec_description(),
    {
        match self {
            PhaseMode::Zero => "all in phase",
            PhaseMode::Random => "decorrelated speckle",
            PhaseMode::Focus => "φ = −k·r (focal spot at center)",
            PhaseMode::Vortex => "φ = m·θ (topological charge)",
            PhaseMode::Gradient => "φ = k·(p·n̂) (tilted plane wave)",
            PhaseMode::Chirp => "φ = α·t (frequency sweep)",
            PhaseMode::Antiphase => "alternate ±π every other emitter",
        }
    }

    /// The id the wave shader switches on.
    pub fn id(&self) -> (r: u32)
        ensures
            r == self.ordinal(),
    {
        match self {
            PhaseMode::Zero => 0,
            PhaseMode::Random => 1,
            PhaseMode::Focus => 2,
            PhaseMode::Vortex => 3,
            PhaseMode::Gradient => 4,
            PhaseMode::Chirp => 5,
            PhaseMode::Antiphase => 6,
        }
    }

    /// Whether the mode reads parameter a.
    pub fn uses_param_a(&self) -> (b: bool)
        ensures
            b == self.spec_uses_param_a(),
    {
        matches!(self, PhaseMode::Vortex | PhaseMode::Gradient | PhaseMode::Chirp)
    }

    /// Slider caption of parameter a; empty where the mode does not read it.
    pub fn param_a_label(&self) -> (s: &'static str)
        ensures
            s@ == self.spec_param_a_label(),
    {
        match self {
            PhaseMode::Vortex => "m (charge)",
            PhaseMode::Gradient => "θ (rad)",
            PhaseMode::Chirp => "α (rad/s)",
            _ => "",
        }
    }
}

/// The shader ids are exactly the picker positions: the list holds each mode
/// once, and the mode at position `i` has id `i`.
pub proof fn lemma_phase_ids_are_positions()
    ensures
        PhaseMode::all_spec().len() == 7,
        forall|i: int|
            0 <= i < PhaseMode::all_spec().len() ==> #[trigger] PhaseMode::all_spec()[i].ordinal() == i,
        forall|m: PhaseMode| #[trigger] PhaseMode::all_spec()[m.ordinal() as int] == m,
        forall|a: PhaseMode, b: PhaseMode| a.ordinal() == b.ordinal() ==> a == b,
        PhaseMode::all_spec().no_duplicates(),
{
}

/// A mode has a caption for parameter a exactly when it reads that parameter.
pub proof fn lemma_phase_param_a_label_iff_used(m: PhaseMode)
    ensures
        m.spec_uses_param_a() <==> m.spec_param_a_label().len() > 0,
{
    reveal_strlit("m (charge)");
    reveal_strlit("θ (rad)");
    reveal_strlit("α (rad/s)");
    reveal_strlit("");
}

/// The shader id of each phase mode is its declaration index: zero 0,
/// random 1, focus 2, vortex 3, gradient 4, chirp 5, antiphase 6.
pub proof fn lemma_phase_id_values()
    ensures
        PhaseMode::Zero.ordinal() == 0,
        PhaseMode::Random.ordinal() == 1,
        PhaseMode::Focus.ordinal() == 2,
        PhaseMode::Vortex.ordinal() == 3,
        PhaseMode::Gradient.ordinal() == 4,
        PhaseMode::Chirp.ordinal() == 5,
        PhaseMode::Antiphase.ordinal() == 6,
{
}

/// The picker tells the phase modes apart: every label is non-empty and no
/// two share one.
pub proof fn lemma_phase_labels_distinct(a: PhaseMode, b: PhaseMode)
    ensures
        a.spec_label().len() > 0,
        a.spec_label() == b.spec_label() ==> a == b,
{
    reveal_strlit("Zero");
    reveal_strlit("Random");
    reveal_strlit("Focus");
    reveal_strlit("Vortex");
    reveal_strlit("Gradient");
    reveal_strlit("Chirp");
    reveal_strlit("Antiphase");
    if a.spec_label() == b.spec_label() {
        assert(a.spec_label().len() == b.spec_label().len());
        assert(a.spec_label()[0] == b.spec_label()[0]);
        assert(a.spec_label()[1] == b.spec_label()[1]);
        assert(a.spec_label()[2] == b.spec_label()[2]);
        assert(a.spec_label()[3] == b.spec_label()[3]);
    }
}

} // verus!
