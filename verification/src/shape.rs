use vstd::prelude::*;

verus! {

/// The phase metric of a single emitter's wave front.
#[derive(Copy, Clone, PartialEq, Eq, Structural, Debug, Hash)]
pub enum WaveShape {
    Circular,
    Petal,
    Wobbly,
    Elliptical,
    Diamond,
    Square,
    Plane,
    Spiral,
    Breathing,
}

impl WaveShape {
    /// Position of the variant in the picker order; also its shader id.
    pub open spec fn ordinal(self) -> nat {
        match self {
            WaveShape::Circular => 0,
            WaveShape::Petal => 1,
            WaveShape::Wobbly => 2,
            WaveShape::Elliptical => 3,
            WaveShape::Diamond => 4,
            WaveShape::Square => 5,
            WaveShape::Plane => 6,
            WaveShape::Spiral => 7,
            WaveShape::Breathing => 8,
        }
    }

    pub open spec fn all_spec() -> Seq<WaveShape> {
        seq![
            WaveShape::Circular,
            WaveShape::Petal,
            WaveShape::Wobbly,
            WaveShape::Elliptical,
            WaveShape::Diamond,
            WaveShape::Square,
            WaveShape::Plane,
            WaveShape::Spiral,
            WaveShape::Breathing,
        ]
    }

    pub open spec fn spec_label(self) -> Seq<char> {
        match self {
            WaveShape::Circular => "Circular"@,
            WaveShape::Petal => "Petal"@,
            WaveShape::Wobbly => "Wobbly"@,
            WaveShape::Elliptical => "Elliptical"@,
            WaveShape::Diamond => "Diamond"@,
            WaveShape::Square => "Square"@,
            WaveShape::Plane => "Plane"@,
            WaveShape::Spiral => "Spiral"@,
            WaveShape::Breathing => "Breathing"@,
        }
    }

    pub open spec fn spec_description(self) -> Seq<char> {
        match self {
            WaveShape::Circular => "k·d − ω·t"@,
            WaveShape::Petal => "k·d·(1+a·cos(n·φ))"@,
            WaveShape::Wobbly => "k·(d+a·sin(n·φ+ω_w·t))"@,
            WaveShape::Elliptical => "anisotropic metric"@,
            WaveShape::Diamond => "L1 metric |x|+|y|"@,
            WaveShape::Square => "L∞ metric max(|x|,|y|)"@,
            WaveShape::Plane => "k·(x·cos α + y·sin α)"@,
            WaveShape::Spiral => "k·d + m·φ"@,
            WaveShape::Breathing => "k·d + a·sin(b·t)"@,
        }
    }

    pub open spec fn spec_uses_param_a(self) -> bool {
        !(self == WaveShape::Circular || self == WaveShape::Diamond || self == WaveShape::Square)
    }

    pub open spec fn spec_uses_param_b(self) -> bool {
        ||| self == WaveShape::Petal
        ||| self == WaveShape::Wobbly
        ||| self == WaveShape::Elliptical
        ||| self == WaveShape::Breathing
    }

    pub open spec fn spec_param_a_label(self) -> Seq<char> {
        match self {
            WaveShape::Petal => "a (depth)"@,
            WaveShape::Wobbly => "a (depth)"@,
            WaveShape::Elliptical => "e (ecc.)"@,
            WaveShape::Plane => "α (rad)"@,
            WaveShape::Spiral => "m (charge)"@,
            WaveShape::Breathing => "a (depth)"@,
            _ => ""@,
        }
    }

    pub open spec fn spec_param_b_label(self) -> Seq<char> {
        match self {
            WaveShape::Petal => "n (lobes)"@,
            WaveShape::Wobbly => "n (lobes)"@,
            WaveShape::Elliptical => "θ (rot)"@,
            WaveShape::Breathing => "ω_b (rad/s)"@,
            _ => ""@,
        }
    }

    /// Every variant exactly once, in picker order.
    pub fn all() -> (v: Vec<WaveShape>)
        ensures
            v@ == Self::all_spec(),
    {
        vec![
            WaveShape::Circular,
            WaveShape::Petal,
            WaveShape::Wobbly,
            WaveShape::Elliptical,
            WaveShape::Diamond,
            WaveShape::Square,
            WaveShape::Plane,
            WaveShape::Spiral,
            WaveShape::Breathing,
        ]
    }

    pub fn label(&self) -> (s: &'static str)
        ensures
            s@ == self.spec_label(),
    {
        match self {
            WaveShape::Circular => "Circular",
            WaveShape::Petal => "Petal",
            WaveShape::Wobbly => "Wobbly",
            WaveShape::Elliptical => "Elliptical",
            WaveShape::Diamond => "Diamond",
            WaveShape::Square => "Square",
            WaveShape::Plane => "Plane",
            WaveShape::Spiral => "Spiral",
            WaveShape::Breathing => "Breathing",
        }
    }

    pub fn description(&self) -> (s: &'static str)
        ensures
            s@ == self.spec_description(),
    {
        match self {
            WaveShape::Circular => "k·d − ω·t",
            WaveShape::Petal => "k·d·(1+a·cos(n·φ))",
            WaveShape::Wobbly => "k·(d+a·sin(n·φ+ω_w·t))",
            WaveShape::Elliptical => "anisotropic metric",
            WaveShape::Diamond => "L1 metric |x|+|y|",
            WaveShape::Square => "L∞ metric max(|x|,|y|)",
            WaveShape::Plane => "k·(x·cos α + y·sin α)",
            WaveShape::Spiral => "k·d + m·φ",
            WaveShape::Breathing => "k·d + a·sin(b·t)",
        }
    }

    /// The id the wave shader switches on.
    pub fn id(&self) -> (r: u32)
        ensures
            r == self.ordinal(),
    {
        match self {
            WaveShape::Circular => 0,
            WaveShape::Petal => 1,
            WaveShape::Wobbly => 2,
            WaveShape::Elliptical => 3,
            WaveShape::Diamond => 4,
            WaveShape::Square => 5,
            WaveShape::Plane => 6,
            WaveShape::Spiral => 7,
            WaveShape::Breathing => 8,
        }
    }

    /// Whether the shape reads parameter a.
    pub fn uses_param_a(&self) -> (b: bool)
        ensures
            b == self.spec_uses_param_a(),
    {
        !matches!(self, WaveShape::Circular | WaveShape::Diamond | WaveShape::Square)
    }

    /// Whether the shape reads parameter b.
    pub fn uses_param_b(&self) -> (b: bool)
        ensures
            b == self.spec_uses_param_b(),
    {
        matches!(
            self,
            WaveShape::Petal | WaveShape::Wobbly | WaveShape::Elliptical | WaveShape::Breathing
        )
    }

    /// Slider caption of parameter a; empty where the shape does not read it.
    pub fn param_a_label(&self) -> (s: &'static str)
        ensures
            s@ == self.spec_param_a_label(),
    {
        match self {
            WaveShape::Petal => "a (depth)",
            WaveShape::Wobbly => "a (depth)",
            WaveShape::Elliptical => "e (ecc.)",
            WaveShape::Plane => "α (rad)",
            WaveShape::Spiral => "m (charge)",
            WaveShape::Breathing => "a (depth)",
            _ => "",
        }
    }

    /// Slider caption of parameter b; empty where the shape does not read it.
    pub fn param_b_label(&self) -> (s: &'static str)
        ensures
            s@ == self.spec_param_b_label(),
    {
        match self {
            WaveShape::Petal => "n (lobes)",
            WaveShape::Wobbly => "n (lobes)",
            WaveShape::Elliptical => "θ (rot)",
            WaveShape::Breathing => "ω_b (rad/s)",
            _ => "",
        }
    }
}

/// The shader ids are exactly the picker positions: the list holds each shape
/// once, and the shape at position `i` has id `i`.
pub proof fn lemma_shape_ids_are_positions()
    ensures
        WaveShape::all_spec().len() == 9,
        forall|i: int|
            0 <= i < WaveShape::all_spec().len() ==> #[trigger] WaveShape::all_spec()[i].ordinal() == i,
        forall|s: WaveShape| #[trigger] WaveShape::all_spec()[s.ordinal() as int] == s,
        forall|a: WaveShape, b: WaveShape| a.ordinal() == b.ordinal() ==> a == b,
        WaveShape::all_spec().no_duplicates(),
{
}

/// A shape has a caption for a parameter exactly when it reads that parameter,
/// and it reads b only if it reads a.
pub proof fn lemma_shape_param_labels_iff_used(s: WaveShape)
    ensures
        s.spec_uses_param_a() <==> s.spec_param_a_label().len() > 0,
        s.spec_uses_param_b() <==> s.spec_param_b_label().len() > 0,
        s.spec_uses_param_b() ==> s.spec_uses_param_a(),
{
    reveal_strlit("a (depth)");
    reveal_strlit("e (ecc.)");
    reveal_strlit("α (rad)");
    reveal_strlit("m (charge)");
    reveal_strlit("n (lobes)");
    reveal_strlit("θ (rot)");
    reveal_strlit("ω_b (rad/s)");
    reveal_strlit("");
}

/// The shader id of each shape is its declaration index, the branch the wave
/// shader takes for it: circular 0, petal 1, wobbly 2, elliptical 3,
/// diamond (L1) 4, square (L∞) 5, plane 6, spiral 7, breathing 8.
pub proof fn lemma_shape_id_values()
    ensures
        WaveShape::Circular.ordinal() == 0,
        WaveShape::Petal.ordinal() == 1,
        WaveShape::Wobbly.ordinal() == 2,
        WaveShape::Elliptical.ordinal() == 3,
        WaveShape::Diamond.ordinal() == 4,
        WaveShape::Square.ordinal() == 5,
        WaveShape::Plane.ordinal() == 6,
        WaveShape::Spiral.ordinal() == 7,
        WaveShape::Breathing.ordinal() == 8,
{
}

/// The picker tells the shapes apart: every label is non-empty and no
/// two share one.
pub proof fn lemma_shape_labels_distinct(a: WaveShape, b: WaveShape)
    ensures
        a.spec_label().len() > 0,
        a.spec_label() == b.spec_label() ==> a == b,
{
    reveal_strlit("Circular");
    reveal_strlit("Petal");
    reveal_strlit("Wobbly");
    reveal_strlit("Elliptical");
    reveal_strlit("Diamond");
    reveal_strlit("Square");
    reveal_strlit("Plane");
    reveal_strlit("Spiral");
    reveal_strlit("Breathing");
    if a.spec_label() == b.spec_label() {
        assert(a.spec_label().len() == b.spec_label().len());
        assert(a.spec_label()[0] == b.spec_label()[0]);
        assert(a.spec_label()[1] == b.spec_label()[1]);
        assert(a.spec_label()[2] == b.spec_label()[2]);
        assert(a.spec_label()[3] == b.spec_label()[3]);
    }
}

} // verus!
