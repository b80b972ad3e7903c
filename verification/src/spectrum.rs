use vstd::prelude::*;
use vstd::arithmetic::power2::{pow2, lemma2_to64};
use vstd::bits::lemma_u32_shl_is_mul;

verus! {

/// The family of wavenumbers each emitter radiates at.
#[derive(Copy, Clone, PartialEq, Eq, Structural, Debug, Hash)]
pub enum SpectrumKind {
    Single,
    HarmonicFlat,
    HarmonicSaw,
    HarmonicTriangle,
    HarmonicSquare,
    Octaves,
    Beat,
    Comb,
}

/// How a component's amplitude falls off with its wavenumber multiple `j`.
#[derive(Copy, Clone, PartialEq, Eq, Structural, Debug, Hash)]
pub enum Amplitude {
    /// amplitude 1
    Unit,
    /// amplitude 1 / j
    InverseMultiple,
    /// amplitude 1 / j²
    InverseSquare,
}

/// One spectrum component in integers: its wavenumber multiple is
/// `multiple + spread_steps · spread` and its amplitude follows `amplitude`.
#[derive(Copy, Clone, PartialEq, Eq, Structural, Debug, Hash)]
pub struct Partial {
    pub multiple: usize,
    pub spread_steps: usize,
    pub amplitude: Amplitude,
}

/// `count` clamped to `[1, max]`.
pub open spec fn clamp_count(count: int, max: int) -> int {
    if count < 1 {
        1
    } else if count > max {
        max
    } else {
        count
    }
}

impl SpectrumKind {
    pub open spec fn ordinal(self) -> nat {
        match self {
            SpectrumKind::Single => 0,
            SpectrumKind::HarmonicFlat => 1,
            SpectrumKind::HarmonicSaw => 2,
            SpectrumKind::HarmonicTriangle => 3,
            SpectrumKind::HarmonicSquare => 4,
            SpectrumKind::Octaves => 5,
            SpectrumKind::Beat => 6,
            SpectrumKind::Comb => 7,
        }
    }

    pub open spec fn all_spec() -> Seq<SpectrumKind> {
        seq![
            SpectrumKind::Single,
            SpectrumKind::HarmonicFlat,
            SpectrumKind::HarmonicSaw,
            SpectrumKind::HarmonicTriangle,
            SpectrumKind::HarmonicSquare,
            SpectrumKind::Octaves,
            SpectrumKind::Beat,
            SpectrumKind::Comb,
        ]
    }

    pub open spec fn spec_label(self) -> Seq<char> {
        match self {
            SpectrumKind::Single => "Single"@,
            SpectrumKind::HarmonicFlat => "Harmonics flat"@,
            SpectrumKind::HarmonicSaw => "Sawtooth"@,
            SpectrumKind::HarmonicTriangle => "Triangle"@,
            SpectrumKind::HarmonicSquare => "Square"@,
            SpectrumKind::Octaves => "Octaves"@,
            SpectrumKind::Beat => "Beat pair"@,
            SpectrumKind::Comb => "Comb"@,
        }
    }

    pub open spec fn spec_description(self) -> Seq<char> {
        match self {
            SpectrumKind::Single => "one frequency"@,
            SpectrumKind::HarmonicFlat => "k₀, 2k₀, 3k₀ … (flat)"@,
            SpectrumKind::HarmonicSaw => "j·k₀, amp 1/j"@,
            SpectrumKind::HarmonicTriangle => "odd j, amp 1/j²"@,
            SpectrumKind::HarmonicSquare => "odd j, amp 1/j"@,
            SpectrumKind::Octaves => "k₀, 2k₀, 4k₀ …"@,
            SpectrumKind::Beat => "two close frequencies"@,
            SpectrumKind::Comb => "k₀ + j·Δk evenly"@,
        }
    }

    pub open spec fn spec_uses_count(self) -> bool {
        !(self == SpectrumKind::Single || self == SpectrumKind::Beat)
    }

    pub open spec fn spec_uses_spread(self) -> bool {
        self == SpectrumKind::Beat || self == SpectrumKind::Comb
    }

    /// Number of components for the requested `count` with at most `max`.
    pub open spec fn spec_partial_count(self, count: int, max: int) -> int {
        match self {
            SpectrumKind::Single => 1,
            SpectrumKind::Beat => 2,
            _ => clamp_count(count, max),
        }
    }

    /// The component at position `i`.
    pub open spec fn spec_partial(self, i: int) -> Partial {
        match self {
            SpectrumKind::Single => Partial { multiple: 1, spread_steps: 0, amplitude: Amplitude::Unit },
            SpectrumKind::HarmonicFlat => Partial {
                multiple: (i + 1) as usize,
                spread_steps: 0,
                amplitude: Amplitude::Unit,
            },
            SpectrumKind::HarmonicSaw => Partial {
                multiple: (i + 1) as usize,
                spread_steps: 0,
                amplitude: Amplitude::InverseMultiple,
            },
            SpectrumKind::HarmonicTriangle => Partial {
                multiple: (2 * i + 1) as usize,
                spread_steps: 0,
                amplitude: Amplitude::InverseSquare,
            },
            SpectrumKind::HarmonicSquare => Partial {
                multiple: (2 * i + 1) as usize,
                spread_steps: 0,
                amplitude: Amplitude::InverseMultiple,
            },
            SpectrumKind::Octaves => Partial {
                multiple: pow2(crate::min_int(i, 15) as nat) as usize,
                spread_steps: 0,
                amplitude: Amplitude::Unit,
            },
            SpectrumKind::Beat => Partial {
                multiple: 1,
                spread_steps: if i == 0 { 0 } else { 1 },
                amplitude: Amplitude::Unit,
            },
            SpectrumKind::Comb => Partial { multiple: 1, spread_steps: i as usize, amplitude: Amplitude::Unit },
        }
    }

    /// The whole spectrum for the requested `count` with at most `max` components.
    pub open spec fn spec_partials(self, count: int, max: int) -> Seq<Partial> {
        Seq::new(self.spec_partial_count(count, max) as nat, |i: int| self.spec_partial(i))
    }

    /// Every variant exactly once, in picker order.
    pub fn all() -> (v: Vec<SpectrumKind>)
        ensures
            v@ == Self::all_spec(),
    {
        vec![
            SpectrumKind::Single,
            SpectrumKind::HarmonicFlat,
            SpectrumKind::HarmonicSaw,
            SpectrumKind::HarmonicTriangle,
            SpectrumKind::HarmonicSquare,
            SpectrumKind::Octaves,
            SpectrumKind::Beat,
            SpectrumKind::Comb,
        ]
    }

    pub fn label(&self) -> (s: &'static str)
        ensures
            s@ == self.spec_label(),
    {
        match self {
            SpectrumKind::Single => "Single",
            SpectrumKind::HarmonicFlat => "Harmonics flat",
            SpectrumKind::HarmonicSaw => "Sawtooth",
            SpectrumKind::HarmonicTriangle => "Triangle",
            SpectrumKind::HarmonicSquare => "Square",
            SpectrumKind::Octaves => "Octaves",
            SpectrumKind::Beat => "Beat pair",
            SpectrumKind::Comb => "Comb",
        }
    }

    pub fn description(&self) -> (s: &'static str)
        ensures
            s@ == self.spec_description(),
    {
        match self {
            SpectrumKind::Single => "one frequency",
            SpectrumKind::HarmonicFlat => "k₀, 2k₀, 3k₀ … (flat)",
            SpectrumKind::HarmonicSaw => "j·k₀, amp 1/j",
            SpectrumKind::HarmonicTriangle => "odd j, amp 1/j²",
            SpectrumKind::HarmonicSquare => "odd j, amp 1/j",
            SpectrumKind::Octaves => "k₀, 2k₀, 4k₀ …",
            SpectrumKind::Beat => "two close frequencies",
            SpectrumKind::Comb => "k₀ + j·Δk evenly",
        }
    }

    /// Whether the number of components follows the requested count.
    pub fn uses_count(&self) -> (b: bool)
        ensures
            b == self.spec_uses_count(),
    {
        !matches!(self, SpectrumKind::Single | SpectrumKind::Beat)
    }

    /// Whether the spread parameter enters the components.
    pub fn uses_spread(&self) -> (b: bool)
        ensures
            b == self.spec_uses_spread(),
    {
        matches!(self, SpectrumKind::Beat | SpectrumKind::Comb)
    }

    /// The component at position `i` of a spectrum of this kind.
    fn partial_at(&self, i: usize) -> (p: Partial)
        requires
            2 * i + 1 <= usize::MAX,
            *self == SpectrumKind::Beat ==> i < 2,
        ensures
            p == self.spec_partial(i as int),
    {
        match self {
            SpectrumKind::Single => Partial { multiple: 1, spread_steps: 0, amplitude: Amplitude::Unit },
            SpectrumKind::HarmonicFlat => Partial {
                multiple: i + 1,
                spread_steps: 0,
                amplitude: Amplitude::Unit,
            },
            SpectrumKind::HarmonicSaw => Partial {
                multiple: i + 1,
                spread_steps: 0,
                amplitude: Amplitude::InverseMultiple,
            },
            SpectrumKind::HarmonicTriangle => Partial {
                multiple: 2 * i + 1,
                spread_steps: 0,
                amplitude: Amplitude::InverseSquare,
            },
            SpectrumKind::HarmonicSquare => Partial {
                multiple: 2 * i + 1,
                spread_steps: 0,
                amplitude: Amplitude::InverseMultiple,
            },
            SpectrumKind::Octaves => {
                let e: u32 = if i < 15 { i as u32 } else { 15 };
                proof {
                    lemma2_to64();
                    vstd::arithmetic::power2::lemma_pow2_strictly_increases(e as nat, 16);
                    lemma_u32_shl_is_mul(1, e);
                }
                let m: u32 = 1u32 << e;
                Partial { multiple: m as usize, spread_steps: 0, amplitude: Amplitude::Unit }
            },
            SpectrumKind::Beat => Partial {
                multiple: 1,
                spread_steps: if i == 0 { 0 } else { 1 },
                amplitude: Amplitude::Unit,
            },
            SpectrumKind::Comb => Partial { multiple: 1, spread_steps: i, amplitude: Amplitude::Unit },
        }
    }

    /// The components of this spectrum kind: the requested `count` clamped to
    /// `[1, max]` of them for the kinds that use a count, one for `Single` and
    /// two for `Beat`.
    pub fn partials(&self, count: usize, max: usize) -> (v: Vec<Partial>)
        requires
            1 <= max,
            self.spec_partial_count(count as int, max as int) <= usize::MAX / 2,
        ensures
            v@ == self.spec_partials(count as int, max as int),
    {
        let m: usize = if count < 1 {
            1
        } else if count > max {
            max
        } else {
            count
        };
        let n: usize = match self {
            SpectrumKind::Single => 1,
            SpectrumKind::Beat => 2,
            _ => m,
        };
        let mut v: Vec<Partial> = Vec::new();
        let mut i: usize = 0;
        while i < n
            invariant
                n == self.spec_partial_count(count as int, max as int),
                n <= usize::MAX / 2,
                i <= n,
                *self == SpectrumKind::Beat ==> n == 2,
                v@ =~= self.spec_partials(count as int, max as int).take(i as int),
            decreases n - i,
        {
            let p = self.partial_at(i);
            v.push(p);
            i = i + 1;
        }
        v
    }
}

/// The picker lists every kind exactly once, in ordinal order.
pub proof fn lemma_spectrum_all_complete()
    ensures
        SpectrumKind::all_spec().len() == 8,
        forall|i: int|
            0 <= i < SpectrumKind::all_spec().len() ==> #[trigger] SpectrumKind::all_spec()[i].ordinal() == i,
        forall|k: SpectrumKind| #[trigger] SpectrumKind::all_spec()[k.ordinal() as int] == k,
        SpectrumKind::all_spec().no_duplicates(),
{
}

/// `count` is clamped to `[1, max]`: a kind that uses the count yields
/// between 1 and `max` components, the count clamped; a kind that does not
/// yields the same spectrum whatever the count.
pub proof fn lemma_spectrum_count(k: SpectrumKind, count: int, other: int, max: int)
    requires
        1 <= max,
    ensures
        k.spec_uses_count() ==> k.spec_partials(count, max).len() == clamp_count(count, max),
        1 <= k.spec_partials(count, max).len() <= if k.spec_uses_count() { max } else { 2 },
        !k.spec_uses_count() ==> k.spec_partials(count, max) == k.spec_partials(other, max),
{
    if !k.spec_uses_count() {
        assert(k.spec_partials(count, max) =~= k.spec_partials(other, max));
    }
}

/// A kind that does not use the spread yields components that do not
/// depend on it.
pub proof fn lemma_spectrum_spread(k: SpectrumKind, count: int, max: int, i: int)
    requires
        1 <= max,
        !k.spec_uses_spread(),
        0 <= i < k.spec_partials(count, max).len(),
    ensures
        k.spec_partials(count, max)[i].spread_steps == 0,
{
}

/// `count` is clamped into `[1, max]`: a count already in range is kept,
/// one below goes to 1, one above to `max`.
pub proof fn lemma_clamp_count(count: int, max: int)
    requires
        1 <= max,
    ensures
        1 <= clamp_count(count, max) <= max,
        1 <= count <= max ==> clamp_count(count, max) == count,
        count < 1 ==> clamp_count(count, max) == 1,
        count > max ==> clamp_count(count, max) == max,
{
}

/// The components of each kind, by position `i`: the harmonic kinds count
/// j = 1, 2, 3, … (flat with amplitude 1, sawtooth with 1/j); the triangle and
/// square kinds take the odd multiples j = 2i + 1 (triangle with 1/j², square
/// with 1/j); the octaves double from 1 up to 2¹⁵ and stay there; a comb is
/// the base wavenumber plus i spread steps; a beat pair is the base
/// wavenumber and the base plus one spread; a single spectrum is the base
/// wavenumber alone. The amplitude law depends on the kind only.
pub proof fn lemma_spectrum_components(k: SpectrumKind, count: int, max: int, i: int)
    requires
        1 <= max,
        clamp_count(count, max) <= usize::MAX / 2,
        0 <= i < k.spec_partials(count, max).len(),
    ensures
        ({
            let p = k.spec_partials(count, max)[i];
            &&& p.amplitude == (if k == SpectrumKind::HarmonicSaw || k == SpectrumKind::HarmonicSquare {
                Amplitude::InverseMultiple
            } else if k == SpectrumKind::HarmonicTriangle {
                Amplitude::InverseSquare
            } else {
                Amplitude::Unit
            })
            &&& (k == SpectrumKind::HarmonicFlat || k == SpectrumKind::HarmonicSaw) ==> p.multiple == i + 1
            &&& (k == SpectrumKind::HarmonicTriangle || k == SpectrumKind::HarmonicSquare) ==> p.multiple
                == 2 * i + 1
            &&& k == SpectrumKind::Octaves && i == 0 ==> p.multiple == 1
            &&& k == SpectrumKind::Octaves && 0 < i <= 15 ==> p.multiple == 2 * k.spec_partials(
                count,
                max,
            )[i - 1].multiple
            &&& k == SpectrumKind::Octaves && i >= 15 ==> p.multiple == 32768
            &&& (k == SpectrumKind::Comb) ==> p.multiple == 1 && p.spread_steps == i
            &&& (k == SpectrumKind::Beat) ==> p.multiple == 1 && p.spread_steps == i
            &&& (k == SpectrumKind::Single) ==> p.multiple == 1 && p.spread_steps == 0 && i == 0
            &&& k != SpectrumKind::Comb && k != SpectrumKind::Beat ==> p.spread_steps == 0
        }),
{
    lemma2_to64();
    if k == SpectrumKind::Octaves && i > 0 {
        vstd::arithmetic::power2::lemma_pow2_unfold(crate::min_int(i, 15) as nat);
    }
}

/// The parameter flags say what the spectrum reacts to: a kind that uses
/// the count yields different numbers of components for different counts,
/// and a kind that uses the spread has a component that is shifted by it.
pub proof fn lemma_spectrum_flags_are_used(k: SpectrumKind)
    ensures
        k.spec_uses_count() ==> k.spec_partials(1, 2).len() != k.spec_partials(2, 2).len(),
        k.spec_uses_spread() ==> k.spec_partials(2, 2)[1].spread_steps > 0,
{
}

/// The picker order of the spectrum kinds is their declaration order.
pub proof fn lemma_spectrum_order()
    ensures
        SpectrumKind::Single.ordinal() == 0,
        SpectrumKind::HarmonicFlat.ordinal() == 1,
        SpectrumKind::HarmonicSaw.ordinal() == 2,
        SpectrumKind::HarmonicTriangle.ordinal() == 3,
        SpectrumKind::HarmonicSquare.ordinal() == 4,
        SpectrumKind::Octaves.ordinal() == 5,
        SpectrumKind::Beat.ordinal() == 6,
        SpectrumKind::Comb.ordinal() == 7,
{
}

/// The picker tells the spectrum kinds apart: every label is non-empty and no
/// two share one.
pub proof fn lemma_spectrum_labels_distinct(a: SpectrumKind, b: SpectrumKind)
    ensures
        a.spec_label().len() > 0,
        a.spec_label() == b.spec_label() ==> a == b,
{
    reveal_strlit("Single");
    reveal_strlit("Harmonics flat");
    reveal_strlit("Sawtooth");
    reveal_strlit("Triangle");
    reveal_strlit("Square");
    reveal_strlit("Octaves");
    reveal_strlit("Beat pair");
    reveal_strlit("Comb");
    if a.spec_label() == b.spec_label() {
        assert(a.spec_label().len() == b.spec_label().len());
        assert(a.spec_label()[0] == b.spec_label()[0]);
        assert(a.spec_label()[1] == b.spec_label()[1]);
        assert(a.spec_label()[2] == b.spec_label()[2]);
        assert(a.spec_label()[3] == b.spec_label()[3]);
    }
}

} // verus!
