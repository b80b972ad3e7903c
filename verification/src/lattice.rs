use vstd::prelude::*;
use vstd::arithmetic::div_mod::{lemma_div_decreases, lemma_fundamental_div_mod, lemma_add_mod_noop, lemma_mod_bound};

verus! {

/// Arrangement of the emitters on the canvas.
#[derive(Copy, Clone, PartialEq, Eq, Structural, Debug, Hash)]
pub enum LatticeKind {
    Cartesian,
    Triangular,
    Sunflower,
    LogSpiral,
    Rings,
    Polygon,
    Cross,
    Random,
    Halton,
}

impl LatticeKind {
    pub open spec fn ordinal(self) -> nat {
        match self {
            LatticeKind::Cartesian => 0,
            LatticeKind::Triangular => 1,
            LatticeKind::Sunflower => 2,
            LatticeKind::LogSpiral => 3,
            LatticeKind::Rings => 4,
            LatticeKind::Polygon => 5,
            LatticeKind::Cross => 6,
            LatticeKind::Random => 7,
            LatticeKind::Halton => 8,
        }
    }

    pub open spec fn all_spec() -> Seq<LatticeKind> {
        seq![
            LatticeKind::Cartesian,
            LatticeKind::Triangular,
            LatticeKind::Sunflower,
            LatticeKind::LogSpiral,
            LatticeKind::Rings,
            LatticeKind::Polygon,
            LatticeKind::Cross,
            LatticeKind::Random,
            LatticeKind::Halton,
        ]
    }

    pub open spec fn spec_label(self) -> Seq<char> {
        match self {
            LatticeKind::Cartesian => "Cartesian"@,
            LatticeKind::Triangular => "Triangular"@,
            LatticeKind::Sunflower => "Sunflower"@,
            LatticeKind::LogSpiral => "Log spiral"@,
            LatticeKind::Rings => "Rings"@,
            LatticeKind::Polygon => "Polygon"@,
            LatticeKind::Cross => "Cross"@,
            LatticeKind::Random => "Random"@,
            LatticeKind::Halton => "Halton"@,
        }
    }

    pub open spec fn spec_description(self) -> Seq<char> {
        match self {
            LatticeKind::Cartesian => "square grid"@,
            LatticeKind::Triangular => "offset hexagonal packing"@,
            LatticeKind::Sunflower => "Vogel phyllotaxis"@,
            LatticeKind::LogSpiral => "Bernoulli spiral"@,
            LatticeKind::Rings => "concentric circles"@,
            LatticeKind::Polygon => "regular polygon ring"@,
            LatticeKind::Cross => "axial cross"@,
            LatticeKind::Random => "uniform random disc"@,
            LatticeKind::Halton => "quasi-random (2,3)"@,
        }
    }

    /// Every variant exactly once, in picker order.
    pub fn all() -> (v: Vec<LatticeKind>)
        ensures
            v@ == Self::all_spec(),
    {
        vec![
            LatticeKind::Cartesian,
            LatticeKind::Triangular,
            LatticeKind::Sunflower,
            LatticeKind::LogSpiral,
            LatticeKind::Rings,
            LatticeKind::Polygon,
            LatticeKind::Cross,
            LatticeKind::Random,
            LatticeKind::Halton,
        ]
    }

    pub fn label(&self) -> (s: &'static str)
        ensures
            s@ == self.spec_label(),
    {
        match self {
            LatticeKind::Cartesian => "Cartesian",
            LatticeKind::Triangular => "Triangular",
            LatticeKind::Sunflower => "Sunflower",
            LatticeKind::LogSpiral => "Log spiral",
            LatticeKind::Rings => "Rings",
            LatticeKind::Polygon => "Polygon",
            LatticeKind::Cross => "Cross",
            LatticeKind::Random => "Random",
            LatticeKind::Halton => "Halton",
        }
    }

    pub fn description(&self) -> (s: &'static str)
        ensures
            s@ == self.spec_description(),
    {
        match self {
            LatticeKind::Cartesian => "square grid",
            LatticeKind::Triangular => "offset hexagonal packing",
            LatticeKind::Sunflower => "Vogel phyllotaxis",
            LatticeKind::LogSpiral => "Bernoulli spiral",
            LatticeKind::Rings => "concentric circles",
            LatticeKind::Polygon => "regular polygon ring",
            LatticeKind::Cross => "axial cross",
            LatticeKind::Random => "uniform random disc",
            LatticeKind::Halton => "quasi-random (2,3)",
        }
    }
}

/// The picker lists every lattice exactly once, in ordinal order.
pub proof fn lemma_lattice_all_complete()
    ensures
        LatticeKind::all_spec().len() == 9,
        forall|i: int|
            0 <= i < LatticeKind::all_spec().len() ==> #[trigger] LatticeKind::all_spec()[i].ordinal() == i,
        forall|k: LatticeKind| #[trigger] LatticeKind::all_spec()[k.ordinal() as int] == k,
        LatticeKind::all_spec().no_duplicates(),
{
}

// ─── axial cross ─────────────────────────────────────────────────────────

/// Split of the `n - 1` non-centre points of an axial cross: `per_axis` points
/// on each half-axis pair of both axes, plus `extra` (0 or 1) on the +x axis.
pub fn cross_arms(n: usize) -> (r: (usize, usize))
    requires
        n >= 1,
    ensures
        r.0 == (n - 1) / 2,
        r.1 == (n - 1) % 2,
        2 * r.0 + r.1 == n - 1,
        1 + 4 * r.0 + r.1 >= n,
{
    let arm = n - 1;
    let per_axis = arm / 2;
    let extra = arm - per_axis * 2;
    (per_axis, extra)
}

// ─── concentric rings ────────────────────────────────────────────────────

/// Points placed on rings `ring ..= last` when `remaining` points are left:
/// ring `k` takes up to `6·k` of them, and filling stops when none are left.
pub open spec fn ring_plan(remaining: int, ring: int, last: int) -> Seq<int>
    decreases last + 1 - ring,
{
    if ring > last || remaining <= 0 {
        seq![]
    } else {
        let c = crate::min_int(6 * ring, remaining);
        seq![c] + ring_plan(remaining - c, ring + 1, last)
    }
}

/// Sum of a sequence of integers.
pub open spec fn seq_sum(s: Seq<int>) -> int
    decreases s.len(),
{
    if s.len() == 0 {
        0
    } else {
        s[0] + seq_sum(s.drop_first())
    }
}

/// Number of points on the rings `ring ..= last` when all are full.
pub open spec fn ring_capacity(ring: int, last: int) -> int
    decreases last + 1 - ring,
{
    if ring > last {
        0
    } else {
        6 * ring + ring_capacity(ring + 1, last)
    }
}

proof fn lemma_ring_capacity_closed(ring: int, last: int)
    requires
        1 <= ring <= last + 1,
    ensures
        ring_capacity(ring, last) == 3 * last * (last + 1) - 3 * (ring - 1) * ring,
    decreases last + 1 - ring,
{
    if ring <= last {
        lemma_ring_capacity_closed(ring + 1, last);
        assert(3 * (ring - 1) * ring + 6 * ring == 3 * ring * (ring + 1)) by (nonlinear_arith);
    }
}

proof fn lemma_ring_plan_shape(remaining: int, ring: int, last: int)
    requires
        ring >= 1,
    ensures
        seq_sum(ring_plan(remaining, ring, last)) == if remaining <= 0 {
            0
        } else {
            crate::min_int(remaining, ring_capacity(ring, last))
        },
        forall|k: int|
            0 <= k < ring_plan(remaining, ring, last).len() ==> 0 < #[trigger] ring_plan(
                remaining,
                ring,
                last,
            )[k] <= 6 * (ring + k),
        forall|k: int|
            0 <= k < ring_plan(remaining, ring, last).len() - 1 ==> #[trigger] ring_plan(
                remaining,
                ring,
                last,
            )[k] == 6 * (ring + k),
        ring_plan(remaining, ring, last).len() <= if ring > last {
            0
        } else {
            last + 1 - ring
        },
    decreases last + 1 - ring,
{
    if ring > last || remaining <= 0 {
    } else {
        let c = crate::min_int(6 * ring, remaining);
        let rest = ring_plan(remaining - c, ring + 1, last);
        lemma_ring_plan_shape(remaining - c, ring + 1, last);
        let s = ring_plan(remaining, ring, last);
        assert(s == seq![c] + rest);
        assert(s.drop_first() =~= rest);
        lemma_ring_capacity_nonneg(ring + 1, last);
        assert forall|k: int| 0 <= k < s.len() implies 0 < #[trigger] s[k] <= 6 * (ring + k) by {
            if k > 0 {
                assert(s[k] == rest[k - 1]);
            }
        }
        assert forall|k: int| 0 <= k < s.len() - 1 implies #[trigger] s[k] == 6 * (ring + k) by {
            if k > 0 {
                assert(s[k] == rest[k - 1]);
            }
        }
    }
}

proof fn lemma_ring_capacity_nonneg(ring: int, last: int)
    requires
        ring >= 1,
    ensures
        ring_capacity(ring, last) >= 0,
    decreases last + 1 - ring,
{
    if ring <= last {
        lemma_ring_capacity_nonneg(ring + 1, last);
    }
}

/// Rings `1 ..= last` receive exactly `min(remaining, 3·last·(last+1))`
/// points; ring `k` holds between 1 and `6·k` of them, and every ring but the
/// outermost one used is full.
pub proof fn lemma_rings_place_all_that_fit(remaining: int, last: int)
    requires
        remaining >= 0,
        last >= 0,
    ensures
        seq_sum(ring_plan(remaining, 1, last)) == crate::min_int(remaining, 3 * last * (last + 1)),
        forall|k: int|
            0 <= k < ring_plan(remaining, 1, last).len() ==> 0 < #[trigger] ring_plan(remaining, 1, last)[k]
                <= 6 * (k + 1),
        forall|k: int|
            0 <= k < ring_plan(remaining, 1, last).len() - 1 ==> #[trigger] ring_plan(remaining, 1, last)[k]
                == 6 * (k + 1),
        ring_plan(remaining, 1, last).len() <= last,
{
    lemma_ring_plan_shape(remaining, 1, last);
    lemma_ring_capacity_closed(1, last);
}

/// Number of points on each of the rings `1 ..= r_rings` around the centre
/// point, for `remaining` points besides the centre: ring `k` takes up to
/// `6·k`, and filling stops as soon as every point is placed.
pub fn ring_counts(remaining: usize, r_rings: usize) -> (v: Vec<usize>)
    ensures
        v@.map_values(|c: usize| c as int) == ring_plan(remaining as int, 1, r_rings as int),
{
    let mut v: Vec<usize> = Vec::new();
    let mut placed: usize = 0;
    let mut ring: usize = 1;
    while ring <= r_rings && placed < remaining
        invariant
            1 <= ring <= r_rings + 1,
            placed <= remaining,
            placed < remaining ==> placed == 3 * (ring - 1) * ring,
            v@.map_values(|c: usize| c as int) + ring_plan(
                remaining - placed,
                ring as int,
                r_rings as int,
            ) == ring_plan(remaining as int, 1, r_rings as int),
        decreases r_rings + 1 - ring,
    {
        assert(6 * ring <= usize::MAX) by (nonlinear_arith)
            requires
                3 * (ring - 1) * ring <= usize::MAX,
                ring >= 1,
        ;
        let cap = 6 * ring;
        let left = remaining - placed;
        let count = if cap < left {
            cap
        } else {
            left
        };
        let ghost before = v@.map_values(|c: usize| c as int);
        let ghost tail = ring_plan(remaining - placed - count, ring as int + 1, r_rings as int);
        assert(ring_plan(left as int, ring as int, r_rings as int) == seq![count as int] + tail);
        v.push(count);
        assert(v@.map_values(|c: usize| c as int) =~= before.push(count as int));
        assert(before.push(count as int) + tail =~= before + (seq![count as int] + tail));
        assert(3 * (ring - 1) * ring + 6 * ring == 3 * ring * (ring + 1)) by (nonlinear_arith);
        placed = placed + count;
        ring = ring + 1;
    }
    v
}

// ─── pseudo-random disc ──────────────────────────────────────────────────

/// One step of the linear congruential generator behind the random lattice.
pub open spec fn lcg_next_spec(state: u32) -> u32 {
    ((1664525 * state + 1013904223) % 0x1_0000_0000) as u32
}

/// Advance the generator; returns the new state and its top 24 bits, which
/// divided by 2²⁴ give a sample in [0, 1).
pub fn lcg_step(state: u32) -> (r: (u32, u32))
    ensures
        r.0 == lcg_next_spec(state),
        r.1 == r.0 / 256,
        r.1 < 0x100_0000,
{
    let s = state.wrapping_mul(1_664_525).wrapping_add(1_013_904_223);
    proof {
        let m: int = 0x1_0000_0000;
        let p: int = state * 1664525;
        lemma_add_mod_noop(p, 1013904223, m);
        lemma_mod_bound(p, m);
        assert(1013904223int % m == 1013904223);
    }
    let sample = s >> 8;
    assert(s >> 8 == s / 256) by (bit_vector);
    (s, sample)
}

// ─── Halton sequence ─────────────────────────────────────────────────────

/// Digits of `i` in `base`, least significant first.
pub open spec fn digits_spec(i: nat, base: nat) -> Seq<nat>
    decreases i,
{
    if i == 0 || base < 2 {
        seq![]
    } else {
        proof {
            lemma_div_decreases(i as int, base as int);
        }
        seq![i % base] + digits_spec(i / base, base)
    }
}

/// The number that the digits, least significant first, stand for in `base`.
pub open spec fn digits_value(d: Seq<nat>, base: nat) -> nat
    decreases d.len(),
{
    if d.len() == 0 {
        0
    } else {
        d[0] + base * digits_value(d.drop_first(), base)
    }
}

/// The digits give back `i`, each is below the base, and the most
/// significant one is not 0 (so the expansion is the unique one).
pub proof fn lemma_digits_represent(i: nat, base: nat)
    requires
        base >= 2,
    ensures
        digits_value(digits_spec(i, base), base) == i,
        forall|k: int|
            0 <= k < digits_spec(i, base).len() ==> #[trigger] digits_spec(i, base)[k] < base,
        digits_spec(i, base).len() > 0 ==> digits_spec(i, base).last() != 0,
        i > 0 <==> digits_spec(i, base).len() > 0,
    decreases i,
{
    if i != 0 {
        lemma_div_decreases(i as int, base as int);
        lemma_digits_represent(i / base, base);
        let d = digits_spec(i, base);
        let rest = digits_spec(i / base, base);
        assert(d.drop_first() =~= rest);
        lemma_fundamental_div_mod(i as int, base as int);
        lemma_mod_bound(i as int, base as int);
        assert forall|k: int| 0 <= k < d.len() implies #[trigger] d[k] < base by {
            if k > 0 {
                assert(d[k] == rest[k - 1]);
            }
        }
        if rest.len() > 0 {
            assert(d.last() == rest.last());
        } else {
            assert(i / base == 0);
            assert(i % base == i);
        }
    }
}

/// Digits of `i` in `base`, least significant first: the radical inverse of
/// `i` mirrors them behind the point.
pub fn halton_digits(i: u32, base: u32) -> (v: Vec<u32>)
    requires
        base >= 2,
    ensures
        v@.map_values(|d: u32| d as nat) == digits_spec(i as nat, base as nat),
{
    let mut v: Vec<u32> = Vec::new();
    let mut cur: u32 = i;
    while cur > 0
        invariant
            base >= 2,
            v@.map_values(|d: u32| d as nat) + digits_spec(cur as nat, base as nat) == digits_spec(
                i as nat,
                base as nat,
            ),
        decreases cur,
    {
        let ghost before = v@.map_values(|d: u32| d as nat);
        let digit = cur % base;
        let next = cur / base;
        proof {
            lemma_div_decreases(cur as int, base as int);
        }
        let ghost tail = digits_spec(next as nat, base as nat);
        assert(digits_spec(cur as nat, base as nat) == seq![digit as nat] + tail);
        v.push(digit);
        assert(v@.map_values(|d: u32| d as nat) =~= before.push(digit as nat));
        assert(before.push(digit as nat) + tail =~= before + (seq![digit as nat] + tail));
        cur = next;
    }
    assert(digits_spec(0, base as nat) == Seq::<nat>::empty());
    assert(v@.map_values(|d: u32| d as nat) + Seq::<nat>::empty() =~= v@.map_values(|d: u32| d as nat));
    v
}

/// The picker order of the lattices is their declaration order.
pub proof fn lemma_lattice_order()
    ensures
        LatticeKind::Cartesian.ordinal() == 0,
        LatticeKind::Triangular.ordinal() == 1,
        LatticeKind::Sunflower.ordinal() == 2,
        LatticeKind::LogSpiral.ordinal() == 3,
        LatticeKind::Rings.ordinal() == 4,
        LatticeKind::Polygon.ordinal() == 5,
        LatticeKind::Cross.ordinal() == 6,
        LatticeKind::Random.ordinal() == 7,
        LatticeKind::Halton.ordinal() == 8,
{
}

/// The picker tells the lattices apart: every label is non-empty and no
/// two share one.
pub proof fn lemma_lattice_labels_distinct(a: LatticeKind, b: LatticeKind)
    ensures
        a.spec_label().len() > 0,
        a.spec_label() == b.spec_label() ==> a == b,
{
    reveal_strlit("Cartesian");
    reveal_strlit("Triangular");
    reveal_strlit("Sunflower");
    reveal_strlit("Log spiral");
    reveal_strlit("Rings");
    reveal_strlit("Polygon");
    reveal_strlit("Cross");
    reveal_strlit("Random");
    reveal_strlit("Halton");
    if a.spec_label() == b.spec_label() {
        assert(a.spec_label().len() == b.spec_label().len());
        assert(a.spec_label()[0] == b.spec_label()[0]);
        assert(a.spec_label()[1] == b.spec_label()[1]);
        assert(a.spec_label()[2] == b.spec_label()[2]);
        assert(a.spec_label()[3] == b.spec_label()[3]);
    }
}

} // verus!
