use monadic::lattice::{cross_arms, halton_digits, lcg_step, ring_counts};
use monadic::renderer::{sim_resize, upload_len, MAX_EMITTERS, MAX_SPEC};
use monadic::spectrum::{Amplitude, Partial, SpectrumKind};
use monadic::state::node_phase_seed_bits;

fn p(multiple: usize, spread_steps: usize, amplitude: Amplitude) -> Partial {
    Partial { multiple, spread_steps, amplitude }
}

#[test]
fn spectrum_single_and_beat_ignore_count() {
    let one = vec![p(1, 0, Amplitude::Unit)];
    assert_eq!(SpectrumKind::Single.partials(0, 16), one);
    assert_eq!(SpectrumKind::Single.partials(9, 16), one);
    let beat = vec![p(1, 0, Amplitude::Unit), p(1, 1, Amplitude::Unit)];
    assert_eq!(SpectrumKind::Beat.partials(1, 16), beat);
    assert_eq!(SpectrumKind::Beat.partials(12, 1), beat);
}

#[test]
fn spectrum_count_is_clamped() {
    assert_eq!(SpectrumKind::HarmonicFlat.partials(0, 16).len(), 1);
    assert_eq!(SpectrumKind::HarmonicFlat.partials(4, 16).len(), 4);
    assert_eq!(SpectrumKind::HarmonicFlat.partials(40, 16).len(), 16);
    assert_eq!(SpectrumKind::Comb.partials(40, 3).len(), 3);
}

#[test]
fn spectrum_harmonics() {
    assert_eq!(
        SpectrumKind::HarmonicFlat.partials(3, 16),
        vec![p(1, 0, Amplitude::Unit), p(2, 0, Amplitude::Unit), p(3, 0, Amplitude::Unit)]
    );
    assert_eq!(
        SpectrumKind::HarmonicSaw.partials(3, 16),
        vec![
            p(1, 0, Amplitude::InverseMultiple),
            p(2, 0, Amplitude::InverseMultiple),
            p(3, 0, Amplitude::InverseMultiple)
        ]
    );
    assert_eq!(
        SpectrumKind::HarmonicTriangle.partials(3, 16),
        vec![
            p(1, 0, Amplitude::InverseSquare),
            p(3, 0, Amplitude::InverseSquare),
            p(5, 0, Amplitude::InverseSquare)
        ]
    );
    assert_eq!(
        SpectrumKind::HarmonicSquare.partials(2, 16),
        vec![p(1, 0, Amplitude::InverseMultiple), p(3, 0, Amplitude::InverseMultiple)]
    );
}

#[test]
fn spectrum_octaves_saturate_at_two_to_fifteen() {
    let v = SpectrumKind::Octaves.partials(20, 20);
    assert_eq!(v.len(), 20);
    assert_eq!(v[0].multiple, 1);
    assert_eq!(v[3].multiple, 8);
    assert_eq!(v[15].multiple, 32768);
    assert_eq!(v[19].multiple, 32768);
}

#[test]
fn spectrum_comb_steps_by_spread() {
    assert_eq!(
        SpectrumKind::Comb.partials(3, 16),
        vec![p(1, 0, Amplitude::Unit), p(1, 1, Amplitude::Unit), p(1, 2, Amplitude::Unit)]
    );
}

#[test]
fn spectrum_without_spread_has_no_spread_steps() {
    for k in SpectrumKind::all() {
        if !k.uses_spread() {
            for part in k.partials(16, 16) {
                assert_eq!(part.spread_steps, 0);
            }
        }
    }
}

#[test]
fn spectrum_always_fits_its_buffer() {
    for k in SpectrumKind::all() {
        for count in 0..40usize {
            let v = k.partials(count, MAX_SPEC as usize);
            assert!(!v.is_empty() && v.len() as u64 <= MAX_SPEC);
            assert_eq!(upload_len(v.len(), MAX_SPEC), Some(v.len()));
        }
    }
}

#[test]
fn upload_len_caps_and_skips_empty() {
    assert_eq!(upload_len(0, MAX_EMITTERS), None);
    assert_eq!(upload_len(64, MAX_EMITTERS), Some(64));
    assert_eq!(upload_len(5000, MAX_EMITTERS), Some(1024));
    assert_eq!(upload_len(3, 0), None);
}

#[test]
fn sim_resize_decisions() {
    assert_eq!(sim_resize(1024, 1024), None);
    assert_eq!(sim_resize(1024, 512), Some(512));
    assert_eq!(sim_resize(1024, 0), Some(1));
    assert_eq!(sim_resize(1, 0), None);
    // once resized, the same request asks for nothing
    let side = sim_resize(7, 300).unwrap();
    assert_eq!(sim_resize(side, 300), None);
}

#[test]
fn cross_arm_split() {
    assert_eq!(cross_arms(1), (0, 0));
    assert_eq!(cross_arms(2), (0, 1));
    assert_eq!(cross_arms(3), (1, 0));
    assert_eq!(cross_arms(10), (4, 1));
    for n in 1..100usize {
        let (per_axis, extra) = cross_arms(n);
        assert!(1 + 4 * per_axis + extra >= n);
        assert_eq!(2 * per_axis + extra, n - 1);
    }
}

#[test]
fn ring_counts_fill_rings_outward() {
    assert_eq!(ring_counts(20, 3), vec![6, 12, 2]);
    assert_eq!(ring_counts(18, 3), vec![6, 12]);
    assert_eq!(ring_counts(40, 3), vec![6, 12, 18]);
    assert_eq!(ring_counts(0, 3), Vec::<usize>::new());
    assert_eq!(ring_counts(5, 0), Vec::<usize>::new());
    assert_eq!(ring_counts(5, 1), vec![5]);
}

#[test]
fn ring_counts_place_all_that_fit() {
    for remaining in 0..200usize {
        for last in 0..8usize {
            let v = ring_counts(remaining, last);
            let sum: usize = v.iter().sum();
            assert_eq!(sum, remaining.min(3 * last * (last + 1)));
            for (k, c) in v.iter().enumerate() {
                assert!(*c > 0 && *c <= 6 * (k + 1));
            }
        }
    }
}

#[test]
fn lcg_matches_known_values() {
    let (s1, x1) = lcg_step(0x1234_5678);
    assert_eq!(s1, 1967335287);
    assert_eq!(x1, 7684903);
    let (s2, x2) = lcg_step(s1);
    assert_eq!(s2, 3442499178);
    assert_eq!(x2, 13447262);
    assert!(x2 < (1 << 24));
}

#[test]
fn halton_digits_base_two_and_three() {
    assert_eq!(halton_digits(0, 2), Vec::<u32>::new());
    assert_eq!(halton_digits(6, 2), vec![0, 1, 1]);
    assert_eq!(halton_digits(7, 3), vec![1, 2]);
    assert_eq!(halton_digits(1, 3), vec![1]);
    for i in 0..500u32 {
        for base in 2..6u32 {
            let d = halton_digits(i, base);
            let mut value = 0u32;
            for digit in d.iter().rev() {
                assert!(*digit < base);
                value = value * base + digit;
            }
            assert_eq!(value, i);
        }
    }
}

#[test]
fn phase_seed_bits_known_values() {
    assert_eq!(node_phase_seed_bits(0), 360920789);
    assert_eq!(node_phase_seed_bits(1), 3231992039);
    assert_eq!(node_phase_seed_bits(7), 3743096809);
}
