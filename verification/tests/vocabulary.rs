use monadic::frequency::FrequencyFn;
use monadic::lattice::LatticeKind;
use monadic::phase::PhaseMode;
use monadic::shape::WaveShape;
use monadic::spectrum::SpectrumKind;
use monadic::state::{color_mode_u32, decay_mode_u32, default_true, ColorMode, DecayMode, Nonlinearity};

#[test]
fn frequency_labels_and_formulas() {
    assert_eq!(FrequencyFn::Constant.label(), "Constant");
    assert_eq!(FrequencyFn::ExpDecay.label(), "Exp. decay");
    assert_eq!(FrequencyFn::Linear.formula(), "k₀·(1 + α·r)");
    assert_eq!(FrequencyFn::Step.formula(), "k₀ if r<½ else (1+α)·k₀");
    assert_eq!(FrequencyFn::Gaussian.formula(), "k₀·(1 + α·e^(−β·r²))");
}

#[test]
fn frequency_parameter_usage() {
    assert!(!FrequencyFn::Constant.uses_alpha());
    assert!(FrequencyFn::Linear.uses_alpha());
    assert!(!FrequencyFn::Linear.uses_beta());
    assert!(FrequencyFn::Cosine.uses_beta());
    assert!(FrequencyFn::ExpDecay.uses_beta());
    assert!(!FrequencyFn::Step.uses_beta());
    // every profile that reads beta also reads alpha
    for f in FrequencyFn::all() {
        assert!(!f.uses_beta() || f.uses_alpha());
    }
}

#[test]
fn pickers_list_every_variant_once() {
    let f = FrequencyFn::all();
    assert_eq!(f.len(), 10);
    assert_eq!(f[0], FrequencyFn::Constant);
    assert_eq!(f[9], FrequencyFn::ExpDecay);
    let l = LatticeKind::all();
    assert_eq!(l.len(), 9);
    assert_eq!(l[4], LatticeKind::Rings);
    let s = SpectrumKind::all();
    assert_eq!(s.len(), 8);
    assert_eq!(s[6], SpectrumKind::Beat);
    for i in 0..f.len() {
        for j in 0..f.len() {
            assert_eq!(i == j, f[i] == f[j]);
        }
    }
    for i in 0..l.len() {
        for j in 0..l.len() {
            assert_eq!(i == j, l[i] == l[j]);
        }
    }
}

#[test]
fn lattice_labels() {
    assert_eq!(LatticeKind::LogSpiral.label(), "Log spiral");
    assert_eq!(LatticeKind::Halton.description(), "quasi-random (2,3)");
    assert_eq!(LatticeKind::Triangular.description(), "offset hexagonal packing");
}

#[test]
fn phase_ids_are_positions() {
    let all = PhaseMode::all();
    assert_eq!(all.len(), 7);
    for (i, m) in all.iter().enumerate() {
        assert_eq!(m.id() as usize, i);
    }
    assert_eq!(PhaseMode::Antiphase.id(), 6);
}

#[test]
fn phase_labels() {
    assert_eq!(PhaseMode::Focus.label(), "Focus");
    assert_eq!(PhaseMode::Vortex.description(), "φ = m·θ (topological charge)");
    assert_eq!(PhaseMode::Chirp.param_a_label(), "α (rad/s)");
    assert_eq!(PhaseMode::Zero.param_a_label(), "");
}

#[test]
fn phase_param_a_label_iff_used() {
    for m in PhaseMode::all() {
        assert_eq!(m.uses_param_a(), !m.param_a_label().is_empty());
    }
    assert!(PhaseMode::Gradient.uses_param_a());
    assert!(!PhaseMode::Random.uses_param_a());
}

#[test]
fn shape_ids_are_positions() {
    let all = WaveShape::all();
    assert_eq!(all.len(), 9);
    for (i, s) in all.iter().enumerate() {
        assert_eq!(s.id() as usize, i);
    }
    assert_eq!(WaveShape::Breathing.id(), 8);
}

#[test]
fn shape_labels_iff_used() {
    for s in WaveShape::all() {
        assert_eq!(s.uses_param_a(), !s.param_a_label().is_empty());
        assert_eq!(s.uses_param_b(), !s.param_b_label().is_empty());
        assert!(!s.uses_param_b() || s.uses_param_a());
    }
    assert_eq!(WaveShape::Elliptical.param_b_label(), "θ (rot)");
    assert_eq!(WaveShape::Plane.param_a_label(), "α (rad)");
    assert_eq!(WaveShape::Square.description(), "L∞ metric max(|x|,|y|)");
    assert_eq!(WaveShape::Petal.label(), "Petal");
}

#[test]
fn spectrum_labels_and_usage() {
    assert_eq!(SpectrumKind::HarmonicFlat.label(), "Harmonics flat");
    assert_eq!(SpectrumKind::Comb.description(), "k₀ + j·Δk evenly");
    assert!(!SpectrumKind::Single.uses_count());
    assert!(!SpectrumKind::Beat.uses_count());
    assert!(SpectrumKind::Octaves.uses_count());
    assert!(SpectrumKind::Beat.uses_spread());
    assert!(SpectrumKind::Comb.uses_spread());
    assert!(!SpectrumKind::HarmonicSaw.uses_spread());
}

#[test]
fn nonlinearity_ids_and_labels() {
    let all = Nonlinearity::all();
    assert_eq!(all.len(), 6);
    for (i, n) in all.iter().enumerate() {
        assert_eq!(n.id() as usize, i);
    }
    assert_eq!(Nonlinearity::Linear.label(), "linear");
    assert_eq!(Nonlinearity::Membrane.label(), "membrane (binarize)");
    assert_eq!(Nonlinearity::PhaseWarp.id(), 5);
}

#[test]
fn color_mode_ids() {
    assert_eq!(color_mode_u32(ColorMode::Real), 0);
    assert_eq!(color_mode_u32(ColorMode::Intensity), 1);
    assert_eq!(color_mode_u32(ColorMode::Domain), 2);
    assert_eq!(color_mode_u32(ColorMode::Spectral), 3);
    assert_eq!(color_mode_u32(ColorMode::Fft), 0);
    assert_eq!(color_mode_u32(ColorMode::Reaction), 0);
    assert_eq!(color_mode_u32(ColorMode::Fitzhugh), 0);
}

#[test]
fn decay_mode_ids() {
    assert_eq!(decay_mode_u32(DecayMode::Off), 0);
    assert_eq!(decay_mode_u32(DecayMode::InvSqrtR), 1);
    assert_eq!(decay_mode_u32(DecayMode::InvR), 2);
}

#[test]
fn default_flag_is_raised() {
    assert!(default_true());
}
