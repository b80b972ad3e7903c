use vstd::prelude::*;
use crate::state::ColorMode;

verus! {

/// The texture the final blit samples.
#[derive(Copy, Clone, PartialEq, Eq, Structural, Debug)]
pub enum BlitSource {
    Sim,
    Fft,
}

/// The blit source a colour mode asks for.
pub open spec fn wanted_source(mode: ColorMode) -> BlitSource {
    if mode == ColorMode::Fft {
        BlitSource::Fft
    } else {
        BlitSource::Sim
    }
}

/// What a frame does about the blit: the source it samples afterwards,
/// whether the blit bind group must be rebuilt for it, and whether the FFT
/// passes run.
#[derive(Copy, Clone, PartialEq, Eq, Structural, Debug)]
pub struct BlitPlan {
    pub source: BlitSource,
    pub rebind: bool,
    pub run_fft: bool,
}

pub open spec fn plan_blit_spec(current: BlitSource, mode: ColorMode) -> BlitPlan {
    BlitPlan {
        source: wanted_source(mode),
        rebind: current != wanted_source(mode),
        run_fft: mode == ColorMode::Fft,
    }
}

/// The blit decisions of a frame in colour mode `mode` while the blit
/// samples `current`: sample what the mode asks for, rebuild the bind group
/// only when that changes the source, run the FFT only in FFT mode.
pub fn plan_blit(current: BlitSource, mode: ColorMode) -> (p: BlitPlan)
    ensures
        p == plan_blit_spec(current, mode),
{
    let want_fft = mode == ColorMode::Fft;
    let want = if want_fft {
        BlitSource::Fft
    } else {
        BlitSource::Sim
    };
    BlitPlan { source: want, rebind: want != current, run_fft: want_fft }
}

/// Switching settles in one frame: a second frame in the same mode keeps the
/// source and rebuilds nothing, and the FFT runs exactly when its output is
/// what the blit samples.
pub proof fn lemma_blit_settles(current: BlitSource, mode: ColorMode)
    ensures
        plan_blit_spec(plan_blit_spec(current, mode).source, mode).source == plan_blit_spec(
            current,
            mode,
        ).source,
        !plan_blit_spec(plan_blit_spec(current, mode).source, mode).rebind,
        plan_blit_spec(current, mode).run_fft <==> plan_blit_spec(current, mode).source
            == BlitSource::Fft,
{
}

/// Only the FFT view shows the FFT: the blit samples the FFT texture, and the
/// FFT passes run, exactly in mode `Fft`; in every other mode the blit
/// samples the sim texture and no FFT runs. The bind group is rebuilt exactly
/// when the source changes.
pub proof fn lemma_blit_follows_fft_mode(current: BlitSource, mode: ColorMode)
    ensures
        mode == ColorMode::Fft ==> plan_blit_spec(current, mode).source == BlitSource::Fft
            && plan_blit_spec(current, mode).run_fft,
        mode != ColorMode::Fft ==> plan_blit_spec(current, mode).source == BlitSource::Sim
            && !plan_blit_spec(current, mode).run_fft,
        plan_blit_spec(current, mode).rebind <==> current != plan_blit_spec(current, mode).source,
{
}

} // verus!
