use monadic::fft::{
    butterfly_passes, stage_params, stage_table, workgroup_counts, StageParams, FFT_N, LOG2_N,
    PARAMS_STRIDE, TOTAL_STAGES,
};
use monadic::frame::{plan_blit, BlitPlan, BlitSource};
use monadic::rd::{RdRunPlan, RdSchedule};
use monadic::state::ColorMode;

#[test]
fn fft_stage_table() {
    let t = stage_table();
    assert_eq!(t.len(), TOTAL_STAGES as usize);
    assert_eq!(t[0], StageParams { stage: 0, axis: 0 });
    assert_eq!(t[1], StageParams { stage: 0, axis: 0 });
    assert_eq!(t[9], StageParams { stage: 8, axis: 0 });
    assert_eq!(t[10], StageParams { stage: 0, axis: 1 });
    assert_eq!(t[18], StageParams { stage: 8, axis: 1 });
    assert_eq!(stage_params(12), StageParams { stage: 2, axis: 1 });
}

#[test]
fn fft_butterflies_ping_pong_back_to_a() {
    let passes = butterfly_passes();
    assert_eq!(passes.len(), 2 * LOG2_N as usize);
    assert!(passes[0].a_to_b);
    for k in 1..passes.len() {
        assert_eq!(passes[k].a_to_b, !passes[k - 1].a_to_b);
    }
    assert!(!passes[passes.len() - 1].a_to_b);
    for (k, p) in passes.iter().enumerate() {
        assert_eq!(p.offset as u64, (k as u64 + 1) * PARAMS_STRIDE);
        let block = stage_params(p.offset / PARAMS_STRIDE as u32);
        assert_eq!(block.axis, if (k as u32) < LOG2_N { 0 } else { 1 });
        assert_eq!(block.stage, k as u32 % LOG2_N);
    }
    // the column axis starts from texture B, where the rows left the data
    assert!(!passes[LOG2_N as usize].a_to_b);
}

#[test]
fn fft_workgroups_cover_the_grid() {
    assert_eq!(workgroup_counts(), (64, 32));
    assert_eq!(FFT_N, 1 << LOG2_N);
}

#[test]
fn rd_first_run_seeds_and_alternates() {
    let mut s = RdSchedule::new();
    assert!(s.display_reads_a());
    assert_eq!(s.plan_run(false, 8), None);
    assert_eq!(s, RdSchedule::new());
    let plan = s.plan_run(true, 3).unwrap();
    assert_eq!(plan, RdRunPlan { seed: true, first_reads_a: true, substeps: 3 });
    assert!(plan.step_reads_a(0));
    assert!(!plan.step_reads_a(1));
    assert!(plan.step_reads_a(2));
    // the last step read A and wrote B, which is now the front
    assert!(!s.display_reads_a());
    let plan = s.plan_run(true, 2).unwrap();
    assert_eq!(plan, RdRunPlan { seed: false, first_reads_a: false, substeps: 2 });
    assert!(!s.display_reads_a());
}

#[test]
fn rd_reset_reseeds_from_a() {
    let mut s = RdSchedule::new();
    s.plan_run(true, 1);
    assert!(!s.display_reads_a());
    s.request_reset();
    assert!(!s.display_reads_a());
    let plan = s.plan_run(true, 0).unwrap();
    assert!(plan.seed && plan.first_reads_a);
    assert!(s.display_reads_a());
}

#[test]
fn blit_switches_once() {
    let p = plan_blit(BlitSource::Sim, ColorMode::Fft);
    assert_eq!(p, BlitPlan { source: BlitSource::Fft, rebind: true, run_fft: true });
    let q = plan_blit(p.source, ColorMode::Fft);
    assert_eq!(q, BlitPlan { source: BlitSource::Fft, rebind: false, run_fft: true });
    let r = plan_blit(q.source, ColorMode::Intensity);
    assert_eq!(r, BlitPlan { source: BlitSource::Sim, rebind: true, run_fft: false });
    let s = plan_blit(BlitSource::Sim, ColorMode::Reaction);
    assert_eq!(s, BlitPlan { source: BlitSource::Sim, rebind: false, run_fft: false });
}
