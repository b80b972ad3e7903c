use vstd::prelude::*;

verus! {

/// Side of the square transformed by the FFT.
pub const FFT_N: u32 = 512;

/// log2 of `FFT_N`: butterfly stages per axis.
pub const LOG2_N: u32 = 9;

/// One initialisation stage plus `LOG2_N` butterfly stages per axis.
pub const TOTAL_STAGES: u32 = 19;

/// Byte distance between consecutive stage parameter blocks in the uniform buffer.
pub const PARAMS_STRIDE: u64 = 256;

/// Byte size of one stage parameter block (n, stage, axis, padding).
pub const PARAMS_SIZE: u64 = 16;

/// The stage and axis one dispatch of the FFT shader works on.
#[derive(Copy, Clone, PartialEq, Eq, Structural, Debug)]
pub struct StageParams {
    pub stage: u32,
    pub axis: u32,
}

/// Parameter block `i`: block 0 belongs to the initialisation pass; block
/// `i > 0` to butterfly `i - 1`, the rows (axis 0) first, then the columns.
pub open spec fn stage_params_spec(i: int) -> StageParams {
    if i == 0 {
        StageParams { stage: 0, axis: 0 }
    } else {
        StageParams {
            stage: ((i - 1) % LOG2_N as int) as u32,
            axis: if i - 1 < LOG2_N { 0 } else { 1 },
        }
    }
}

/// Parameter block `i` of the FFT's uniform buffer.
pub fn stage_params(i: u32) -> (p: StageParams)
    requires
        i < TOTAL_STAGES,
    ensures
        p == stage_params_spec(i as int),
{
    if i == 0 {
        StageParams { stage: 0, axis: 0 }
    } else {
        let idx = i - 1;
        let axis: u32 = if idx < LOG2_N {
            0
        } else {
            1
        };
        StageParams { stage: idx % LOG2_N, axis }
    }
}

/// All parameter blocks, in buffer order.
pub fn stage_table() -> (v: Vec<StageParams>)
    ensures
        v@.len() == TOTAL_STAGES,
        forall|i: int| 0 <= i < v@.len() ==> #[trigger] v@[i] == stage_params_spec(i),
{
    let mut v: Vec<StageParams> = Vec::new();
    let mut i: u32 = 0;
    while i < TOTAL_STAGES
        invariant
            i <= TOTAL_STAGES,
            v@.len() == i,
            forall|j: int| 0 <= j < v@.len() ==> #[trigger] v@[j] == stage_params_spec(j),
        decreases TOTAL_STAGES - i,
    {
        v.push(stage_params(i));
        i = i + 1;
    }
    v
}

/// One butterfly dispatch: the dynamic offset of its parameter block, and
/// whether it reads texture A and writes B (else it reads B and writes A).
#[derive(Copy, Clone, PartialEq, Eq, Structural, Debug)]
pub struct ButterflyPass {
    pub offset: u32,
    pub a_to_b: bool,
}

pub open spec fn butterfly_spec(k: int) -> ButterflyPass {
    ButterflyPass { offset: ((k + 1) * PARAMS_STRIDE) as u32, a_to_b: k % 2 == 0 }
}

/// The butterfly dispatches, in order, after the initialisation pass has
/// written texture A.
pub fn butterfly_passes() -> (v: Vec<ButterflyPass>)
    ensures
        v@.len() == TOTAL_STAGES - 1,
        forall|k: int| 0 <= k < v@.len() ==> #[trigger] v@[k] == butterfly_spec(k),
{
    let mut v: Vec<ButterflyPass> = Vec::new();
    let mut k: u32 = 0;
    while k < TOTAL_STAGES - 1
        invariant
            k <= TOTAL_STAGES - 1,
            v@.len() == k,
            forall|j: int| 0 <= j < v@.len() ==> #[trigger] v@[j] == butterfly_spec(j),
        decreases TOTAL_STAGES - 1 - k,
    {
        let offset: u64 = (k as u64 + 1) * PARAMS_STRIDE;
        v.push(ButterflyPass { offset: offset as u32, a_to_b: k % 2 == 0 });
        k = k + 1;
    }
    v
}

/// Workgroups (of 8×8 invocations) per side for the initialisation pass, and
/// along the butterfly axis, where each invocation handles a pair of points.
pub fn workgroup_counts() -> (r: (u32, u32))
    ensures
        r.0 == (FFT_N + 7) / 8,
        r.1 == (FFT_N / 2 + 7) / 8,
        r.0 * 8 >= FFT_N,
        r.1 * 8 >= FFT_N / 2,
{
    ((FFT_N + 7) / 8, (FFT_N / 2 + 7) / 8)
}

/// The FFT passes form one ping-pong chain that ends where the display reads:
/// the sizes agree (`FFT_N = 2^LOG2_N`); butterfly `k` uses the parameter
/// block of row stage `k` for `k < LOG2_N` and of column stage
/// `k - LOG2_N` after, each block inside the buffer; the first butterfly
/// reads texture A, which the initialisation pass wrote (with block 0,
/// stage 0 of the rows); each later one reads
/// the texture its predecessor wrote; and the last one writes texture A,
/// the one the display samples.
pub proof fn lemma_butterfly_chain()
    ensures
        FFT_N == vstd::arithmetic::power2::pow2(LOG2_N as nat),
        TOTAL_STAGES == 1 + 2 * LOG2_N,
        forall|k: int|
            0 <= k < TOTAL_STAGES - 1 ==> {
                &&& #[trigger] butterfly_spec(k).offset as int % PARAMS_STRIDE as int == 0
                &&& butterfly_spec(k).offset as int + PARAMS_SIZE <= TOTAL_STAGES * PARAMS_STRIDE
                &&& stage_params_spec(butterfly_spec(k).offset as int / PARAMS_STRIDE as int)
                    == StageParams {
                    stage: (k % LOG2_N as int) as u32,
                    axis: if k < LOG2_N { 0 } else { 1 },
                }
            },
        stage_params_spec(0) == (StageParams { stage: 0, axis: 0 }),
        forall|k: int| 0 <= k < TOTAL_STAGES - 1 ==> #[trigger] butterfly_spec(k).offset == (k + 1) * 256,
        butterfly_spec(0).a_to_b,
        forall|k: int|
            0 < k < TOTAL_STAGES - 1 ==> #[trigger] butterfly_spec(k).a_to_b == !butterfly_spec(k - 1).a_to_b,
        !butterfly_spec(TOTAL_STAGES - 2).a_to_b,
{
    vstd::arithmetic::power2::lemma2_to64();
    assert forall|k: int| 0 <= k < TOTAL_STAGES - 1 implies {
        &&& #[trigger] butterfly_spec(k).offset as int % PARAMS_STRIDE as int == 0
        &&& butterfly_spec(k).offset as int + PARAMS_SIZE <= TOTAL_STAGES * PARAMS_STRIDE
        &&& stage_params_spec(butterfly_spec(k).offset as int / PARAMS_STRIDE as int) == StageParams {
            stage: (k % LOG2_N as int) as u32,
            axis: if k < LOG2_N { 0 } else { 1 },
        }
    } by {
        assert((k + 1) * 256 <= 18 * 256);
        assert(((k + 1) * 256) % 256 == 0) by (nonlinear_arith)
            requires 0 <= k;
        assert(((k + 1) * 256) / 256 == k + 1) by (nonlinear_arith)
            requires 0 <= k;
    }
}

} // verus!
