use vstd::prelude::*;

verus! {

/// Side of the square reaction-diffusion grid.
pub const RD_N: u32 = 256;

/// Which of the two ping-pong state textures holds the current (U, V) field,
/// and whether the field has been seeded since the last reset.
#[derive(Copy, Clone, PartialEq, Eq, Structural, Debug)]
pub struct RdSchedule {
    pub front_is_a: bool,
    pub initialized: bool,
}

/// The dispatches of one frame: an optional reseed of both textures, then
/// `substeps` steps, the first reading texture A iff `first_reads_a`, each
/// later one reading the texture its predecessor wrote.
#[derive(Copy, Clone, PartialEq, Eq, Structural, Debug)]
pub struct RdRunPlan {
    pub seed: bool,
    pub first_reads_a: bool,
    pub substeps: u32,
}

/// Whether step `k` of a run whose first step reads `first_reads_a` reads texture A.
pub open spec fn step_reads_a_spec(first_reads_a: bool, k: int) -> bool {
    first_reads_a != (k % 2 == 1)
}

impl RdRunPlan {
    /// Whether step `k` reads texture A (and writes B); else it reads B and writes A.
    pub fn step_reads_a(&self, k: u32) -> (b: bool)
        requires
            k < self.substeps,
        ensures
            b == step_reads_a_spec(self.first_reads_a, k as int),
    {
        self.first_reads_a != (k % 2 == 1)
    }
}

impl RdSchedule {
    /// Before the first run: front is A and nothing is seeded.
    pub fn new() -> (s: Self)
        ensures
            s.front_is_a,
            !s.initialized,
    {
        RdSchedule { front_is_a: true, initialized: false }
    }

    /// Ask for a reseed at the next run.
    pub fn request_reset(&mut self)
        ensures
            !final(self).initialized,
            final(self).front_is_a == old(self).front_is_a,
    {
        self.initialized = false;
    }

    /// The dispatches of one frame with `substeps` steps, and the state after
    /// them; nothing is dispatched, and nothing changes, until the bind groups
    /// exist.
    pub fn plan_run(&mut self, bindings_ready: bool, substeps: u32) -> (p: Option<RdRunPlan>)
        ensures
            !bindings_ready ==> p is None && *final(self) == *old(self),
            bindings_ready ==> p == Some(
                RdRunPlan {
                    seed: !old(self).initialized,
                    first_reads_a: !old(self).initialized || old(self).front_is_a,
                    substeps,
                },
            ),
            bindings_ready ==> final(self).initialized,
            bindings_ready ==> final(self).front_is_a == ((!old(self).initialized
                || old(self).front_is_a) != (substeps % 2 == 1)),
    {
        if !bindings_ready {
            return None;
        }
        let seed = !self.initialized;
        if seed {
            self.initialized = true;
            self.front_is_a = true;
        }
        let first_reads_a = self.front_is_a;
        if substeps % 2 == 1 {
            self.front_is_a = !self.front_is_a;
        }
        Some(RdRunPlan { seed, first_reads_a, substeps })
    }

    /// Whether the display pass samples texture A.
    pub fn display_reads_a(&self) -> (b: bool)
        ensures
            b == self.front_is_a,
    {
        self.front_is_a
    }
}

/// The steps of a run form one ping-pong chain: each step reads the texture
/// its predecessor wrote, and afterwards the front (what the display samples)
/// is the texture the last step wrote, or the first step's input when no step
/// ran. A reseed restarts the chain from texture A.
pub proof fn lemma_rd_chain(s: RdSchedule, substeps: u32)
    ensures
        ({
            let first = !s.initialized || s.front_is_a;
            let front = first != (substeps % 2 == 1);
            &&& substeps > 0 ==> step_reads_a_spec(first, 0) == first
            &&& forall|k: int|
                0 < k < substeps ==> #[trigger] step_reads_a_spec(first, k) == !step_reads_a_spec(
                    first,
                    k - 1,
                )
            &&& substeps > 0 ==> front == !step_reads_a_spec(first, substeps - 1)
            &&& substeps == 0 ==> front == first
            &&& !s.initialized ==> first
        }),
{
}

} // verus!
