//! Configuration vocabulary and integer scheduling logic of a wave-interference
//! visualiser: the pickers' enums with their labels, shader ids and parameter
//! usage, the integer layout of emitter lattices and spectra, and the
//! per-frame decisions of the GPU passes.
use vstd::prelude::*;

pub mod fft;
pub mod frame;
pub mod frequency;
pub mod lattice;
pub mod phase;
pub mod rd;
pub mod renderer;
pub mod shape;
pub mod spectrum;
pub mod state;

verus! {

/// The smaller of two integers.
pub open spec fn min_int(a: int, b: int) -> int {
    if a < b {
        a
    } else {
        b
    }
}

} // verus!
