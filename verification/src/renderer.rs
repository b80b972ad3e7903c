use vstd::prelude::*;
use crate::spectrum::{SpectrumKind, lemma_spectrum_count};

verus! {

/// Room, in entries, of the emitter storage buffer.
pub const MAX_EMITTERS: u64 = 1024;

/// Room, in entries, of the spectrum storage buffer.
pub const MAX_SPEC: u64 = 16;

pub open spec fn upload_len_spec(len: int, capacity: int) -> int {
    if len < capacity {
        len
    } else {
        capacity
    }
}

/// How many leading entries of a list of `len` are written into a buffer with
/// room for `capacity`; `None` when there is nothing to write.
pub fn upload_len(len: usize, capacity: u64) -> (r: Option<usize>)
    ensures
        r is None <==> upload_len_spec(len as int, capacity as int) == 0,
        r matches Some(n) ==> n == upload_len_spec(len as int, capacity as int),
{
    let l = len as u64;
    let n: u64 = if l < capacity {
        l
    } else {
        capacity
    };
    if n == 0 {
        None
    } else {
        Some(n as usize)
    }
}

/// Side of the offscreen sim texture asked for by `requested` (at least 1).
pub open spec fn sim_side(requested: u32) -> u32 {
    if requested < 1 {
        1
    } else {
        requested
    }
}

/// The side the offscreen sim texture must be recreated with, or `None`
/// when the current one already has the requested side.
pub fn sim_resize(current: u32, requested: u32) -> (r: Option<u32>)
    ensures
        r == (if sim_side(requested) == current {
            None
        } else {
            Some(sim_side(requested))
        }),
        requested >= 1 && requested != current ==> r == Some(requested),
        requested >= 1 && requested == current ==> r is None,
        requested == 0 ==> r == (if current == 1 { None } else { Some(1u32) }),
{
    let size = if requested < 1 {
        1
    } else {
        requested
    };
    if size == current {
        None
    } else {
        Some(size)
    }
}

/// The texture gets exactly the side asked for, 0 counting as 1: a new side
/// is taken whenever it differs from the current one, and only then.
pub proof fn lemma_sim_resize_takes_request(current: u32, requested: u32)
    ensures
        requested >= 1 ==> sim_side(requested) == requested,
        requested == 0 ==> sim_side(requested) == 1,
        requested >= 1 && requested != current ==> (if sim_side(requested) == current {
            None
        } else {
            Some(sim_side(requested))
        }) == Some(requested),
        requested == current && requested >= 1 ==> sim_side(requested) == current,
{
}

/// The upload writes as many entries as there are, up to the room: never
/// more than either, and all of them when they fit.
pub proof fn lemma_upload_len(len: int, capacity: int)
    ensures
        upload_len_spec(len, capacity) <= len,
        upload_len_spec(len, capacity) <= capacity,
        upload_len_spec(len, capacity) == len || upload_len_spec(len, capacity) == capacity,
        len <= capacity ==> upload_len_spec(len, capacity) == len,
{
}

/// Resizing settles at once: after resizing to what was asked, the same
/// request asks for nothing more, and the side is never 0.
pub proof fn lemma_sim_resize_settles(current: u32, requested: u32)
    ensures
        sim_side(requested) >= 1,
        sim_side(sim_side(requested)) == sim_side(requested),
{
}

/// Every spectrum built for the spectrum buffer's room fits it whole and
/// is never empty, so its upload writes every component.
pub proof fn lemma_spectrum_fits_buffer(k: SpectrumKind, count: int)
    ensures
        1 <= k.spec_partials(count, MAX_SPEC as int).len() <= MAX_SPEC,
        upload_len_spec(k.spec_partials(count, MAX_SPEC as int).len() as int, MAX_SPEC as int)
            == k.spec_partials(count, MAX_SPEC as int).len(),
{
    lemma_spectrum_count(k, count, count, MAX_SPEC as int);
}

} // verus!
