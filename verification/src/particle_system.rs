//! The two decisions of drawing a particle simulation that was run ahead of
//! time: which frame to show, and how many points it holds.

use vstd::prelude::*;

verus! {

/// The frame to show at step `step` of a simulation of `frames` frames: the
/// frame of that step, or the last one once the simulation has run out.
pub fn frame_index(step: usize, frames: usize) -> (index: usize)
    requires
        frames > 0,
    ensures
        step < frames ==> index == step,
        step >= frames ==> index == frames - 1,
{
    if step < frames {
        step
    } else {
        frames - 1
    }
}

/// The number of points in a frame of `values` coordinates, three to a
/// point, as the draw call takes it; a frame of more points than the call can
/// count is drawn up to that limit.
pub fn point_count(values: usize) -> (count: i32)
    ensures
        values / 3 <= i32::MAX ==> count == values / 3,
        values / 3 > i32::MAX ==> count == i32::MAX,
{
    let points = values / 3;
    if points <= 0x7fff_ffff {
        points as i32
    } else {
        i32::MAX
    }
}

} // verus!
