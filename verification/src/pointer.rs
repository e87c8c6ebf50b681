//! The pointer: its buttons, its axes, and how a displacement is split
//! into steps.

use vstd::prelude::*;

verus! {

/// A button of the pointer.
#[derive(Clone, Copy, Debug, PartialEq, Eq, Hash, Structural)]
pub enum Mouse {
    Left,
    Right,
    Middle,
}

/// An axis of pointer motion. Both are relative: an event on an axis
/// moves the pointer by a delta from wherever it is.
#[derive(Clone, Copy, Debug, PartialEq, Eq, Hash, Structural)]
pub enum Axis {
    X,
    Y,
}

/// How many two-axis deltas drive the pointer into the top-left corner.
pub const NORMALIZE_STEPS: usize = 10;

/// The delta, on each axis, of one step towards the top-left corner.
pub const NORMALIZE_DELTA: i32 = -500;

/// How many equal steps a displacement is delivered in.
pub const APPROACH_STEPS: usize = 4;

/// A quarter of `v`, rounded towards zero.
pub open spec fn quarter(v: i32) -> i32 {
    if v >= 0 {
        (v / 4) as i32
    } else {
        (-((-v) / 4)) as i32
    }
}

/// Computes one of the four equal steps that a displacement of `v` is
/// delivered in. The remainder of the division is dropped.
pub fn quarter_step(v: i32) -> (step: i32)
    ensures
        step == quarter(v),
{
    v / 4
}

/// Four steps never overshoot the displacement asked for, and fall short
/// of it by three units at most.
pub proof fn lemma_quarter_gap(v: i32)
    ensures
        v >= 0 ==> 0 <= v - 4 * quarter(v) <= 3,
        v <= 0 ==> -3 <= v - 4 * quarter(v) <= 0,
        v % 4 == 0 ==> 4 * quarter(v) == v,
{
}

} // verus!
