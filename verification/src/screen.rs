//! Where the pointer ends up. The device sends deltas only; it is the
//! screen that turns them into a position, by stopping the pointer at its
//! edges.

use vstd::prelude::*;
use crate::pointer::{lemma_quarter_gap, quarter, Axis};
use crate::protocol::Request;
use crate::script::{
    approach, delta, lemma_strides_step, move_to_script, normalization_burst, strides,
};

verus! {

/// The longest screen axis, in units, on which the burst is sure to reach
/// the corner from anywhere.
pub const PINNED_EXTENT: i32 = 5000;

/// Where a pointer at `position` comes to rest when it is moved by `by`
/// along an axis that runs from 0 to `extent`: an edge stops it.
pub open spec fn moved(position: int, by: int, extent: int) -> int {
    if position + by < 0 {
        0
    } else if position + by > extent {
        extent
    } else {
        position + by
    }
}

/// Where a pointer that starts at `start` is, along `axis`, after every
/// request of `script` has been performed on a screen of that `extent`.
pub open spec fn position_after(start: int, script: Seq<Request>, axis: Axis, extent: int) -> int
    decreases script.len(),
{
    if script.len() == 0 {
        start
    } else {
        moved(
            position_after(start, script.drop_last(), axis, extent),
            delta(script.last(), axis),
            extent,
        )
    }
}

/// The pointer never leaves the screen.
pub proof fn lemma_position_on_screen(start: int, script: Seq<Request>, axis: Axis, extent: int)
    requires
        0 <= start <= extent,
    ensures
        0 <= position_after(start, script, axis, extent) <= extent,
    decreases script.len(),
{
    if script.len() > 0 {
        lemma_position_on_screen(start, script.drop_last(), axis, extent);
    }
}

/// Performing one script after another moves the pointer as the first
/// does, and from there as the second does.
pub proof fn lemma_position_concat(
    start: int,
    first: Seq<Request>,
    second: Seq<Request>,
    axis: Axis,
    extent: int,
)
    ensures
        position_after(start, first + second, axis, extent) == position_after(
            position_after(start, first, axis, extent),
            second,
            axis,
            extent,
        ),
    decreases second.len(),
{
    if second.len() == 0 {
        assert(first + second == first);
    } else {
        lemma_position_concat(start, first, second.drop_last(), axis, extent);
        assert((first + second).drop_last() == first + second.drop_last());
    }
}

/// Strides in one direction carry the pointer as far as they add up to,
/// or to the edge that lies in their way.
pub proof fn lemma_strides_position(count: nat, dx: i32, dy: i32, start: int, extent: int)
    requires
        0 <= start <= extent,
    ensures
        position_after(start, strides(count, dx, dy), Axis::X, extent) == moved(
            start,
            count * dx,
            extent,
        ),
        position_after(start, strides(count, dx, dy), Axis::Y, extent) == moved(
            start,
            count * dy,
            extent,
        ),
    decreases count,
{
    lemma_strides_step(0, dx, dy);
    if count > 0 {
        let fewer = (count - 1) as nat;
        let before = strides(fewer, dx, dy);
        let mid = before.push(Request::Move(Axis::X, dx));
        let all = mid.push(Request::Move(Axis::Y, dy));
        lemma_strides_step(fewer, dx, dy);
        lemma_strides_position(fewer, dx, dy, start, extent);
        assert(strides(count, dx, dy) == all);
        assert(all.drop_last() == mid);
        assert(mid.drop_last() == before);
        assert(position_after(start, mid, Axis::X, extent) == moved(
            position_after(start, before, Axis::X, extent),
            dx as int,
            extent,
        ));
        assert(position_after(start, mid, Axis::Y, extent) == position_after(
            start,
            before,
            Axis::Y,
            extent,
        ));
        assert(position_after(start, all, Axis::X, extent) == position_after(
            start,
            mid,
            Axis::X,
            extent,
        ));
        assert(position_after(start, all, Axis::Y, extent) == moved(
            position_after(start, mid, Axis::Y, extent),
            dy as int,
            extent,
        ));
        assert(count * dx == fewer * dx + dx) by (nonlinear_arith)
            requires
                fewer == count - 1,
        ;
        assert(count * dy == fewer * dy + dy) by (nonlinear_arith)
            requires
                fewer == count - 1,
        ;
        assert(dx >= 0 ==> fewer * dx >= 0) by (nonlinear_arith);
        assert(dx <= 0 ==> fewer * dx <= 0) by (nonlinear_arith);
        assert(dy >= 0 ==> fewer * dy >= 0) by (nonlinear_arith);
        assert(dy <= 0 ==> fewer * dy <= 0) by (nonlinear_arith);
    }
}

/// On a screen of at most 5000 units the burst leaves the pointer in the
/// top-left corner, wherever it was.
pub proof fn lemma_burst_pins_pointer(start: int, axis: Axis, extent: int)
    requires
        0 <= start <= extent <= PINNED_EXTENT,
    ensures
        position_after(start, normalization_burst(), axis, extent) == 0,
{
    let moves = strides(10nat, -500i32, -500i32);
    lemma_strides_position(10nat, -500i32, -500i32, start, extent);
    assert(normalization_burst().drop_last() == moves);
}

/// From the corner, the approach brings the pointer to four times the
/// quarter of the target on each axis: not beyond the target, and short
/// of it by three units at most.
pub proof fn lemma_approach_from_corner(x: i32, y: i32, width: int, height: int)
    requires
        0 <= x <= width,
        0 <= y <= height,
    ensures
        position_after(0, approach(x, y), Axis::X, width) == 4 * quarter(x),
        position_after(0, approach(x, y), Axis::Y, height) == 4 * quarter(y),
        0 <= x - position_after(0, approach(x, y), Axis::X, width) <= 3,
        0 <= y - position_after(0, approach(x, y), Axis::Y, height) <= 3,
{
    let moves = strides(4nat, quarter(x), quarter(y));
    lemma_strides_position(4nat, quarter(x), quarter(y), 0, width);
    lemma_strides_position(4nat, quarter(x), quarter(y), 0, height);
    assert(approach(x, y).drop_last() == moves);
    lemma_quarter_gap(x);
    lemma_quarter_gap(y);
}

/// A move to a point of the screen ends at that point, up to the three
/// units that the division may drop, wherever the pointer was before.
pub proof fn lemma_move_reaches_target(
    x: i32,
    y: i32,
    start_x: int,
    start_y: int,
    width: int,
    height: int,
)
    requires
        0 <= start_x <= width <= PINNED_EXTENT,
        0 <= start_y <= height <= PINNED_EXTENT,
        0 <= x <= width,
        0 <= y <= height,
    ensures
        position_after(start_x, move_to_script(x, y), Axis::X, width) == 4 * quarter(x),
        position_after(start_y, move_to_script(x, y), Axis::Y, height) == 4 * quarter(y),
        0 <= x - position_after(start_x, move_to_script(x, y), Axis::X, width) <= 3,
        0 <= y - position_after(start_y, move_to_script(x, y), Axis::Y, height) <= 3,
{
    lemma_burst_pins_pointer(start_x, Axis::X, width);
    lemma_burst_pins_pointer(start_y, Axis::Y, height);
    lemma_position_concat(start_x, normalization_burst(), approach(x, y), Axis::X, width);
    lemma_position_concat(start_y, normalization_burst(), approach(x, y), Axis::Y, height);
    lemma_approach_from_corner(x, y, width, height);
}

} // verus!
