//! The requests that each operation of the device consists of, in order.

use vstd::prelude::*;
use crate::key::{is_supported, key_of, lemma_mapped_iff_supported};
use crate::pointer::{
    lemma_quarter_gap, quarter, Axis, APPROACH_STEPS, NORMALIZE_DELTA, NORMALIZE_STEPS,
};
use crate::protocol::{Control, Request};

verus! {

/// Holding a control down: the event, then the barrier that makes it
/// visible.
pub open spec fn press_script(control: Control) -> Seq<Request> {
    seq![Request::Press(control), Request::Synchronize]
}

/// Letting a control go: the event, then the barrier that makes it visible.
pub open spec fn release_script(control: Control) -> Seq<Request> {
    seq![Request::Release(control), Request::Synchronize]
}

/// A click: the control goes down and comes up again. The two transitions
/// are two frames, so a listener sees them one after the other.
pub open spec fn click_script(control: Control) -> Seq<Request> {
    press_script(control) + release_script(control)
}

/// What typing one character takes: the pause, then a click of its key.
/// A character without a key takes nothing, not even the pause.
pub open spec fn keystroke(c: char, delay_ms: u64) -> Seq<Request> {
    match key_of(c) {
        Some(key) => seq![Request::Sleep(delay_ms)] + click_script(Control::Key(key)),
        None => Seq::empty(),
    }
}

/// What typing a text takes: the keystrokes of its characters, in the
/// order of the text.
pub open spec fn typing_script(text: Seq<char>, delay_ms: u64) -> Seq<Request>
    decreases text.len(),
{
    if text.len() == 0 {
        Seq::empty()
    } else {
        typing_script(text.drop_last(), delay_ms) + keystroke(text.last(), delay_ms)
    }
}

/// `count` two-axis deltas: each is a motion of `dx` on the X axis followed
/// by a motion of `dy` on the Y axis.
pub open spec fn strides(count: nat, dx: i32, dy: i32) -> Seq<Request> {
    Seq::new(
        2 * count,
        |i: int|
            if i % 2 == 0 {
                Request::Move(Axis::X, dx)
            } else {
                Request::Move(Axis::Y, dy)
            },
    )
}

/// The burst that pins the pointer against the top-left corner of the
/// screen, wherever it was, followed by one barrier.
pub open spec fn normalization_burst() -> Seq<Request> {
    strides(NORMALIZE_STEPS as nat, NORMALIZE_DELTA, NORMALIZE_DELTA).push(Request::Synchronize)
}

/// A displacement of `(x, y)`, delivered in equal steps and followed by one
/// barrier. Each step is a quarter of the displacement, rounded towards
/// zero.
pub open spec fn approach(x: i32, y: i32) -> Seq<Request> {
    strides(APPROACH_STEPS as nat, quarter(x), quarter(y)).push(Request::Synchronize)
}

/// A move to the point `(x, y)` of the screen: into the corner first, then
/// out to the point.
pub open spec fn move_to_script(x: i32, y: i32) -> Seq<Request> {
    normalization_burst() + approach(x, y)
}

/// By how much one request moves the pointer along `axis`.
pub open spec fn delta(request: Request, axis: Axis) -> int {
    match request {
        Request::Move(a, v) => if a == axis { v as int } else { 0 },
        _ => 0,
    }
}

/// By how much a script asks the pointer to move along `axis`, all its
/// motions added up.
pub open spec fn displacement(script: Seq<Request>, axis: Axis) -> int
    decreases script.len(),
{
    if script.len() == 0 {
        0
    } else {
        displacement(script.drop_last(), axis) + delta(script.last(), axis)
    }
}

/// One more stride is two more requests at the end.
pub proof fn lemma_strides_step(count: nat, dx: i32, dy: i32)
    ensures
        strides(count + 1, dx, dy) == strides(count, dx, dy).push(Request::Move(Axis::X, dx)).push(
            Request::Move(Axis::Y, dy),
        ),
        strides(0, dx, dy) == Seq::<Request>::empty(),
{
    assert(strides(count + 1, dx, dy) =~= strides(count, dx, dy).push(
        Request::Move(Axis::X, dx),
    ).push(Request::Move(Axis::Y, dy)));
    assert(strides(0, dx, dy) =~= Seq::<Request>::empty());
}

/// Strides add up: `count` of them move the pointer by `count` times the
/// delta on each axis.
pub proof fn lemma_strides_displacement(count: nat, dx: i32, dy: i32)
    ensures
        displacement(strides(count, dx, dy), Axis::X) == count * dx,
        displacement(strides(count, dx, dy), Axis::Y) == count * dy,
    decreases count,
{
    if count == 0 {
        lemma_strides_step(0, dx, dy);
    } else {
        let before = strides((count - 1) as nat, dx, dy);
        let mid = before.push(Request::Move(Axis::X, dx));
        let all = mid.push(Request::Move(Axis::Y, dy));
        lemma_strides_step((count - 1) as nat, dx, dy);
        lemma_strides_displacement((count - 1) as nat, dx, dy);
        assert(strides(count, dx, dy) == all);
        assert(all.drop_last() == mid);
        assert(mid.drop_last() == before);
        assert(displacement(mid, Axis::X) == displacement(before, Axis::X) + dx);
        assert(displacement(mid, Axis::Y) == displacement(before, Axis::Y));
        assert(displacement(all, Axis::X) == displacement(mid, Axis::X));
        assert(displacement(all, Axis::Y) == displacement(mid, Axis::Y) + dy);
        assert(count * dx == (count - 1) * dx + dx) by (nonlinear_arith);
        assert(count * dy == (count - 1) * dy + dy) by (nonlinear_arith);
    }
}

/// A click is a press and, later, a release, each followed by a barrier of
/// its own: the two are never one frame.
pub proof fn lemma_click_shape(control: Control)
    ensures
        click_script(control) == seq![
            Request::Press(control),
            Request::Synchronize,
            Request::Release(control),
            Request::Synchronize,
        ],
{
    assert(click_script(control) =~= seq![
        Request::Press(control),
        Request::Synchronize,
        Request::Release(control),
        Request::Synchronize,
    ]);
}

/// A character with a key takes five requests: the pause, then the click
/// of its key. A character without a key takes none.
pub proof fn lemma_keystroke_shape(c: char, delay_ms: u64)
    ensures
        is_supported(c) ==> key_of(c) is Some && keystroke(c, delay_ms) == seq![
            Request::Sleep(delay_ms),
            Request::Press(Control::Key(key_of(c)->0)),
            Request::Synchronize,
            Request::Release(Control::Key(key_of(c)->0)),
            Request::Synchronize,
        ],
        !is_supported(c) ==> keystroke(c, delay_ms) == Seq::<Request>::empty(),
{
    lemma_mapped_iff_supported(c);
    if is_supported(c) {
        let key = key_of(c)->0;
        lemma_click_shape(Control::Key(key));
        assert(keystroke(c, delay_ms) =~= seq![
            Request::Sleep(delay_ms),
            Request::Press(Control::Key(key)),
            Request::Synchronize,
            Request::Release(Control::Key(key)),
            Request::Synchronize,
        ]);
    }
}

/// Typing a text of which no character has a key takes no request at all:
/// no key is touched and no pause is made.
pub proof fn lemma_unsupported_text_types_nothing(text: Seq<char>, delay_ms: u64)
    requires
        forall|i: int| 0 <= i < text.len() ==> !is_supported(#[trigger] text[i]),
    ensures
        typing_script(text, delay_ms) == Seq::<Request>::empty(),
    decreases text.len(),
{
    if text.len() > 0 {
        lemma_unsupported_text_types_nothing(text.drop_last(), delay_ms);
        lemma_keystroke_shape(text.last(), delay_ms);
    }
}

/// Typing one text after another is typing the two joined: keystrokes come
/// in the order of the characters and are never interleaved.
pub proof fn lemma_typing_in_order(first: Seq<char>, second: Seq<char>, delay_ms: u64)
    ensures
        typing_script(first + second, delay_ms) == typing_script(first, delay_ms) + typing_script(
            second,
            delay_ms,
        ),
    decreases second.len(),
{
    if second.len() == 0 {
        assert(first + second == first);
    } else {
        lemma_typing_in_order(first, second.drop_last(), delay_ms);
        assert((first + second).drop_last() == first + second.drop_last());
    }
}

/// The burst is ten two-axis deltas of -500 and one barrier, nothing else.
pub proof fn lemma_burst_shape()
    ensures
        normalization_burst().len() == 21,
        forall|i: int|
            0 <= i < 10 ==> #[trigger] normalization_burst()[2 * i] == Request::Move(
                Axis::X,
                -500i32,
            ) && normalization_burst()[2 * i + 1] == Request::Move(Axis::Y, -500i32),
        normalization_burst()[20] == Request::Synchronize,
{
}

/// The approach is four two-axis deltas, each a quarter of the
/// displacement rounded towards zero, and one barrier, nothing else.
pub proof fn lemma_approach_shape(x: i32, y: i32)
    ensures
        approach(x, y).len() == 9,
        forall|i: int|
            0 <= i < 4 ==> #[trigger] approach(x, y)[2 * i] == Request::Move(Axis::X, quarter(x))
                && approach(x, y)[2 * i + 1] == Request::Move(Axis::Y, quarter(y)),
        approach(x, y)[8] == Request::Synchronize,
{
}

/// A move to a point is the burst followed by the approach. A relative
/// move is the approach alone, too short to hold a burst.
pub proof fn lemma_move_to_is_burst_then_approach(x: i32, y: i32)
    ensures
        move_to_script(x, y).len() == 30,
        move_to_script(x, y).take(21) == normalization_burst(),
        move_to_script(x, y).skip(21) == approach(x, y),
        approach(x, y).len() < normalization_burst().len(),
{
    lemma_burst_shape();
    lemma_approach_shape(x, y);
    assert(move_to_script(x, y).take(21) =~= normalization_burst());
    assert(move_to_script(x, y).skip(21) =~= approach(x, y));
}

/// Requests that follow one another add up their motions.
pub proof fn lemma_displacement_concat(first: Seq<Request>, second: Seq<Request>, axis: Axis)
    ensures
        displacement(first + second, axis) == displacement(first, axis) + displacement(
            second,
            axis,
        ),
    decreases second.len(),
{
    if second.len() == 0 {
        assert(first + second == first);
    } else {
        lemma_displacement_concat(first, second.drop_last(), axis);
        assert((first + second).drop_last() == first + second.drop_last());
    }
}

/// The approach moves the pointer by four times the quarter of what was
/// asked, on each axis: not beyond the target, and short of it by three
/// units at most.
pub proof fn lemma_approach_displacement(x: i32, y: i32)
    ensures
        displacement(approach(x, y), Axis::X) == 4 * quarter(x),
        displacement(approach(x, y), Axis::Y) == 4 * quarter(y),
        x >= 0 ==> 0 <= x - displacement(approach(x, y), Axis::X) <= 3,
        x <= 0 ==> -3 <= x - displacement(approach(x, y), Axis::X) <= 0,
        y >= 0 ==> 0 <= y - displacement(approach(x, y), Axis::Y) <= 3,
        y <= 0 ==> -3 <= y - displacement(approach(x, y), Axis::Y) <= 0,
{
    let moves = strides(4nat, quarter(x), quarter(y));
    lemma_strides_displacement(4nat, quarter(x), quarter(y));
    assert(approach(x, y).drop_last() == moves);
    lemma_quarter_gap(x);
    lemma_quarter_gap(y);
}

/// The burst asks for 5000 units towards the corner on each axis, and a
/// move to a point for that much and the approach.
pub proof fn lemma_burst_displacement(x: i32, y: i32)
    ensures
        displacement(normalization_burst(), Axis::X) == -5000,
        displacement(normalization_burst(), Axis::Y) == -5000,
        displacement(move_to_script(x, y), Axis::X) == -5000 + 4 * quarter(x),
        displacement(move_to_script(x, y), Axis::Y) == -5000 + 4 * quarter(y),
{
    let moves = strides(10nat, -500i32, -500i32);
    lemma_strides_displacement(10nat, -500i32, -500i32);
    assert(normalization_burst().drop_last() == moves);
    lemma_approach_displacement(x, y);
    lemma_displacement_concat(normalization_burst(), approach(x, y), Axis::X);
    lemma_displacement_concat(normalization_burst(), approach(x, y), Axis::Y);
}

} // verus!
