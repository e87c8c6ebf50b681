//! What listeners see. The kernel holds every event back until the next
//! barrier and then delivers what it holds as one frame.

use vstd::prelude::*;
use crate::key::{key_of, lemma_mapped_iff_supported};
use crate::pointer::{quarter, Axis};
use crate::protocol::{Control, Request};
use crate::script::{
    approach, click_script, keystroke, lemma_keystroke_shape, lemma_strides_step, move_to_script,
    normalization_burst, press_script, release_script, strides, typing_script,
};

verus! {

/// Whether a request writes an event: a press, a release or a motion.
pub open spec fn is_event(request: Request) -> bool {
    request is Press || request is Release || request is Move
}

/// The events written since the last barrier, in the order they were
/// written: what the kernel holds back once `script` has been performed.
pub open spec fn buffered(script: Seq<Request>) -> Seq<Request>
    decreases script.len(),
{
    if script.len() == 0 {
        Seq::empty()
    } else if script.last() == Request::Synchronize {
        Seq::empty()
    } else if is_event(script.last()) {
        buffered(script.drop_last()).push(script.last())
    } else {
        buffered(script.drop_last())
    }
}

/// The frames delivered to listeners while `script` was performed, oldest
/// first. Each barrier delivers one frame: the events buffered before it.
pub open spec fn frames(script: Seq<Request>) -> Seq<Seq<Request>>
    decreases script.len(),
{
    if script.len() == 0 {
        Seq::empty()
    } else if script.last() == Request::Synchronize {
        frames(script.drop_last()).push(buffered(script.drop_last()))
    } else {
        frames(script.drop_last())
    }
}

/// After a script that left nothing buffered, a second script is seen as
/// if it had been performed alone.
pub proof fn lemma_frames_concat(first: Seq<Request>, second: Seq<Request>)
    requires
        buffered(first) == Seq::<Request>::empty(),
    ensures
        buffered(first + second) == buffered(second),
        frames(first + second) == frames(first) + frames(second),
    decreases second.len(),
{
    if second.len() == 0 {
        assert(first + second == first);
        assert(frames(first) + frames(second) == frames(first));
    } else {
        lemma_frames_concat(first, second.drop_last());
        assert((first + second).drop_last() == first + second.drop_last());
        assert((first + second).last() == second.last());
        if second.last() == Request::Synchronize {
            assert(frames(first + second) == (frames(first) + frames(second.drop_last())).push(
                buffered(second.drop_last()),
            ));
            assert(frames(first) + frames(second) == (frames(first) + frames(
                second.drop_last(),
            )).push(buffered(second.drop_last())));
        }
    }
}

/// One event and a barrier are one frame that holds the event.
pub proof fn lemma_single_event_frame(event: Request)
    requires
        is_event(event),
    ensures
        buffered(seq![event, Request::Synchronize]) == Seq::<Request>::empty(),
        frames(seq![event, Request::Synchronize]) == seq![seq![event]],
{
    let script = seq![event, Request::Synchronize];
    let head = seq![event];
    assert(script.drop_last() == head);
    assert(head.drop_last() == Seq::<Request>::empty());
    assert(buffered(head) == seq![event]) by {
        assert(buffered(head.drop_last()) == Seq::<Request>::empty());
        assert(buffered(head) == Seq::<Request>::empty().push(event));
    }
    assert(frames(head) == Seq::<Seq<Request>>::empty()) by {
        assert(frames(head.drop_last()) == Seq::<Seq<Request>>::empty());
    }
    assert(frames(script) == Seq::<Seq<Request>>::empty().push(seq![event]));
}

/// A press is seen as one frame, and so is a release. A click is seen as
/// two: first the control down, then the control up, never both at once.
pub proof fn lemma_click_frames(control: Control)
    ensures
        frames(press_script(control)) == seq![seq![Request::Press(control)]],
        frames(release_script(control)) == seq![seq![Request::Release(control)]],
        frames(click_script(control)) == seq![
            seq![Request::Press(control)],
            seq![Request::Release(control)],
        ],
        buffered(press_script(control)) == Seq::<Request>::empty(),
        buffered(release_script(control)) == Seq::<Request>::empty(),
        buffered(click_script(control)) == Seq::<Request>::empty(),
{
    lemma_single_event_frame(Request::Press(control));
    lemma_single_event_frame(Request::Release(control));
    lemma_frames_concat(press_script(control), release_script(control));
}

/// Strides alone deliver nothing: all of them wait for the barrier.
pub proof fn lemma_strides_buffered(count: nat, dx: i32, dy: i32)
    ensures
        buffered(strides(count, dx, dy)) == strides(count, dx, dy),
        frames(strides(count, dx, dy)) == Seq::<Seq<Request>>::empty(),
    decreases count,
{
    lemma_strides_step(0, dx, dy);
    if count > 0 {
        let fewer = (count - 1) as nat;
        let before = strides(fewer, dx, dy);
        let mid = before.push(Request::Move(Axis::X, dx));
        let all = mid.push(Request::Move(Axis::Y, dy));
        lemma_strides_step(fewer, dx, dy);
        lemma_strides_buffered(fewer, dx, dy);
        assert(strides(count, dx, dy) == all);
        assert(all.drop_last() == mid);
        assert(mid.drop_last() == before);
        assert(buffered(mid) == buffered(before).push(mid.last()));
        assert(buffered(all) == buffered(mid).push(all.last()));
        assert(frames(mid) == frames(before));
        assert(frames(all) == frames(mid));
    }
}

/// The burst is seen as one frame of ten two-axis deltas, the approach as
/// one frame of four, and a move to a point as the one after the other.
pub proof fn lemma_motion_frames(x: i32, y: i32)
    ensures
        frames(normalization_burst()) == seq![strides(10nat, -500i32, -500i32)],
        frames(approach(x, y)) == seq![strides(4nat, quarter(x), quarter(y))],
        frames(move_to_script(x, y)) == seq![
            strides(10nat, -500i32, -500i32),
            strides(4nat, quarter(x), quarter(y)),
        ],
        buffered(normalization_burst()) == Seq::<Request>::empty(),
        buffered(approach(x, y)) == Seq::<Request>::empty(),
        buffered(move_to_script(x, y)) == Seq::<Request>::empty(),
{
    lemma_strides_buffered(10nat, -500i32, -500i32);
    lemma_strides_buffered(4nat, quarter(x), quarter(y));
    assert(normalization_burst().drop_last() == strides(10nat, -500i32, -500i32));
    assert(approach(x, y).drop_last() == strides(4nat, quarter(x), quarter(y)));
    assert(frames(normalization_burst()) == Seq::<Seq<Request>>::empty().push(
        strides(10nat, -500i32, -500i32),
    ));
    assert(frames(approach(x, y)) == Seq::<Seq<Request>>::empty().push(
        strides(4nat, quarter(x), quarter(y)),
    ));
    lemma_frames_concat(normalization_burst(), approach(x, y));
}

/// A pause delivers nothing and holds nothing back.
pub proof fn lemma_pause_is_unseen(milliseconds: u64)
    ensures
        frames(seq![Request::Sleep(milliseconds)]) == Seq::<Seq<Request>>::empty(),
        buffered(seq![Request::Sleep(milliseconds)]) == Seq::<Request>::empty(),
{
    let script = seq![Request::Sleep(milliseconds)];
    assert(script.drop_last() == Seq::<Request>::empty());
    assert(frames(script.drop_last()) == Seq::<Seq<Request>>::empty());
    assert(buffered(script.drop_last()) == Seq::<Request>::empty());
}

/// The keystroke of a character with a key is seen as the click of that
/// key; the pause before it is not seen.
pub proof fn lemma_keystroke_frames(c: char, delay_ms: u64)
    ensures
        buffered(keystroke(c, delay_ms)) == Seq::<Request>::empty(),
        key_of(c) matches Some(key) ==> frames(keystroke(c, delay_ms)) == seq![
            seq![Request::Press(Control::Key(key))],
            seq![Request::Release(Control::Key(key))],
        ],
        key_of(c) is None ==> frames(keystroke(c, delay_ms)) == Seq::<
            Seq<Request>,
        >::empty(),
{
    lemma_keystroke_shape(c, delay_ms);
    lemma_mapped_iff_supported(c);
    match key_of(c) {
        Some(key) => {
            lemma_pause_is_unseen(delay_ms);
            lemma_click_frames(Control::Key(key));
            lemma_frames_concat(seq![Request::Sleep(delay_ms)], click_script(Control::Key(key)));
            assert(Seq::<Seq<Request>>::empty() + frames(click_script(Control::Key(key)))
                == frames(click_script(Control::Key(key))));
        },
        None => {},
    }
}

/// Typing leaves nothing buffered, and each further character adds the
/// frames of its keystroke to what was seen before.
pub proof fn lemma_typing_frames(text: Seq<char>, delay_ms: u64)
    ensures
        buffered(typing_script(text, delay_ms)) == Seq::<Request>::empty(),
        text.len() > 0 ==> frames(typing_script(text, delay_ms)) == frames(
            typing_script(text.drop_last(), delay_ms),
        ) + frames(keystroke(text.last(), delay_ms)),
    decreases text.len(),
{
    if text.len() > 0 {
        lemma_typing_frames(text.drop_last(), delay_ms);
        lemma_keystroke_frames(text.last(), delay_ms);
        lemma_frames_concat(
            typing_script(text.drop_last(), delay_ms),
            keystroke(text.last(), delay_ms),
        );
    }
}

} // verus!
