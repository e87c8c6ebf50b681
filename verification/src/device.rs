//! The virtual device: operations schedule requests, the driver performs
//! them one at a time and reports the kernel's answer.

use std::collections::VecDeque;
use vstd::prelude::*;
use crate::key::{is_supported, key_code_from_char, Key};
use crate::pointer::{quarter_step, Axis, Mouse, APPROACH_STEPS, NORMALIZE_DELTA, NORMALIZE_STEPS};
use crate::protocol::{Control, Error, Reply, Request};
use crate::script::{
    approach, click_script, lemma_strides_step, lemma_unsupported_text_types_nothing,
    move_to_script, press_script, release_script, strides, typing_script,
};

verus! {

/// What stays scheduled once the kernel has answered the head of
/// `pending`: the rest after an acceptance, nothing after a refusal.
pub open spec fn remaining_after(pending: Seq<Request>, reply: Reply) -> Seq<Request> {
    if pending.len() > 0 && reply == Reply::Accepted {
        pending.drop_first()
    } else {
        Seq::empty()
    }
}

/// What the answer to the head of `pending` means for the operation: a
/// refusal is an I/O error, anything else lets it go on.
pub open spec fn outcome_of(pending: Seq<Request>, reply: Reply) -> Result<(), Error> {
    if pending.len() > 0 && reply == Reply::Rejected {
        Err(Error::DeviceIoError)
    } else {
        Ok(())
    }
}

/// A registered virtual keyboard and mouse.
///
/// The device performs no input or output itself. An operation appends the
/// requests it consists of to a queue; the driver takes the request at the
/// head with [`VirtualDevice::current`], performs it, and hands the kernel's
/// answer to [`VirtualDevice::advance`]. The view of a device is that
/// queue: the requests scheduled and not yet answered, oldest first.
///
/// The device keeps no record of which keys or buttons are held: balancing
/// presses and releases is up to the caller. There is one owner and no
/// copy, since the requests of two operations must not interleave.
#[derive(Debug)]
pub struct VirtualDevice {
    queue: VecDeque<Request>,
}

impl View for VirtualDevice {
    type V = Seq<Request>;

    closed spec fn view(&self) -> Seq<Request> {
        self.queue@
    }
}

impl VirtualDevice {
    /// A device with nothing scheduled.
    pub(crate) fn new() -> (device: VirtualDevice)
        ensures
            device@ == Seq::<Request>::empty(),
    {
        VirtualDevice { queue: VecDeque::new() }
    }

    /// Schedules `count` two-axis deltas of `(dx, dy)`.
    fn schedule_strides(&mut self, count: usize, dx: i32, dy: i32)
        ensures
            final(self)@ == old(self)@ + strides(count as nat, dx, dy),
    {
        proof {
            lemma_strides_step(0, dx, dy);
        }
        let mut done: usize = 0;
        while done < count
            invariant
                done <= count,
                self@ == old(self)@ + strides(done as nat, dx, dy),
            decreases count - done,
        {
            proof {
                lemma_strides_step(done as nat, dx, dy);
            }
            self.queue.push_back(Request::Move(Axis::X, dx));
            self.queue.push_back(Request::Move(Axis::Y, dy));
            done = done + 1;
        }
    }

    /// Schedules the press of a key and the barrier that makes it visible.
    pub fn key_down(&mut self, code: Key)
        ensures
            final(self)@ == old(self)@ + press_script(Control::Key(code)),
    {
        self.queue.push_back(Request::Press(Control::Key(code)));
        self.queue.push_back(Request::Synchronize);
    }

    /// Schedules the release of a key and the barrier that makes it visible.
    pub fn key_up(&mut self, code: Key)
        ensures
            final(self)@ == old(self)@ + release_script(Control::Key(code)),
    {
        self.queue.push_back(Request::Release(Control::Key(code)));
        self.queue.push_back(Request::Synchronize);
    }

    /// Schedules a click of a key: a press and a release, each in a frame of
    /// its own.
    pub fn key(&mut self, code: Key)
        ensures
            final(self)@ == old(self)@ + click_script(Control::Key(code)),
    {
        self.key_down(code);
        self.key_up(code);
    }

    /// Schedules the typing of `text`: for each character that has a key, a
    /// pause of `delay_ms` milliseconds and a click of that key. Characters
    /// without a key are passed over and cost no pause.
    pub fn key_write(&mut self, text: &str, delay_ms: u64)
        ensures
            final(self)@ == old(self)@ + typing_script(text@, delay_ms),
            (forall|i: int| 0 <= i < text@.len() ==> !is_supported(#[trigger] text@[i]))
                ==> final(self)@ == old(self)@,
    {
        for c in it: text.chars()
            invariant
                it.seq() == text@,
                self@ == old(self)@ + typing_script(text@.take(it.index()), delay_ms),
        {
            proof {
                let seen = text@.take(it.index() + 1);
                assert(seen.drop_last() == text@.take(it.index()));
                assert(seen.last() == c);
            }
            match key_code_from_char(c) {
                Some(code) => {
                    self.queue.push_back(Request::Sleep(delay_ms));
                    self.key(code);
                },
                None => {},
            }
        }
        proof {
            assert(text@.take(text@.len() as int) == text@);
            if forall|i: int| 0 <= i < text@.len() ==> !is_supported(#[trigger] text@[i]) {
                lemma_unsupported_text_types_nothing(text@, delay_ms);
            }
        }
    }

    /// Schedules the press of a pointer button.
    pub fn mouse_down(&mut self, button: Mouse)
        ensures
            final(self)@ == old(self)@ + press_script(Control::Button(button)),
    {
        self.queue.push_back(Request::Press(Control::Button(button)));
        self.queue.push_back(Request::Synchronize);
    }

    /// Schedules the release of a pointer button.
    pub fn mouse_up(&mut self, button: Mouse)
        ensures
            final(self)@ == old(self)@ + release_script(Control::Button(button)),
    {
        self.queue.push_back(Request::Release(Control::Button(button)));
        self.queue.push_back(Request::Synchronize);
    }

    /// Schedules a click of a pointer button.
    pub fn mouse_click(&mut self, button: Mouse)
        ensures
            final(self)@ == old(self)@ + click_script(Control::Button(button)),
    {
        self.mouse_down(button);
        self.mouse_up(button);
    }

    /// Schedules a move of the pointer to the point `(x, y)` of the screen.
    ///
    /// The device knows only relative motion, so the pointer is first driven
    /// into the top-left corner and then out to the point, in four steps.
    pub fn mouse_move(&mut self, x: i32, y: i32)
        ensures
            final(self)@ == old(self)@ + move_to_script(x, y),
    {
        self.schedule_strides(NORMALIZE_STEPS, NORMALIZE_DELTA, NORMALIZE_DELTA);
        self.queue.push_back(Request::Synchronize);
        self.mouse_move_relative(x, y);
    }

    /// Schedules a move of the pointer by `(x, y)` from wherever it is, in
    /// four steps. No corner is visited.
    pub fn mouse_move_relative(&mut self, x: i32, y: i32)
        ensures
            final(self)@ == old(self)@ + approach(x, y),
    {
        self.schedule_strides(APPROACH_STEPS, quarter_step(x), quarter_step(y));
        self.queue.push_back(Request::Synchronize);
    }

    /// Schedules a pause of `milliseconds`. No event reaches the kernel.
    pub fn wait(&mut self, milliseconds: u64)
        ensures
            final(self)@ == old(self)@.push(Request::Sleep(milliseconds)),
    {
        self.queue.push_back(Request::Sleep(milliseconds));
    }

    /// The request that the driver is to perform now, if any is scheduled.
    pub fn current(&self) -> (request: Option<Request>)
        ensures
            request == (if self@.len() > 0 {
                Some(self@[0])
            } else {
                None
            }),
    {
        if self.queue.len() > 0 {
            Some(self.queue[0])
        } else {
            None
        }
    }

    /// Takes the kernel's answer to the current request.
    ///
    /// An accepted request leaves the queue. A rejected one ends the
    /// operation: everything still scheduled is dropped unsent, and the
    /// error to report is returned. What was accepted before stays done.
    /// With nothing scheduled there is nothing to answer, and nothing changes.
    pub fn advance(&mut self, reply: Reply) -> (outcome: Result<(), Error>)
        ensures
            final(self)@ == remaining_after(old(self)@, reply),
            outcome == outcome_of(old(self)@, reply),
    {
        if self.queue.len() == 0 {
            return Ok(());
        }
        match reply {
            Reply::Accepted => {
                self.queue.pop_front();
                Ok(())
            },
            Reply::Rejected => {
                self.queue.clear();
                Err(Error::DeviceIoError)
            },
        }
    }
}

} // verus!
