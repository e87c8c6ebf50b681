//! What the device asks of whoever holds the kernel's input interface, and
//! what is answered.

use vstd::prelude::*;
use crate::key::Key;
use crate::pointer::{Axis, Mouse};

verus! {

/// Something that is held down and let go: a key or a pointer button.
#[derive(Clone, Copy, Debug, PartialEq, Eq, Hash, Structural)]
pub enum Control {
    Key(Key),
    Button(Mouse),
}

/// One request to the driver of the device.
///
/// `Press`, `Release` and `Move` write an event that the kernel buffers.
/// `Synchronize` flushes what is buffered as one frame: no listener sees an
/// event before that. `Sleep` touches no device: the driver blocks for the
/// given number of milliseconds.
#[derive(Clone, Copy, Debug, PartialEq, Eq, Hash, Structural)]
pub enum Request {
    Press(Control),
    Release(Control),
    Move(Axis, i32),
    Synchronize,
    Sleep(u64),
}

/// The kernel's answer to a request.
#[derive(Clone, Copy, Debug, PartialEq, Eq, Hash, Structural)]
pub enum Reply {
    Accepted,
    Rejected,
}

/// Why an operation failed.
#[derive(Clone, Copy, Debug, PartialEq, Eq, Hash, Structural)]
pub enum Error {
    /// The device could not be registered: the kernel interface was not
    /// available, or it refused a step of the negotiation.
    DeviceSetupError,
    /// The kernel refused an event or a synchronization of a registered
    /// device.
    DeviceIoError,
}

} // verus!
