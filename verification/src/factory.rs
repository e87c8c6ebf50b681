//! Registering the device with the kernel: the negotiation, one request at
//! a time, and what becomes of it when the kernel refuses.

use std::collections::VecDeque;
use vstd::prelude::*;
use crate::device::VirtualDevice;
use crate::pointer::{Axis, Mouse};
use crate::protocol::{Error, Reply, Request};

verus! {

/// The name under which the device is registered.
pub const DEVICE_NAME: &'static str = "fdr-virtual-device";

/// Something the device declares that it can emit.
#[derive(Clone, Copy, Debug, PartialEq, Eq, Hash, Structural)]
pub enum Capability {
    /// Every key of the keyboard.
    Keyboard,
    /// One button of the pointer.
    Button(Mouse),
    /// Relative motion along one axis.
    Axis(Axis),
}

/// One request of the negotiation.
#[derive(Clone, Copy, Debug, PartialEq, Eq, Hash, Structural)]
pub enum SetupStep {
    /// Obtain a handle to the kernel's input interface.
    Open,
    /// Give the device its name, [`DEVICE_NAME`].
    Name,
    /// Declare a capability.
    Enable(Capability),
    /// Finalize: from here on the device exists.
    Register,
    /// Give the handle back, so that nothing half-configured is left.
    TearDown,
}

/// The negotiation when the kernel accepts every request: the handle, the
/// name, the whole keyboard, the three buttons, the two axes, and the
/// registration.
pub open spec fn negotiation() -> Seq<SetupStep> {
    seq![
        SetupStep::Open,
        SetupStep::Name,
        SetupStep::Enable(Capability::Keyboard),
        SetupStep::Enable(Capability::Button(Mouse::Left)),
        SetupStep::Enable(Capability::Button(Mouse::Right)),
        SetupStep::Enable(Capability::Button(Mouse::Middle)),
        SetupStep::Enable(Capability::Axis(Axis::X)),
        SetupStep::Enable(Capability::Axis(Axis::Y)),
        SetupStep::Register,
    ]
}

/// What is left to ask once the kernel has answered the head of `pending`,
/// or `None` where the negotiation is over.
///
/// After a refusal nothing more is declared. The handle is given back,
/// unless the refused request was the one that should have obtained it.
pub open spec fn pending_after(pending: Seq<SetupStep>, reply: Reply) -> Option<Seq<SetupStep>> {
    match reply {
        Reply::Accepted => if pending[0] == SetupStep::TearDown || pending.len() == 1 {
            None
        } else {
            Some(pending.drop_first())
        },
        Reply::Rejected => if pending[0] == SetupStep::Open || pending[0] == SetupStep::TearDown {
            None
        } else {
            Some(seq![SetupStep::TearDown])
        },
    }
}

/// Whether this answer to the head of `pending` brings the device into
/// being: it does when the last request of the negotiation is accepted.
pub open spec fn completes(pending: Seq<SetupStep>, reply: Reply) -> bool {
    reply == Reply::Accepted && pending.len() == 1 && pending[0] != SetupStep::TearDown
}

/// The negotiation in progress. It is used once: each answer consumes it
/// and gives either its next state or the end of the negotiation.
///
/// The view of a factory is what it has still to ask of the kernel: the
/// request whose answer it waits for, then those that follow if every
/// answer is favourable. It is never empty.
#[derive(Debug)]
pub struct DeviceFactory {
    awaiting: SetupStep,
    later: VecDeque<SetupStep>,
}

/// Where the negotiation stands after an answer.
#[derive(Debug)]
pub enum Progress {
    /// There is another request to perform.
    Continue(DeviceFactory),
    /// The negotiation is over: the device is registered, or it is not and
    /// nothing of it is left.
    Finished(Result<VirtualDevice, Error>),
}

impl View for DeviceFactory {
    type V = Seq<SetupStep>;

    closed spec fn view(&self) -> Seq<SetupStep> {
        seq![self.awaiting] + self.later@
    }
}

impl DeviceFactory {
    /// A factory always waits for an answer.
    pub proof fn lemma_awaits(&self)
        ensures
            self@.len() > 0,
    {
    }

    /// The request that the driver is to perform now.
    pub fn current(&self) -> (step: SetupStep)
        ensures
            self@.len() > 0,
            step == self@[0],
    {
        self.awaiting
    }

    /// Takes the kernel's answer to the current request.
    ///
    /// The device comes into being when the last request of the negotiation
    /// is accepted, and has nothing scheduled then. A refusal at any point
    /// ends in `DeviceSetupError`, after the handle has been given back
    /// where there was one.
    pub fn advance(self, reply: Reply) -> (progress: Progress)
        ensures
            match progress {
                Progress::Continue(factory) => pending_after(self@, reply) == Some(factory@),
                Progress::Finished(Ok(device)) => completes(self@, reply) && device@ == Seq::<
                    Request,
                >::empty(),
                Progress::Finished(Err(error)) => error == Error::DeviceSetupError
                    && pending_after(self@, reply) is None && !completes(self@, reply),
            },
    {
        let DeviceFactory { awaiting, mut later } = self;
        match reply {
            Reply::Accepted => {
                if awaiting == SetupStep::TearDown {
                    return Progress::Finished(Err(Error::DeviceSetupError));
                }
                match later.pop_front() {
                    Some(next) => Progress::Continue(DeviceFactory { awaiting: next, later }),
                    None => Progress::Finished(Ok(VirtualDevice::new())),
                }
            },
            Reply::Rejected => {
                if awaiting == SetupStep::Open || awaiting == SetupStep::TearDown {
                    return Progress::Finished(Err(Error::DeviceSetupError));
                }
                later.clear();
                Progress::Continue(DeviceFactory { awaiting: SetupStep::TearDown, later })
            },
        }
    }
}

/// Begins the registration of a virtual keyboard and mouse.
///
/// Nothing has been asked of the kernel yet: the whole negotiation is
/// still to come, and the factory waits for the driver to obtain the handle.
pub fn create_virtual_device() -> (factory: DeviceFactory)
    ensures
        factory@ == negotiation(),
{
    let mut later: VecDeque<SetupStep> = VecDeque::new();
    later.push_back(SetupStep::Name);
    later.push_back(SetupStep::Enable(Capability::Keyboard));
    later.push_back(SetupStep::Enable(Capability::Button(Mouse::Left)));
    later.push_back(SetupStep::Enable(Capability::Button(Mouse::Right)));
    later.push_back(SetupStep::Enable(Capability::Button(Mouse::Middle)));
    later.push_back(SetupStep::Enable(Capability::Axis(Axis::X)));
    later.push_back(SetupStep::Enable(Capability::Axis(Axis::Y)));
    later.push_back(SetupStep::Register);
    DeviceFactory { awaiting: SetupStep::Open, later }
}

/// The negotiation obtains the handle first and registers last, and in
/// between declares the keyboard, every button and every axis.
pub proof fn lemma_negotiation_declares_everything(button: Mouse, axis: Axis)
    ensures
        negotiation().first() == SetupStep::Open,
        negotiation().last() == SetupStep::Register,
        exists|i: int|
            0 < i < negotiation().len() - 1 && negotiation()[i] == SetupStep::Enable(
                Capability::Keyboard,
            ),
        exists|i: int|
            0 < i < negotiation().len() - 1 && negotiation()[i] == SetupStep::Enable(
                Capability::Button(button),
            ),
        exists|i: int|
            0 < i < negotiation().len() - 1 && negotiation()[i] == SetupStep::Enable(
                Capability::Axis(axis),
            ),
        !negotiation().contains(SetupStep::TearDown),
{
    assert(negotiation()[2] == SetupStep::Enable(Capability::Keyboard));
    match button {
        Mouse::Left => assert(negotiation()[3] == SetupStep::Enable(Capability::Button(button))),
        Mouse::Right => assert(negotiation()[4] == SetupStep::Enable(Capability::Button(button))),
        Mouse::Middle => assert(negotiation()[5] == SetupStep::Enable(Capability::Button(button))),
    }
    match axis {
        Axis::X => assert(negotiation()[6] == SetupStep::Enable(Capability::Axis(axis))),
        Axis::Y => assert(negotiation()[7] == SetupStep::Enable(Capability::Axis(axis))),
    }
}

/// While the kernel accepts, the factory asks for the requests of the
/// negotiation one after the other and for nothing else; the answer to the
/// last of them brings the device into being.
pub proof fn lemma_acceptance_follows_negotiation(accepted: int)
    requires
        0 <= accepted < negotiation().len(),
    ensures
        accepted + 1 < negotiation().len() ==> pending_after(
            negotiation().skip(accepted),
            Reply::Accepted,
        ) == Some(negotiation().skip(accepted + 1)),
        completes(negotiation().skip(accepted), Reply::Accepted) <==> accepted + 1
            == negotiation().len(),
{
    assert(negotiation().skip(accepted).drop_first() =~= negotiation().skip(accepted + 1));
}

/// A refusal never brings a device into being, and nothing is declared
/// after it. Where the kernel interface is not to be had there is not even
/// a handle to give back: the factory is done at once. Otherwise it gives
/// the handle back and is done then, whatever the answer to that.
pub proof fn lemma_refusal_registers_nothing(pending: Seq<SetupStep>, then: Reply)
    requires
        pending.len() > 0,
    ensures
        !completes(pending, Reply::Rejected),
        pending[0] == SetupStep::Open ==> pending_after(pending, Reply::Rejected) is None,
        pending_after(pending, Reply::Rejected) matches Some(rest) ==> rest == seq![
            SetupStep::TearDown,
        ] && pending_after(rest, then) is None && !completes(rest, then),
{
}

} // verus!
