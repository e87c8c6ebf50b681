//! Keys: presses, releases, clicks, and the typing of text.

use virtual_device::{
    create_virtual_device, Control, Error, Key, Progress, Reply, Request, SetupStep, VirtualDevice,
};

/// Stands in for the kernel's input interface. It keeps what it accepted,
/// and refuses the request at position `refuse_at`, counted from zero over
/// everything it is asked.
struct Kernel {
    asked: usize,
    refuse_at: Option<usize>,
    setup: Vec<SetupStep>,
    events: Vec<Request>,
}

impl Kernel {
    fn willing() -> Kernel {
        Kernel { asked: 0, refuse_at: None, setup: Vec::new(), events: Vec::new() }
    }

    fn refusing(at: usize) -> Kernel {
        Kernel { asked: 0, refuse_at: Some(at), setup: Vec::new(), events: Vec::new() }
    }

    fn answer(&mut self) -> Reply {
        let reply = if self.refuse_at == Some(self.asked) {
            Reply::Rejected
        } else {
            Reply::Accepted
        };
        self.asked += 1;
        reply
    }

    fn register(&mut self) -> Result<VirtualDevice, Error> {
        let mut factory = create_virtual_device();
        loop {
            let step = factory.current();
            let reply = self.answer();
            if reply == Reply::Accepted {
                self.setup.push(step);
            }
            match factory.advance(reply) {
                Progress::Continue(next) => factory = next,
                Progress::Finished(end) => return end,
            }
        }
    }

    fn drive(&mut self, device: &mut VirtualDevice) -> Result<(), Error> {
        while let Some(request) = device.current() {
            let reply = self.answer();
            if reply == Reply::Accepted {
                self.events.push(request);
            }
            device.advance(reply)?;
        }
        Ok(())
    }
}

fn scheduled(device: &mut VirtualDevice) -> Vec<Request> {
    let mut kernel = Kernel::willing();
    kernel.drive(device).unwrap();
    kernel.events
}

#[test]
fn key_down_is_a_press_and_a_barrier() {
    let mut device = Kernel::willing().register().unwrap();
    device.key_down(Key::LeftShift);
    assert_eq!(
        scheduled(&mut device),
        vec![Request::Press(Control::Key(Key::LeftShift)), Request::Synchronize]
    );
}

#[test]
fn key_down_twice_is_two_presses() {
    let mut device = Kernel::willing().register().unwrap();
    device.key_down(Key::A);
    device.key_down(Key::A);
    assert_eq!(
        scheduled(&mut device),
        vec![
            Request::Press(Control::Key(Key::A)),
            Request::Synchronize,
            Request::Press(Control::Key(Key::A)),
            Request::Synchronize,
        ]
    );
}

#[test]
fn key_up_is_a_release_and_a_barrier() {
    let mut device = Kernel::willing().register().unwrap();
    device.key_up(Key::Enter);
    assert_eq!(
        scheduled(&mut device),
        vec![Request::Release(Control::Key(Key::Enter)), Request::Synchronize]
    );
}

#[test]
fn key_is_a_press_then_a_release_each_with_its_barrier() {
    let mut device = Kernel::willing().register().unwrap();
    device.key(Key::F5);
    let script = scheduled(&mut device);
    assert_eq!(
        script,
        vec![
            Request::Press(Control::Key(Key::F5)),
            Request::Synchronize,
            Request::Release(Control::Key(Key::F5)),
            Request::Synchronize,
        ]
    );
    let press = script.iter().position(|a| *a == Request::Press(Control::Key(Key::F5))).unwrap();
    let release =
        script.iter().position(|a| *a == Request::Release(Control::Key(Key::F5))).unwrap();
    assert!(press < release);
    assert_eq!(script[press + 1], Request::Synchronize);
    assert_eq!(script[release + 1], Request::Synchronize);
}

#[test]
fn key_write_ab_is_two_clicks_each_after_its_delay() {
    let mut device = Kernel::willing().register().unwrap();
    device.key_write("ab", 25);
    assert_eq!(
        scheduled(&mut device),
        vec![
            Request::Sleep(25),
            Request::Press(Control::Key(Key::A)),
            Request::Synchronize,
            Request::Release(Control::Key(Key::A)),
            Request::Synchronize,
            Request::Sleep(25),
            Request::Press(Control::Key(Key::B)),
            Request::Synchronize,
            Request::Release(Control::Key(Key::B)),
            Request::Synchronize,
        ]
    );
}

#[test]
fn key_write_of_unmapped_text_does_nothing() {
    let mut device = Kernel::willing().register().unwrap();
    device.key_write("\u{1f600}\u{e9}!?\n\u{0}{}", 1000);
    assert_eq!(device.current(), None);
    assert_eq!(scheduled(&mut device), vec![]);
}

#[test]
fn key_write_of_nothing_does_nothing() {
    let mut device = Kernel::willing().register().unwrap();
    device.key_write("", 1000);
    assert_eq!(device.current(), None);
}

#[test]
fn key_write_skips_unmapped_characters_without_a_pause() {
    let mut device = Kernel::willing().register().unwrap();
    device.key_write("A!\u{1f600}b", 7);
    assert_eq!(
        scheduled(&mut device),
        vec![
            Request::Sleep(7),
            Request::Press(Control::Key(Key::A)),
            Request::Synchronize,
            Request::Release(Control::Key(Key::A)),
            Request::Synchronize,
            Request::Sleep(7),
            Request::Press(Control::Key(Key::B)),
            Request::Synchronize,
            Request::Release(Control::Key(Key::B)),
            Request::Synchronize,
        ]
    );
}

#[test]
fn key_write_in_two_parts_is_key_write_of_the_whole() {
    let mut whole = Kernel::willing().register().unwrap();
    whole.key_write("left; right", 3);
    let mut parts = Kernel::willing().register().unwrap();
    parts.key_write("left; ", 3);
    parts.key_write("right", 3);
    let script = scheduled(&mut whole);
    assert_eq!(script.len(), 55);
    assert_eq!(script, scheduled(&mut parts));
}

#[test]
fn key_write_with_no_delay_still_pauses_for_zero() {
    let mut device = Kernel::willing().register().unwrap();
    device.key_write("=", 0);
    assert_eq!(
        scheduled(&mut device),
        vec![
            Request::Sleep(0),
            Request::Press(Control::Key(Key::Equal)),
            Request::Synchronize,
            Request::Release(Control::Key(Key::Equal)),
            Request::Synchronize,
        ]
    );
}

#[test]
fn key_is_seen_as_two_frames() {
    let mut device = Kernel::willing().register().unwrap();
    device.key(Key::Tab);
    let script = scheduled(&mut device);
    let mut seen: Vec<Vec<Request>> = Vec::new();
    let mut buffered = Vec::new();
    for request in script {
        match request {
            Request::Synchronize => seen.push(std::mem::take(&mut buffered)),
            Request::Sleep(_) => {}
            event => buffered.push(event),
        }
    }
    assert!(buffered.is_empty());
    assert_eq!(
        seen,
        vec![
            vec![Request::Press(Control::Key(Key::Tab))],
            vec![Request::Release(Control::Key(Key::Tab))],
        ]
    );
}
