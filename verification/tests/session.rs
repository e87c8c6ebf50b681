//! The device in use: a session is registered, operations are scheduled,
//! and a stand-in for the kernel performs them.

use virtual_device::{
    create_virtual_device, Axis, Capability, Control, Error, Key, Mouse, Progress, Reply, Request,
    SetupStep, VirtualDevice,
};

/// Stands in for the kernel's input interface. It keeps what it accepted,
/// and refuses the request at position `refuse_at`, counted from zero over
/// everything it is asked.
struct Kernel {
    asked: usize,
    refuse_at: Option<usize>,
    setup: Vec<SetupStep>,
    events: Vec<Request>,
}

impl Kernel {
    fn willing() -> Kernel {
        Kernel { asked: 0, refuse_at: None, setup: Vec::new(), events: Vec::new() }
    }

    fn refusing(at: usize) -> Kernel {
        Kernel { asked: 0, refuse_at: Some(at), setup: Vec::new(), events: Vec::new() }
    }

    fn answer(&mut self) -> Reply {
        let reply = if self.refuse_at == Some(self.asked) {
            Reply::Rejected
        } else {
            Reply::Accepted
        };
        self.asked += 1;
        reply
    }

    fn register(&mut self) -> Result<VirtualDevice, Error> {
        let mut factory = create_virtual_device();
        loop {
            let step = factory.current();
            let reply = self.answer();
            if reply == Reply::Accepted {
                self.setup.push(step);
            }
            match factory.advance(reply) {
                Progress::Continue(next) => factory = next,
                Progress::Finished(end) => return end,
            }
        }
    }

    fn drive(&mut self, device: &mut VirtualDevice) -> Result<(), Error> {
        while let Some(request) = device.current() {
            let reply = self.answer();
            if reply == Reply::Accepted {
                self.events.push(request);
            }
            device.advance(reply)?;
        }
        Ok(())
    }
}

fn stride(dx: i32, dy: i32) -> Vec<Request> {
    vec![Request::Move(Axis::X, dx), Request::Move(Axis::Y, dy)]
}

fn relative(dx: i32, dy: i32) -> Vec<Request> {
    let mut script = Vec::new();
    for _ in 0..4 {
        script.extend(stride(dx, dy));
    }
    script.push(Request::Synchronize);
    script
}

fn absolute(dx: i32, dy: i32) -> Vec<Request> {
    let mut script = Vec::new();
    for _ in 0..10 {
        script.extend(stride(-500, -500));
    }
    script.push(Request::Synchronize);
    script.extend(relative(dx, dy));
    script
}

fn click(key: Key) -> Vec<Request> {
    vec![
        Request::Press(Control::Key(key)),
        Request::Synchronize,
        Request::Release(Control::Key(key)),
        Request::Synchronize,
    ]
}

fn stroke(delay: u64, key: Key) -> Vec<Request> {
    let mut script = vec![Request::Sleep(delay)];
    script.extend(click(key));
    script
}

#[test]
fn mouse_relative() {
    let mut kernel = Kernel::willing();
    let mut device = kernel.register().unwrap();
    let mut expected = Vec::new();

    device.wait(200);
    expected.push(Request::Sleep(200));

    for _ in 0..3 {
        device.mouse_move_relative(150, 0);
        device.wait(100);
        expected.extend(relative(37, 0));
        expected.push(Request::Sleep(100));

        device.mouse_move_relative(0, 150);
        device.wait(100);
        expected.extend(relative(0, 37));
        expected.push(Request::Sleep(100));

        device.mouse_move_relative(-150, 0);
        device.wait(100);
        expected.extend(relative(-37, 0));
        expected.push(Request::Sleep(100));

        device.mouse_move_relative(0, -150);
        device.wait(100);
        expected.extend(relative(0, -37));
        expected.push(Request::Sleep(100));
    }

    assert_eq!(kernel.drive(&mut device), Ok(()));
    assert_eq!(kernel.events.len(), 1 + 3 * 4 * 10);
    assert_eq!(kernel.events, expected);
    assert_eq!(device.current(), None);
}

#[test]
fn mouse_absolute() {
    let mut kernel = Kernel::willing();
    let mut device = kernel.register().unwrap();
    let mut expected = Vec::new();

    device.wait(200);
    expected.push(Request::Sleep(200));

    let quarters = [125, 120, 115, 110, 105, 100, 95, 90, 85, 80];
    for i in 0..10 {
        device.mouse_move(500 - i * 20, 500 - i * 20);
        device.wait(50);
        expected.extend(absolute(quarters[i as usize], quarters[i as usize]));
        expected.push(Request::Sleep(50));
    }

    assert_eq!(kernel.drive(&mut device), Ok(()));
    assert_eq!(kernel.events.len(), 1 + 10 * 31);
    assert_eq!(kernel.events, expected);
}

#[test]
fn mouse_click() {
    let mut kernel = Kernel::willing();
    let mut device = kernel.register().unwrap();

    device.wait(200);

    device.mouse_move(250, 200);
    device.wait(500);
    device.mouse_down(Mouse::Left);

    device.wait(1000);

    device.mouse_move_relative(150, 150);
    device.wait(500);

    device.mouse_up(Mouse::Left);

    device.wait(500);

    device.mouse_click(Mouse::Right);

    let mut expected = vec![Request::Sleep(200)];
    expected.extend(absolute(62, 50));
    expected.push(Request::Sleep(500));
    expected.push(Request::Press(Control::Button(Mouse::Left)));
    expected.push(Request::Synchronize);
    expected.push(Request::Sleep(1000));
    expected.extend(relative(37, 37));
    expected.push(Request::Sleep(500));
    expected.push(Request::Release(Control::Button(Mouse::Left)));
    expected.push(Request::Synchronize);
    expected.push(Request::Sleep(500));
    expected.push(Request::Press(Control::Button(Mouse::Right)));
    expected.push(Request::Synchronize);
    expected.push(Request::Release(Control::Button(Mouse::Right)));
    expected.push(Request::Synchronize);

    assert_eq!(kernel.drive(&mut device), Ok(()));
    assert_eq!(kernel.events, expected);
}

#[test]
fn key_click() {
    let mut kernel = Kernel::willing();
    let mut device = kernel.register().unwrap();

    device.wait(3000);

    device.key(Key::H);
    device.key(Key::E);
    device.key(Key::L);
    device.key(Key::L);
    device.key(Key::O);

    device.key_down(Key::Space);
    device.key_up(Key::Space);

    device.key(Key::W);
    device.key(Key::O);
    device.key(Key::R);
    device.key(Key::L);
    device.key(Key::D);

    let mut expected = vec![Request::Sleep(3000)];
    let clicked = [
        Key::H, Key::E, Key::L, Key::L, Key::O, Key::Space, Key::W, Key::O, Key::R, Key::L, Key::D,
    ];
    for key in clicked {
        expected.extend(click(key));
    }

    assert_eq!(kernel.drive(&mut device), Ok(()));
    assert_eq!(kernel.events, expected);
}

#[test]
fn key_write() {
    let mut kernel = Kernel::willing();
    let mut device = kernel.register().unwrap();

    device.wait(3000);

    device.key_write("hello world", 10);

    device.key(Key::Space);

    device.key_down(Key::LeftShift);
    device.key_write("big hello world", 200);
    device.key_up(Key::LeftShift);

    let hello_world = [
        Key::H, Key::E, Key::L, Key::L, Key::O, Key::Space, Key::W, Key::O, Key::R, Key::L, Key::D,
    ];
    let mut expected = vec![Request::Sleep(3000)];
    for key in hello_world {
        expected.extend(stroke(10, key));
    }
    expected.extend(click(Key::Space));
    expected.push(Request::Press(Control::Key(Key::LeftShift)));
    expected.push(Request::Synchronize);
    for key in [Key::B, Key::I, Key::G, Key::Space] {
        expected.extend(stroke(200, key));
    }
    for key in hello_world {
        expected.extend(stroke(200, key));
    }
    expected.push(Request::Release(Control::Key(Key::LeftShift)));
    expected.push(Request::Synchronize);

    assert_eq!(kernel.drive(&mut device), Ok(()));
    assert_eq!(kernel.events.len(), 1 + 55 + 4 + 2 + 75 + 2);
    assert_eq!(kernel.events, expected);
}

#[test]
fn session_registers_the_whole_negotiation() {
    let mut kernel = Kernel::willing();
    let device = kernel.register().unwrap();
    assert_eq!(device.current(), None);
    assert_eq!(
        kernel.setup,
        vec![
            SetupStep::Open,
            SetupStep::Name,
            SetupStep::Enable(Capability::Keyboard),
            SetupStep::Enable(Capability::Button(Mouse::Left)),
            SetupStep::Enable(Capability::Button(Mouse::Right)),
            SetupStep::Enable(Capability::Button(Mouse::Middle)),
            SetupStep::Enable(Capability::Axis(Axis::X)),
            SetupStep::Enable(Capability::Axis(Axis::Y)),
            SetupStep::Register,
        ]
    );
    assert!(kernel.events.is_empty());
}
