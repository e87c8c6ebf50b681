//! A virtual keyboard and mouse for the kernel's input subsystem.
//!
//! This crate holds the rules of the device and performs no input or
//! output. It says which requests an operation consists of, in which order,
//! and what becomes of an operation when the kernel refuses one of them.
//! A driver holds the handle to the kernel, performs one request at a time,
//! and reports each answer back:
//!
//! ```text
//! device.key_write("hello", 10);
//! while let Some(request) = device.current() {
//!     let reply = perform(request);
//!     device.advance(reply)?;
//! }
//! ```
//!
//! Registration works the same way: [`create_virtual_device`] gives a
//! [`DeviceFactory`], and the driver answers its requests until the factory
//! ends in a [`VirtualDevice`] or in an error.
//!
//! The modules:
//!
//! - [`key`]: the physical keys, and the table from characters to keys;
//! - [`pointer`]: buttons, axes, and the quarter steps of a displacement;
//! - [`protocol`]: requests, answers and errors;
//! - [`script`]: the requests of each operation, as sequences;
//! - [`device`]: the device and its queue of requests;
//! - [`factory`]: the negotiation that registers the device;
//! - [`frame`]: what listeners see of a script;
//! - [`screen`]: where the pointer is after a script.

pub mod device;
pub mod factory;
pub mod frame;
pub mod key;
pub mod pointer;
pub mod protocol;
pub mod screen;
pub mod script;

pub use device::VirtualDevice;
pub use factory::{
    create_virtual_device, Capability, DeviceFactory, Progress, SetupStep, DEVICE_NAME,
};
pub use key::{key_code_from_char, Key};
pub use pointer::{Axis, Mouse};
pub use protocol::{Control, Error, Reply, Request};
