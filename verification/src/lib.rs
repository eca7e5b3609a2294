//! A bridge from named button events to a virtual gamepad.
//!
//! Callers press and release nine named buttons. The bridge keeps their
//! state, maps it to the button word of a wired Xbox 360 style gamepad, and
//! says when a new frame has to go to the device. It never touches the
//! device, the clock or a thread itself: it holds the state and makes the
//! decisions, and its host carries them out.
//!
//! - `buttons`: the logical buttons and the store of their states.
//! - `frame`: the gamepad frame and the mapping from the store to it.
//! - `session`: the life of one connection to the virtual bus.
//! - `update_loop`: the decisions of the task that feeds the device.
//! - `virtual_controller`: the facade that callers hold.
//! - `reachability`: the link flag that gates button events.

pub mod buttons;
pub mod frame;
pub mod reachability;
pub mod session;
pub mod update_loop;
pub mod virtual_controller;

pub use crate::buttons::ButtonState;
pub use crate::buttons::LogicalButton;
pub use crate::frame::HardwareGamepadFrame;
pub use crate::reachability::LinkState;
pub use crate::session::DeviceSession;
pub use crate::update_loop::UpdateLoop;
pub use crate::virtual_controller::VirtualController;
