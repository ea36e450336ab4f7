//! A poll-based bridge over a callback-driven native event loop.
//!
//! The library holds the decisions of the bridge: how a native event becomes
//! a flat event record, which windows are registered and what their mirrored
//! geometry is, the FIFO queue that a foreign consumer drains, the waker
//! state machine, and the per-event dispatch step of the driver. The native
//! windowing calls themselves are made by the embedding program, which hands
//! the library plain values and performs the actions it returns.

pub mod control_flow;
pub mod enums;
pub mod error;
pub mod events;
pub mod polling_event_loop;
pub mod waker;
pub mod window_ref;

pub use enums::{WinitControlFlow, WinitCursorIcon, WinitEventLoopType, WinitUserEvent};
pub use error::WinitError;
pub use polling_event_loop::{LoopAction, PollingEventLoop};
pub use waker::WinitEventLoopWaker;
pub use window_ref::WindowRef;
