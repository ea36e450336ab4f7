use vstd::prelude::*;

verus! {

/// What can go wrong in the bridge.
#[derive(Debug, Copy, Clone, PartialEq, Eq, Structural)]
pub enum WinitError {
    /// The native backend rejected an operation, such as creating a window.
    Winit,
    /// A guarded resource's lock was poisoned by a panic.
    PoisonError,
    /// The operation needs an event loop that is dispatching an event, and none is.
    EventLoopNotRunning,
    /// No window with this identity is registered.
    WindowNotFound(u128),
    /// A wake was attempted on a loop that has been torn down.
    EventLoopClosed,
    /// A monitor query found none.
    NoMonitorAvailable,
}

} // verus!
