use vstd::prelude::*;

verus! {

/// The payload of a user event injected into the native loop from another thread.
#[derive(Debug, Copy, Clone, PartialEq, Eq, Structural)]
pub enum WinitUserEvent {
    /// The foreign runtime asks the loop to wake up.
    WakeUp,
}

impl Default for WinitUserEvent {
    fn default() -> (r: Self)
        ensures
            r == WinitUserEvent::WakeUp,
    {
        WinitUserEvent::WakeUp
    }
}

/// The cursor shapes that a foreign caller can select for a window.
#[derive(Debug, Copy, Clone, PartialEq, Eq, Structural)]
pub enum WinitCursorIcon {
    /// The platform-dependent default cursor.
    Default,
    /// A simple crosshair.
    Crosshair,
    /// A hand (often used to indicate links in web browsers).
    Hand,
    /// Self explanatory.
    Arrow,
    /// Indicates something is to be moved.
    Move,
    /// Indicates text that may be selected or edited.
    Text,
    /// Program busy indicator.
    Wait,
    /// Help indicator (often rendered as a "?").
    Help,
    /// Progress indicator: processing is being done, but the user may still interact.
    Progress,
    /// Cursor showing that something cannot be done.
    NotAllowed,
    ContextMenu,
    Cell,
    VerticalText,
    Alias,
    Copy,
    NoDrop,
    Grab,
    Grabbing,
    AllScroll,
    ZoomIn,
    ZoomOut,
    /// Indicates that some edge is to be moved, e.g. from the south-east corner for `SeResize`.
    EResize,
    NResize,
    NeResize,
    NwResize,
    SResize,
    SeResize,
    SwResize,
    WResize,
    EwResize,
    NsResize,
    NeswResize,
    NwseResize,
    ColResize,
    RowResize,
}

/// The windowing backend that the native loop runs on.
#[derive(Debug, Clone, Copy, PartialEq, Eq, Structural)]
pub enum WinitEventLoopType {
    Windows,
    MacOS,
    X11,
    Wayland,
    Unknown,
}

/// The backend of a loop on a platform that offers both Wayland and X11: Wayland when
/// the loop runs on it, else X11 when it runs on that, else unknown.
pub fn unix_event_loop_type(is_wayland: bool, is_x11: bool) -> (r: WinitEventLoopType)
    ensures
        r == (if is_wayland {
            WinitEventLoopType::Wayland
        } else if is_x11 {
            WinitEventLoopType::X11
        } else {
            WinitEventLoopType::Unknown
        }),
{
    if is_wayland {
        return WinitEventLoopType::Wayland;
    }
    if is_x11 {
        return WinitEventLoopType::X11;
    }
    WinitEventLoopType::Unknown
}

/// What a run-and-return callback asks the native loop to do next.
#[derive(Debug, Copy, Clone, PartialEq, Eq, Structural)]
pub enum WinitControlFlow {
    /// Start the next iteration at once, whether or not new events are available.
    Poll,
    /// Suspend the thread until another event arrives.
    Wait,
    /// Stop the loop. Once requested it cannot be taken back.
    Exit,
}

} // verus!
