use vstd::prelude::*;

use crate::enums::WinitControlFlow;

verus! {

/// How long a run-and-return loop waits for events when its callback asks to wait.
pub const RUN_RETURN_WAIT_MILLIS: u64 = 50;

/// The directive that the native loop follows after an iteration.
#[derive(Debug, Copy, Clone, PartialEq, Eq, Structural)]
pub enum LoopControl {
    /// Begin the next iteration at once.
    Poll,
    /// Suspend until the next event.
    Wait,
    /// Suspend until the next event or for at most this many milliseconds.
    WaitMillis(u64),
    /// Stop the loop.
    Exit,
}

/// The directive after one native event.
///
/// `current` is the directive in force; `run_return` selects the mode in which each run
/// processes pending events and returns (rather than holding the thread for good); and
/// `requested` is what the event's callback asked for, if the event reached it. Exit is
/// sticky. Without a request the default applies: poll in run-and-return mode, wait
/// otherwise. A request to wait in run-and-return mode waits for a short while only.
pub open spec fn control_after(
    current: LoopControl,
    run_return: bool,
    requested: Option<WinitControlFlow>,
) -> LoopControl {
    if current == LoopControl::Exit {
        LoopControl::Exit
    } else {
        match requested {
            None => if run_return {
                LoopControl::Poll
            } else {
                LoopControl::Wait
            },
            Some(WinitControlFlow::Poll) => LoopControl::Poll,
            Some(WinitControlFlow::Wait) => if run_return {
                LoopControl::WaitMillis(RUN_RETURN_WAIT_MILLIS)
            } else {
                LoopControl::Wait
            },
            Some(WinitControlFlow::Exit) => LoopControl::Exit,
        }
    }
}

/// Computes the directive after one native event; see `control_after`.
pub fn next_control_flow(
    current: LoopControl,
    run_return: bool,
    requested: Option<WinitControlFlow>,
) -> (r: LoopControl)
    ensures
        r == control_after(current, run_return, requested),
{
    if current == LoopControl::Exit {
        return LoopControl::Exit;
    }
    match requested {
        None => if run_return {
            LoopControl::Poll
        } else {
            LoopControl::Wait
        },
        Some(WinitControlFlow::Poll) => LoopControl::Poll,
        Some(WinitControlFlow::Wait) => if run_return {
            LoopControl::WaitMillis(RUN_RETURN_WAIT_MILLIS)
        } else {
            LoopControl::Wait
        },
        Some(WinitControlFlow::Exit) => LoopControl::Exit,
    }
}

} // verus!
