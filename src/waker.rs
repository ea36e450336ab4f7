use vstd::prelude::*;

use crate::enums::WinitUserEvent;
use crate::error::WinitError;

verus! {

/// Where a waker stands: no proxy yet, a proxy into the running loop, or a loop that
/// was found torn down.
pub enum WakerState<P> {
    Unarmed,
    Armed(P),
    Closed,
}

/// What a wake returns, given whether the send, if one was made, was taken.
pub open spec fn wake_outcome<P>(state: WakerState<P>, sent: bool) -> Result<(), WinitError> {
    match state {
        WakerState::Unarmed => Ok(()),
        WakerState::Armed(_) => if sent {
            Ok(())
        } else {
            Err(WinitError::EventLoopClosed)
        },
        WakerState::Closed => Err(WinitError::EventLoopClosed),
    }
}

/// Where a waker stands after a wake: a failed send closes it, nothing else changes it.
pub open spec fn state_after_wake<P>(state: WakerState<P>, sent: bool) -> WakerState<P> {
    match state {
        WakerState::Armed(_) => if sent {
            state
        } else {
            WakerState::Closed
        },
        _ => state,
    }
}

/// Injects user events into the native loop from any thread through a proxy `P`, once
/// the loop has installed one. A wake before that is a no-op that succeeds.
pub struct WinitEventLoopWaker<P> {
    state: WakerState<P>,
}

impl<P> WinitEventLoopWaker<P> {
    pub closed spec fn state(&self) -> WakerState<P> {
        self.state
    }

    pub fn new() -> (r: Self)
        ensures
            r.state() is Unarmed,
    {
        WinitEventLoopWaker { state: WakerState::Unarmed }
    }

    /// Installs the proxy of the loop that has just started.
    pub fn proxy(&mut self, proxy: P)
        ensures
            final(self).state() == WakerState::Armed(proxy),
    {
        self.state = WakerState::Armed(proxy);
    }

    /// Whether a proxy is installed and the loop was not found closed.
    pub fn is_armed(&self) -> (r: bool)
        ensures
            r == self.state() is Armed,
    {
        match &self.state {
            WakerState::Armed(_) => true,
            _ => false,
        }
    }

    /// Sends `event` into the loop through `send`, which reports whether the loop took it.
    /// Before a proxy is installed nothing is sent and the wake succeeds; once a send has
    /// failed, the loop is closed and every wake fails.
    pub fn wake<F: FnOnce(&P, WinitUserEvent) -> bool>(
        &mut self,
        event: WinitUserEvent,
        send: F,
    ) -> (r: Result<(), WinitError>)
        requires
            forall|p: P| send.requires((&p, event)),
        ensures
            match old(self).state() {
                WakerState::Armed(p) => exists|sent: bool| #[trigger]
                    send.ensures((&p, event), sent) && r == wake_outcome(old(self).state(), sent)
                        && final(self).state() == state_after_wake(old(self).state(), sent),
                _ => r == wake_outcome(old(self).state(), false) && final(self).state()
                    == old(self).state(),
            },
    {
        let sent = match &self.state {
            WakerState::Unarmed => {
                return Ok(());
            },
            WakerState::Closed => {
                return Err(WinitError::EventLoopClosed);
            },
            WakerState::Armed(proxy) => send(proxy, event),
        };
        if sent {
            Ok(())
        } else {
            self.state = WakerState::Closed;
            Err(WinitError::EventLoopClosed)
        }
    }
}

/// A wake before the loop has started, that is before any proxy is installed, succeeds
/// without sending and leaves the waker waiting for its proxy.
pub proof fn lemma_wake_before_run<P>(sent: bool)
    ensures
        wake_outcome(WakerState::<P>::Unarmed, sent) == Ok::<(), WinitError>(()),
        state_after_wake(WakerState::<P>::Unarmed, sent) is Unarmed,
{
}

} // verus!
