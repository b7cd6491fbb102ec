//! The application-exit event channel and the per-frame button signals
//! the host engine's input system supplies.

use vstd::prelude::*;

verus! {

/// The event that asks the host engine's run loop to quit.
#[derive(Clone, Copy, PartialEq, Eq, Structural, Debug)]
pub struct AppExit;

/// The interaction signal of a button entity on the current frame,
/// as the input system reports it.
#[derive(Clone, Copy, PartialEq, Eq, Structural, Debug)]
pub enum Interaction {
    /// The button was clicked this frame.
    Clicked,
    /// The pointer hovers over the button.
    Hovered,
    /// Nothing touches the button.
    Idle,
}

/// The writer end of the application-exit event channel. It counts the
/// exit events sent, so a caller can see that exactly one click sends
/// exactly one event.
pub struct ExitEvents {
    sent: u64,
}

impl ExitEvents {
    /// How many exit events have been sent.
    pub closed spec fn view(&self) -> u64 {
        self.sent
    }

    /// Creates a channel on which nothing has been sent yet.
    pub fn new() -> (e: Self)
        ensures
            e@ == 0,
    {
        ExitEvents { sent: 0 }
    }

    /// Sends one application-exit event.
    pub fn send(&mut self, _event: AppExit)
        requires
            old(self)@ < u64::MAX,
        ensures
            final(self)@ == old(self)@ + 1,
    {
        self.sent = self.sent + 1;
    }

    /// How many exit events have been sent.
    pub fn count(&self) -> (n: u64)
        ensures
            n == self@,
    {
        self.sent
    }
}

} // verus!
