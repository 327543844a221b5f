//! The messages that pass from the gesture classifier to the release timer.

use vstd::prelude::*;

verus! {

/// How many signals the channel to the timer holds at most. The timer takes
/// each signal off as soon as it arrives, so a channel that is found full
/// tells that the timer has fallen behind.
pub const CHANNEL_CAPACITY: usize = 1;

/// A message from the gesture classifier to the delayed-release timer.
#[derive(Clone, Copy, Debug, PartialEq, Eq, Structural)]
pub enum ControlSignal {
    /// Abort any pending delay and release the button now.
    CancelTimer,
    /// Abort any pending delay without releasing the button: a new press
    /// has taken its place.
    CancelMouseUp,
    /// Begin the countdown, or begin it again from the full delay.
    RestartTimer,
    /// Stop the timer for good.
    TerminateThread,
}

} // verus!
