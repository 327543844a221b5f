//! What can go wrong while a gesture is turned into a drag.

use crate::signal::ControlSignal;
use vstd::prelude::*;

verus! {

/// A failure on the side of the virtual device and its release timer.
#[derive(Clone, Copy, Debug, PartialEq, Eq, Structural)]
pub enum VtpError {
    /// A frame could not be written to the device.
    EventWriteError,
    /// The channel was closed while the timer waited on it.
    ChannelRecvError,
}

/// A failure while translating a gesture.
#[derive(Clone, Copy, Debug, PartialEq, Eq, Structural)]
pub enum GtError {
    /// A frame could not be written to the device.
    EventWriteError,
    /// The timer's side of the program stopped with a panic.
    ChildThreadPanicked,
    /// The timer's side of the program could not be joined.
    JoinError,
    /// The channel was closed while the timer waited on it.
    ChannelRecvError,
    /// The channel was closed when the signal was to be sent; the signal
    /// comes back unsent.
    ChannelSendError(ControlSignal),
    /// The channel was full when the signal was to be sent: the timer has
    /// not kept up. The signal comes back unsent.
    ChannelFull(ControlSignal),
}

impl GtError {
    /// Whether the program has to stop over this failure.
    ///
    /// A failed device write concerns one event only, and stops the program
    /// only where `fail_fast` asks for that. A full channel is passed over:
    /// the next signal sets things right. Every other failure means that
    /// timer and translator can no longer work together, and is fatal.
    pub open spec fn fatal(self, fail_fast: bool) -> bool {
        match self {
            GtError::EventWriteError => fail_fast,
            GtError::ChannelFull(_) => false,
            GtError::ChildThreadPanicked => true,
            GtError::JoinError => true,
            GtError::ChannelRecvError => true,
            GtError::ChannelSendError(_) => true,
        }
    }

    /// Whether the program has to stop over this failure, given the
    /// `fail_fast` setting.
    pub fn is_fatal(&self, fail_fast: bool) -> (fatal: bool)
        ensures
            fatal == self.fatal(fail_fast),
    {
        match self {
            GtError::EventWriteError => fail_fast,
            GtError::ChannelFull(_) => false,
            _ => true,
        }
    }
}

impl From<VtpError> for GtError {
    /// Carries a device-side failure over, kind for kind.
    fn from(err: VtpError) -> (ret: GtError) {
        match err {
            VtpError::EventWriteError => GtError::EventWriteError,
            VtpError::ChannelRecvError => GtError::ChannelRecvError,
        }
    }
}

impl vstd::std_specs::convert::FromSpecImpl<VtpError> for GtError {
    open spec fn obeys_from_spec() -> bool {
        true
    }

    open spec fn from_spec(err: VtpError) -> GtError {
        match err {
            VtpError::EventWriteError => GtError::EventWriteError,
            VtpError::ChannelRecvError => GtError::ChannelRecvError,
        }
    }
}

} // verus!
