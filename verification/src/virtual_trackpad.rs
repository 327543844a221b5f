//! The virtual pointer device: the frames it is sent and the button state
//! those frames leave it in.

use crate::fixed::Fixed;
use crate::wire::{
    button_left, button_record, relative_motion, relative_record, sync_record, sync_report, Axis,
    InputRecord, BTN_LEFT, EV_KEY,
};
use vstd::prelude::*;

verus! {

/// Something the virtual device can be told to do.
#[derive(Clone, Copy, Debug, PartialEq, Eq, Structural)]
pub enum DeviceCommand {
    /// Press the left button.
    Press,
    /// Release the left button.
    Release,
    /// Wait for `delay_ms` milliseconds, then release the left button.
    ReleaseAfter { delay_ms: u64 },
    /// Move the pointer by the whole units of `x_rel` and `y_rel`.
    MoveRelative { x_rel: Fixed, y_rel: Fixed },
}

/// The frame that presses the left button: button down, then a report.
pub open spec fn press_frame() -> Seq<InputRecord> {
    seq![button_left(true), sync_report()]
}

/// The frame that releases the left button: button up, then a report.
pub open spec fn release_frame() -> Seq<InputRecord> {
    seq![button_left(false), sync_report()]
}

/// The frame that moves the pointer: the two axes, then a report. Each
/// distance is rounded toward zero to whole device units.
pub open spec fn move_frame(x_rel: Fixed, y_rel: Fixed) -> Seq<InputRecord> {
    seq![
        relative_motion(Axis::X, x_rel.whole_units() as i32),
        relative_motion(Axis::Y, y_rel.whole_units() as i32),
        sync_report(),
    ]
}

/// The frame that carries out `command`.
pub open spec fn frame_of(command: DeviceCommand) -> Seq<InputRecord> {
    match command {
        DeviceCommand::Press => press_frame(),
        DeviceCommand::Release => release_frame(),
        DeviceCommand::ReleaseAfter { delay_ms } => release_frame(),
        DeviceCommand::MoveRelative { x_rel, y_rel } => move_frame(x_rel, y_rel),
    }
}

/// Whether the button is down once `command` has reached the device, given
/// whether it was down before.
pub open spec fn button_after(was_down: bool, command: DeviceCommand) -> bool {
    match command {
        DeviceCommand::Press => true,
        DeviceCommand::Release => false,
        DeviceCommand::ReleaseAfter { delay_ms } => false,
        DeviceCommand::MoveRelative { x_rel, y_rel } => was_down,
    }
}

/// Whether the button is down once `frame` has reached the device, given
/// whether it was down before: the last record in the frame that sets the
/// left button decides, and a frame without one changes nothing.
pub open spec fn button_after_frame(was_down: bool, frame: Seq<InputRecord>) -> bool
    decreases frame.len(),
{
    if frame.len() == 0 {
        was_down
    } else if frame.last().kind == EV_KEY && frame.last().code == BTN_LEFT {
        frame.last().value != 0
    } else {
        button_after_frame(was_down, frame.drop_last())
    }
}

/// The record of the button follows the frames: what a handle takes the
/// button to be after a command is what the command's frame has set it to.
pub proof fn record_follows_the_frames(was_down: bool, command: DeviceCommand)
    ensures
        button_after(was_down, command) == button_after_frame(was_down, frame_of(command)),
{
    let frame = frame_of(command);
    match command {
        DeviceCommand::MoveRelative { x_rel, y_rel } => {
            let two = frame.drop_last();
            let one = two.drop_last();
            assert(two.last() == frame[1]);
            assert(one.last() == frame[0]);
            assert(one.drop_last().len() == 0);
            assert(button_after_frame(was_down, one.drop_last()) == was_down);
            assert(button_after_frame(was_down, one) == was_down);
            assert(button_after_frame(was_down, two) == was_down);
        },
        _ => {
            let one = frame.drop_last();
            assert(one.last() == frame[0]);
            assert(button_after_frame(was_down, one) == (frame[0].value != 0));
        },
    }
}

/// One handle on the virtual pointer device.
///
/// The handle knows which frame each command takes and remembers whether the
/// frames written through it have left the button down. It does not write:
/// the caller hands each frame to the device and reports back with
/// [`VirtualTrackpad::written`] once the write has succeeded. Two handles on
/// one device each keep their own record of the button.
#[derive(Clone, Copy, Debug)]
pub struct VirtualTrackpad {
    pub mouse_is_down: bool,
}

impl VirtualTrackpad {
    /// A handle on a device that was just created: the button is up.
    pub fn new() -> (vtp: VirtualTrackpad)
        ensures
            !vtp.mouse_is_down,
    {
        VirtualTrackpad { mouse_is_down: false }
    }

    /// The frame that presses the left button.
    pub fn mouse_down(&self) -> (frame: Vec<InputRecord>)
        ensures
            frame@ == press_frame(),
    {
        let frame = vec![button_record(true), sync_record()];
        assert(frame@ =~= press_frame());
        frame
    }

    /// The frame that releases the left button.
    pub fn mouse_up(&self) -> (frame: Vec<InputRecord>)
        ensures
            frame@ == release_frame(),
    {
        let frame = vec![button_record(false), sync_record()];
        assert(frame@ =~= release_frame());
        frame
    }

    /// The frame that moves the pointer by `x_rel` and `y_rel`, each rounded
    /// toward zero to whole device units.
    pub fn mouse_move_relative(&self, x_rel: Fixed, y_rel: Fixed) -> (frame: Vec<InputRecord>)
        ensures
            frame@ == move_frame(x_rel, y_rel),
    {
        let x_rel_int: i32 = x_rel.truncate();
        let y_rel_int: i32 = y_rel.truncate();
        let frame = vec![
            relative_record(Axis::X, x_rel_int),
            relative_record(Axis::Y, y_rel_int),
            sync_record(),
        ];
        assert(frame@ =~= move_frame(x_rel, y_rel));
        frame
    }

    /// The frame that carries out `command`.
    pub fn frame(&self, command: &DeviceCommand) -> (frame: Vec<InputRecord>)
        ensures
            frame@ == frame_of(*command),
    {
        match command {
            DeviceCommand::Press => self.mouse_down(),
            DeviceCommand::Release => self.mouse_up(),
            DeviceCommand::ReleaseAfter { delay_ms } => self.mouse_up(),
            DeviceCommand::MoveRelative { x_rel, y_rel } => self.mouse_move_relative(*x_rel, *y_rel),
        }
    }

    /// Records that the frame of `command` has been written to the device.
    pub fn written(&mut self, command: &DeviceCommand)
        ensures
            final(self).mouse_is_down == button_after(old(self).mouse_is_down, *command),
    {
        match command {
            DeviceCommand::Press => {
                self.mouse_is_down = true;
            },
            DeviceCommand::Release => {
                self.mouse_is_down = false;
            },
            DeviceCommand::ReleaseAfter { delay_ms } => {
                self.mouse_is_down = false;
            },
            DeviceCommand::MoveRelative { x_rel, y_rel } => {},
        }
    }
}

} // verus!
