//! The records that make up a frame written to the virtual device.
//!
//! A frame is a short run of records closed by a synchronisation report. The
//! records themselves are built by the `input_linux` crate; this module turns
//! each into plain numbers and states which numbers they are.

use input_linux::{
    EventTime, InputEvent, Key, KeyEvent, KeyState, RelativeAxis, RelativeEvent,
    SynchronizeEvent, SynchronizeKind,
};
use vstd::prelude::*;

verus! {

/// Event type of a synchronisation record.
pub const EV_SYN: u16 = 0x00;

/// Event type of a key or button record.
pub const EV_KEY: u16 = 0x01;

/// Event type of a relative-axis record.
pub const EV_REL: u16 = 0x02;

/// Code of the report that closes a frame.
pub const SYN_REPORT: u16 = 0;

/// Code of the left mouse button.
pub const BTN_LEFT: u16 = 0x110;

/// Code of the horizontal relative axis.
pub const REL_X: u16 = 0x00;

/// Code of the vertical relative axis.
pub const REL_Y: u16 = 0x01;

/// One record of a frame: the event type, the code within that type, and the
/// value. Every record carries the zero timestamp, which is not held here.
#[derive(Clone, Copy, Debug, PartialEq, Eq, Structural)]
pub struct InputRecord {
    pub kind: u16,
    pub code: u16,
    pub value: i32,
}

/// A relative axis of the pointer.
#[derive(Clone, Copy, Debug, PartialEq, Eq, Structural)]
pub enum Axis {
    X,
    Y,
}

/// The record that sets the left button: value 1 pressed, value 0 released.
pub open spec fn button_left(pressed: bool) -> InputRecord {
    InputRecord { kind: EV_KEY, code: BTN_LEFT, value: if pressed { 1i32 } else { 0i32 } }
}

/// The record that moves the pointer by `value` along `axis`.
pub open spec fn relative_motion(axis: Axis, value: i32) -> InputRecord {
    InputRecord {
        kind: EV_REL,
        code: match axis {
            Axis::X => REL_X,
            Axis::Y => REL_Y,
        },
        value,
    }
}

/// The report that closes a frame.
pub open spec fn sync_report() -> InputRecord {
    InputRecord { kind: EV_SYN, code: SYN_REPORT, value: 0 }
}

/// Builds the left-button record with `input_linux::KeyEvent::new`, turned
/// into a raw event by `InputEvent::into_raw`.
///
/// Trusted: the raw event has type `EV_KEY`, code `BTN_LEFT`, and value 1 for
/// pressed or 0 for released.
#[verifier::external_body]
pub(crate) fn button_record(pressed: bool) -> (record: InputRecord)
    ensures
        record == button_left(pressed),
{
    let event = KeyEvent::new(EventTime::new(0, 0), Key::ButtonLeft, KeyState::pressed(pressed));
    let raw = InputEvent::from(event).into_raw();
    InputRecord { kind: raw.type_, code: raw.code, value: raw.value }
}

/// Builds a relative-motion record with `input_linux::RelativeEvent::new`,
/// turned into a raw event by `InputEvent::into_raw`.
///
/// Trusted: the raw event has type `EV_REL`, the code of the axis (`REL_X` or
/// `REL_Y`), and the given value.
#[verifier::external_body]
pub(crate) fn relative_record(axis: Axis, value: i32) -> (record: InputRecord)
    ensures
        record == relative_motion(axis, value),
{
    let outside_axis = match axis {
        Axis::X => RelativeAxis::X,
        Axis::Y => RelativeAxis::Y,
    };
    let raw = InputEvent::from(RelativeEvent::new(EventTime::new(0, 0), outside_axis, value)).into_raw();
    InputRecord { kind: raw.type_, code: raw.code, value: raw.value }
}

/// Builds the closing report with `input_linux::SynchronizeEvent::new`,
/// turned into a raw event by `InputEvent::into_raw`.
///
/// Trusted: the raw event has type `EV_SYN`, code `SYN_REPORT` and value 0.
#[verifier::external_body]
pub(crate) fn sync_record() -> (record: InputRecord)
    ensures
        record == sync_report(),
{
    let event = SynchronizeEvent::new(EventTime::new(0, 0), SynchronizeKind::Report, 0);
    let raw = InputEvent::from(event).into_raw();
    InputRecord { kind: raw.type_, code: raw.code, value: raw.value }
}

} // verus!
