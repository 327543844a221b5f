use input_linux::{
    EventKind, EventTime, InputEvent, Key, KeyEvent, KeyState, RelativeAxis, RelativeEvent,
    SynchronizeEvent, SynchronizeKind,
};
use linux_3_finger_drag::fixed::Fixed;
use linux_3_finger_drag::virtual_trackpad::{DeviceCommand, VirtualTrackpad};
use linux_3_finger_drag::wire::{
    InputRecord, BTN_LEFT, EV_KEY, EV_REL, EV_SYN, REL_X, REL_Y, SYN_REPORT,
};

#[test]
fn a_new_handle_has_the_button_up() {
    let vtp = VirtualTrackpad::new();
    assert!(!vtp.mouse_is_down);
}

#[test]
fn mouse_down_is_button_down_then_report() {
    let vtp = VirtualTrackpad::new();
    assert_eq!(
        vtp.mouse_down(),
        vec![
            InputRecord { kind: 0x01, code: 0x110, value: 1 },
            InputRecord { kind: 0x00, code: 0, value: 0 },
        ]
    );
}

#[test]
fn mouse_up_is_button_up_then_report() {
    let vtp = VirtualTrackpad::new();
    assert_eq!(
        vtp.mouse_up(),
        vec![
            InputRecord { kind: 0x01, code: 0x110, value: 0 },
            InputRecord { kind: 0x00, code: 0, value: 0 },
        ]
    );
}

#[test]
fn mouse_move_relative_is_both_axes_then_report() {
    let vtp = VirtualTrackpad::new();
    let frame = vtp.mouse_move_relative(Fixed { micros: 12_000_000 }, Fixed { micros: -7_000_000 });
    assert_eq!(
        frame,
        vec![
            InputRecord { kind: 0x02, code: 0x00, value: 12 },
            InputRecord { kind: 0x02, code: 0x01, value: -7 },
            InputRecord { kind: 0x00, code: 0, value: 0 },
        ]
    );
}

#[test]
fn mouse_move_relative_truncates_toward_zero() {
    let vtp = VirtualTrackpad::new();
    let frame = vtp.mouse_move_relative(Fixed { micros: 2_900_000 }, Fixed { micros: -2_900_000 });
    assert_eq!(frame[0].value, 2);
    assert_eq!(frame[1].value, -2);
    let still = vtp.mouse_move_relative(Fixed { micros: 999_999 }, Fixed { micros: -999_999 });
    assert_eq!(still[0].value, 0);
    assert_eq!(still[1].value, 0);
    assert_eq!(still.len(), 3);
}

#[test]
fn mouse_move_relative_keeps_the_axes_apart() {
    let vtp = VirtualTrackpad::new();
    let frame = vtp.mouse_move_relative(Fixed::from_units(5), Fixed::from_units(9));
    assert_eq!((frame[0].code, frame[0].value), (REL_X, 5));
    assert_eq!((frame[1].code, frame[1].value), (REL_Y, 9));
}

#[test]
fn frame_follows_the_command() {
    let vtp = VirtualTrackpad::new();
    assert_eq!(vtp.frame(&DeviceCommand::Press), vtp.mouse_down());
    assert_eq!(vtp.frame(&DeviceCommand::Release), vtp.mouse_up());
    assert_eq!(vtp.frame(&DeviceCommand::ReleaseAfter { delay_ms: 250 }), vtp.mouse_up());
    let x_rel = Fixed { micros: 3_500_000 };
    let y_rel = Fixed { micros: -1_250_000 };
    assert_eq!(
        vtp.frame(&DeviceCommand::MoveRelative { x_rel, y_rel }),
        vtp.mouse_move_relative(x_rel, y_rel)
    );
}

#[test]
fn written_tracks_the_button() {
    let mut vtp = VirtualTrackpad::new();
    vtp.written(&DeviceCommand::Press);
    assert!(vtp.mouse_is_down);
    vtp.written(&DeviceCommand::MoveRelative { x_rel: Fixed::from_units(1), y_rel: Fixed::from_units(1) });
    assert!(vtp.mouse_is_down);
    vtp.written(&DeviceCommand::Release);
    assert!(!vtp.mouse_is_down);
    vtp.written(&DeviceCommand::MoveRelative { x_rel: Fixed::from_units(1), y_rel: Fixed::from_units(1) });
    assert!(!vtp.mouse_is_down);
    vtp.written(&DeviceCommand::Press);
    vtp.written(&DeviceCommand::ReleaseAfter { delay_ms: 40 });
    assert!(!vtp.mouse_is_down);
}

#[test]
fn a_copied_handle_keeps_its_own_record() {
    let mut first = VirtualTrackpad::new();
    first.written(&DeviceCommand::Press);
    let mut second = first;
    assert!(second.mouse_is_down);
    second.written(&DeviceCommand::Release);
    assert!(!second.mouse_is_down);
    assert!(first.mouse_is_down);
}

#[test]
fn the_codes_are_those_of_the_input_crate() {
    assert_eq!(EV_SYN, EventKind::Synchronize as u16);
    assert_eq!(EV_KEY, EventKind::Key as u16);
    assert_eq!(EV_REL, EventKind::Relative as u16);
    assert_eq!(SYN_REPORT, SynchronizeKind::Report as u16);
    assert_eq!(BTN_LEFT, Key::ButtonLeft as u16);
    assert_eq!(REL_X, RelativeAxis::X as u16);
    assert_eq!(REL_Y, RelativeAxis::Y as u16);
}

#[test]
fn the_frames_are_what_the_input_crate_builds() {
    let zero = EventTime::new(0, 0);
    let vtp = VirtualTrackpad::new();

    let down = InputEvent::from(KeyEvent::new(zero, Key::ButtonLeft, KeyState::pressed(true))).into_raw();
    let up = InputEvent::from(KeyEvent::new(zero, Key::ButtonLeft, KeyState::pressed(false))).into_raw();
    let report = InputEvent::from(SynchronizeEvent::new(zero, SynchronizeKind::Report, 0)).into_raw();
    let along_x = InputEvent::from(RelativeEvent::new(zero, RelativeAxis::X, -31)).into_raw();
    let along_y = InputEvent::from(RelativeEvent::new(zero, RelativeAxis::Y, 17)).into_raw();

    let press = vtp.mouse_down();
    assert_eq!((press[0].kind, press[0].code, press[0].value), (down.type_, down.code, down.value));
    assert_eq!((press[1].kind, press[1].code, press[1].value), (report.type_, report.code, report.value));

    let release = vtp.mouse_up();
    assert_eq!((release[0].kind, release[0].code, release[0].value), (up.type_, up.code, up.value));
    assert_eq!((release[1].kind, release[1].code, release[1].value), (report.type_, report.code, report.value));

    let motion = vtp.mouse_move_relative(Fixed::from_units(-31), Fixed::from_units(17));
    assert_eq!((motion[0].kind, motion[0].code, motion[0].value), (along_x.type_, along_x.code, along_x.value));
    assert_eq!((motion[1].kind, motion[1].code, motion[1].value), (along_y.type_, along_y.code, along_y.value));
    assert_eq!((motion[2].kind, motion[2].code, motion[2].value), (report.type_, report.code, report.value));
}
