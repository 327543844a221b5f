use linux_3_finger_drag::config::Configuration;
use linux_3_finger_drag::error::GtError;
use linux_3_finger_drag::event::{classify, Intent, RawEvent, DRAG_FINGERS};
use linux_3_finger_drag::event_handling::{
    admit_signal, update_mouse, GestureTranslator, Plan, TranslatorCd, TranslatorClassic,
};
use linux_3_finger_drag::fixed::Fixed;
use linux_3_finger_drag::signal::{ControlSignal, CHANNEL_CAPACITY};
use linux_3_finger_drag::timer::{TimerEvent, TimerState};
use linux_3_finger_drag::virtual_trackpad::{DeviceCommand, VirtualTrackpad};
use linux_3_finger_drag::wire::InputRecord;
use smol::channel::{bounded, Receiver};

const NOTHING: Plan = Plan { signal: None, command: None };

fn settings(delay_ms: u64) -> Configuration {
    let mut cfg = Configuration::default();
    cfg.drag_end_delay = delay_ms;
    cfg
}

fn with_channel(cfg: Configuration) -> (TranslatorCd, Receiver<ControlSignal>) {
    let (tx, rx) = bounded::<ControlSignal>(CHANNEL_CAPACITY);
    (TranslatorCd::new(VirtualTrackpad::new(), cfg, tx), rx)
}

fn cancellable(delay_ms: u64) -> TranslatorCd {
    with_channel(settings(delay_ms)).0
}

fn classic(delay_ms: u64) -> TranslatorClassic {
    let mut cfg = settings(delay_ms);
    cfg.drag_end_delay_cancellable = false;
    TranslatorClassic::new(VirtualTrackpad::new(), cfg)
}

fn fixed(micros: i64) -> Fixed {
    Fixed { micros }
}

fn gestures(fingers: i32) -> Vec<RawEvent> {
    vec![
        RawEvent::GestureHoldBegin { fingers },
        RawEvent::GestureHoldEnd { fingers },
        RawEvent::GestureSwipeBegin { fingers },
        RawEvent::GestureSwipeUpdate { fingers, dx: fixed(4_000_000), dy: fixed(-1_000_000) },
        RawEvent::GestureSwipeEnd { fingers },
        RawEvent::GestureOther { fingers },
    ]
}

#[test]
fn a_drag_takes_three_fingers() {
    assert_eq!(DRAG_FINGERS, 3);
}

#[test]
fn the_channel_holds_one_signal() {
    assert_eq!(CHANNEL_CAPACITY, 1);
}

#[test]
fn classify_reads_three_finger_gestures() {
    for down in [false, true] {
        assert_eq!(classify(down, &RawEvent::GestureHoldBegin { fingers: 3 }), Intent::BeginDrag);
        assert_eq!(classify(down, &RawEvent::GestureSwipeBegin { fingers: 3 }), Intent::BeginDrag);
        assert_eq!(classify(down, &RawEvent::GestureHoldEnd { fingers: 3 }), Intent::EndDrag);
        assert_eq!(classify(down, &RawEvent::GestureSwipeEnd { fingers: 3 }), Intent::EndDrag);
        assert_eq!(classify(down, &RawEvent::GestureOther { fingers: 3 }), Intent::Nothing);
        assert_eq!(
            classify(down, &RawEvent::GestureSwipeUpdate { fingers: 3, dx: fixed(5), dy: fixed(-6) }),
            Intent::Motion { dx: fixed(5), dy: fixed(-6) }
        );
    }
}

#[test]
fn classify_aborts_on_any_other_finger_count() {
    for fingers in [i32::MIN, -3, 0, 1, 2, 4, 5, i32::MAX] {
        for down in [false, true] {
            for event in gestures(fingers) {
                assert_eq!(classify(down, &event), Intent::AbortDrag);
            }
        }
    }
}

#[test]
fn classify_heeds_pointer_events_only_during_a_drag() {
    let motion = RawEvent::PointerMotion { dx: fixed(1_000_000), dy: fixed(2_000_000) };
    assert_eq!(classify(false, &motion), Intent::Nothing);
    assert_eq!(classify(false, &RawEvent::PointerButton), Intent::Nothing);
    assert_eq!(classify(false, &RawEvent::PointerScroll), Intent::Nothing);
    assert_eq!(classify(false, &RawEvent::PointerOther), Intent::Nothing);

    assert_eq!(
        classify(true, &motion),
        Intent::Motion { dx: fixed(1_000_000), dy: fixed(2_000_000) }
    );
    assert_eq!(classify(true, &RawEvent::PointerButton), Intent::AbortDrag);
    assert_eq!(classify(true, &RawEvent::PointerScroll), Intent::AbortDrag);
    assert_eq!(classify(true, &RawEvent::PointerOther), Intent::Nothing);
}

#[test]
fn update_mouse_drops_jitter() {
    let cfg = Configuration::default();
    assert_eq!(update_mouse(&cfg, fixed(199_999), fixed(-199_999)), None);
    assert_eq!(update_mouse(&cfg, fixed(0), fixed(0)), None);
}

#[test]
fn update_mouse_keeps_motion_that_is_large_on_one_axis() {
    let cfg = Configuration::default();
    assert_eq!(
        update_mouse(&cfg, fixed(200_000), fixed(0)),
        Some(DeviceCommand::MoveRelative { x_rel: fixed(200_000), y_rel: fixed(0) })
    );
    assert_eq!(
        update_mouse(&cfg, fixed(10), fixed(-200_000)),
        Some(DeviceCommand::MoveRelative { x_rel: fixed(10), y_rel: fixed(-200_000) })
    );
}

#[test]
fn update_mouse_applies_the_acceleration() {
    let mut cfg = Configuration::default();
    cfg.acceleration = fixed(1_500_000);
    assert_eq!(
        update_mouse(&cfg, fixed(3_000_000), fixed(-1_000_000)),
        Some(DeviceCommand::MoveRelative { x_rel: fixed(4_500_000), y_rel: fixed(-1_500_000) })
    );
}

#[test]
fn update_mouse_with_no_threshold_drops_nothing() {
    let mut cfg = Configuration::default();
    cfg.min_motion = fixed(0);
    assert_eq!(
        update_mouse(&cfg, fixed(0), fixed(0)),
        Some(DeviceCommand::MoveRelative { x_rel: fixed(0), y_rel: fixed(0) })
    );
}

#[test]
fn jitter_produces_no_device_write() {
    let event = RawEvent::GestureSwipeUpdate { fingers: 3, dx: fixed(100_000), dy: fixed(-150_000) };
    assert_eq!(cancellable(100).translate_gesture(event), NOTHING);
    assert_eq!(cancellable(0).translate_gesture(event), NOTHING);
    assert_eq!(classic(100).translate_gesture(event), NOTHING);
    assert_eq!(classic(0).translate_gesture(event), NOTHING);
}

#[test]
fn acceleration_scales_then_truncates() {
    let mut cfg = Configuration::default();
    cfg.acceleration = Fixed::from_units(2);
    let translator = with_channel(cfg).0;
    let plan = translator.translate_gesture(RawEvent::GestureSwipeUpdate {
        fingers: 3,
        dx: fixed(1_000_000),
        dy: fixed(-2_000_000),
    });
    assert_eq!(plan.signal, None);
    let command = plan.command.expect("motion above the threshold moves the pointer");
    assert_eq!(
        command,
        DeviceCommand::MoveRelative { x_rel: fixed(2_000_000), y_rel: fixed(-4_000_000) }
    );
    assert_eq!(
        translator.vtp.frame(&command),
        vec![
            InputRecord { kind: 2, code: 0, value: 2 },
            InputRecord { kind: 2, code: 1, value: -4 },
            InputRecord { kind: 0, code: 0, value: 0 },
        ]
    );
}

#[test]
fn a_begin_calls_off_the_pending_release_and_presses() {
    let plan = Plan {
        signal: Some(ControlSignal::CancelMouseUp),
        command: Some(DeviceCommand::Press),
    };
    assert_eq!(cancellable(100).translate_gesture(RawEvent::GestureHoldBegin { fingers: 3 }), plan);
    assert_eq!(cancellable(100).translate_gesture(RawEvent::GestureSwipeBegin { fingers: 3 }), plan);
    assert_eq!(cancellable(0).translate_gesture(RawEvent::GestureSwipeBegin { fingers: 3 }), plan);
}

#[test]
fn a_begin_without_timer_only_presses() {
    let plan = Plan { signal: None, command: Some(DeviceCommand::Press) };
    assert_eq!(classic(100).translate_gesture(RawEvent::GestureHoldBegin { fingers: 3 }), plan);
    assert_eq!(classic(0).translate_gesture(RawEvent::GestureSwipeBegin { fingers: 3 }), plan);
}

#[test]
fn an_end_with_delay_starts_the_timer() {
    let plan = Plan { signal: Some(ControlSignal::RestartTimer), command: None };
    assert_eq!(cancellable(100).translate_gesture(RawEvent::GestureHoldEnd { fingers: 3 }), plan);
    assert_eq!(cancellable(1).translate_gesture(RawEvent::GestureSwipeEnd { fingers: 3 }), plan);
}

#[test]
fn an_end_without_timer_sits_the_delay_out() {
    let plan = Plan { signal: None, command: Some(DeviceCommand::ReleaseAfter { delay_ms: 100 }) };
    assert_eq!(classic(100).translate_gesture(RawEvent::GestureHoldEnd { fingers: 3 }), plan);
    assert_eq!(classic(100).translate_gesture(RawEvent::GestureSwipeEnd { fingers: 3 }), plan);
}

#[test]
fn zero_delay_releases_in_the_same_call() {
    let plan = Plan { signal: None, command: Some(DeviceCommand::Release) };
    assert_eq!(cancellable(0).translate_gesture(RawEvent::GestureSwipeEnd { fingers: 3 }), plan);
    assert_eq!(cancellable(0).translate_gesture(RawEvent::GestureHoldEnd { fingers: 3 }), plan);
    assert_eq!(classic(0).translate_gesture(RawEvent::GestureSwipeEnd { fingers: 3 }), plan);
    assert_eq!(classic(0).translate_gesture(RawEvent::GestureHoldEnd { fingers: 3 }), plan);
}

#[test]
fn zero_delay_wants_no_timer() {
    assert!(!settings(0).uses_timer());
    assert!(settings(1).uses_timer());
    let mut blocking = settings(100);
    blocking.drag_end_delay_cancellable = false;
    assert!(!blocking.uses_timer());
}

#[test]
fn the_classic_translator_never_signals() {
    for delay in [0u64, 100] {
        for down in [false, true] {
            let mut translator = classic(delay);
            translator.vtp.mouse_is_down = down;
            let mut events = gestures(3);
            events.extend(gestures(2));
            events.push(RawEvent::PointerMotion { dx: fixed(9_000_000), dy: fixed(0) });
            events.push(RawEvent::PointerButton);
            events.push(RawEvent::PointerScroll);
            events.push(RawEvent::PointerOther);
            for event in events {
                assert_eq!(translator.translate_gesture(event).signal, None);
            }
        }
    }
    assert_eq!(classic(100).send_signal(ControlSignal::CancelTimer), Ok(None));
    assert_eq!(classic(100).send_signal(ControlSignal::RestartTimer), Ok(None));
}

#[test]
fn any_other_finger_count_forces_a_release() {
    for fingers in [1, 2, 4, 5] {
        for down in [false, true] {
            for event in gestures(fingers) {
                let mut with_timer = cancellable(100);
                with_timer.vtp.mouse_is_down = down;
                assert_eq!(
                    with_timer.translate_gesture(event),
                    Plan { signal: Some(ControlSignal::CancelTimer), command: None }
                );
                let mut alone = classic(100);
                alone.vtp.mouse_is_down = down;
                assert_eq!(
                    alone.translate_gesture(event),
                    Plan { signal: None, command: Some(DeviceCommand::Release) }
                );
            }
        }
    }
    // and the timer releases on that signal, counting or not
    let vtp = VirtualTrackpad::new();
    for state in [TimerState::Idle, TimerState::Counting { remaining_ms: 100 }] {
        let taken = vtp
            .handle_mouse_up_timeout(100, state, TimerEvent::Signal(ControlSignal::CancelTimer))
            .unwrap();
        assert!(taken.release);
        assert_eq!(taken.next, TimerState::Idle);
    }
}

#[test]
fn a_click_or_scroll_during_a_drag_cuts_the_delay_short() {
    let mut translator = cancellable(100);
    translator.vtp.mouse_is_down = true;
    let abort = Plan { signal: Some(ControlSignal::CancelTimer), command: None };
    assert_eq!(translator.translate_gesture(RawEvent::PointerButton), abort);
    assert_eq!(translator.translate_gesture(RawEvent::PointerScroll), abort);

    let mut alone = classic(100);
    alone.vtp.mouse_is_down = true;
    let release = Plan { signal: None, command: Some(DeviceCommand::Release) };
    assert_eq!(alone.translate_gesture(RawEvent::PointerButton), release);
    assert_eq!(alone.translate_gesture(RawEvent::PointerScroll), release);
}

#[test]
fn pointer_events_outside_a_drag_are_ignored() {
    let events = [
        RawEvent::PointerMotion { dx: fixed(5_000_000), dy: fixed(5_000_000) },
        RawEvent::PointerButton,
        RawEvent::PointerScroll,
        RawEvent::PointerOther,
    ];
    for event in events {
        assert_eq!(cancellable(100).translate_gesture(event), NOTHING);
        assert_eq!(classic(100).translate_gesture(event), NOTHING);
    }
}

#[test]
fn pointer_motion_during_a_drag_moves_without_signalling() {
    let mut cfg = settings(100);
    cfg.acceleration = Fixed::from_units(3);
    let mut translator = with_channel(cfg).0;
    translator.vtp.mouse_is_down = true;
    assert_eq!(
        translator.translate_gesture(RawEvent::PointerMotion { dx: fixed(1_000_000), dy: fixed(-500_000) }),
        Plan {
            signal: None,
            command: Some(DeviceCommand::MoveRelative {
                x_rel: fixed(3_000_000),
                y_rel: fixed(-1_500_000),
            }),
        }
    );
    // jitter is dropped here too
    assert_eq!(
        translator.translate_gesture(RawEvent::PointerMotion { dx: fixed(1), dy: fixed(-1) }),
        NOTHING
    );
}

#[test]
fn other_events_are_no_ops() {
    for down in [false, true] {
        let mut translator = cancellable(100);
        translator.vtp.mouse_is_down = down;
        assert_eq!(translator.translate_gesture(RawEvent::GestureOther { fingers: 3 }), NOTHING);
        assert_eq!(translator.translate_gesture(RawEvent::PointerOther), NOTHING);
        let mut alone = classic(100);
        alone.vtp.mouse_is_down = down;
        assert_eq!(alone.translate_gesture(RawEvent::GestureOther { fingers: 3 }), NOTHING);
        assert_eq!(alone.translate_gesture(RawEvent::PointerOther), NOTHING);
    }
}

#[test]
fn admit_signal_passes_the_signal_on_when_there_is_room() {
    for sig in [
        ControlSignal::CancelTimer,
        ControlSignal::CancelMouseUp,
        ControlSignal::RestartTimer,
        ControlSignal::TerminateThread,
    ] {
        assert_eq!(admit_signal(sig, false), Ok(Some(sig)));
    }
}

#[test]
fn admit_signal_gives_the_signal_back_when_the_channel_is_full() {
    assert_eq!(
        admit_signal(ControlSignal::RestartTimer, true),
        Err(GtError::ChannelFull(ControlSignal::RestartTimer))
    );
    assert_eq!(
        admit_signal(ControlSignal::CancelMouseUp, true),
        Err(GtError::ChannelFull(ControlSignal::CancelMouseUp))
    );
}

#[test]
fn send_signal_looks_at_the_channel() {
    let (translator, rx) = with_channel(settings(100));
    // an empty channel has room
    assert_eq!(
        translator.send_signal(ControlSignal::RestartTimer),
        Ok(Some(ControlSignal::RestartTimer))
    );
    // the channel holds one signal: once that is in, it is full
    translator.tx.try_send(ControlSignal::RestartTimer).unwrap();
    assert_eq!(
        translator.send_signal(ControlSignal::CancelMouseUp),
        Err(GtError::ChannelFull(ControlSignal::CancelMouseUp))
    );
    // and has room again when the timer has taken the signal off
    assert_eq!(rx.try_recv(), Ok(ControlSignal::RestartTimer));
    assert_eq!(
        translator.send_signal(ControlSignal::CancelMouseUp),
        Ok(Some(ControlSignal::CancelMouseUp))
    );
}

#[test]
fn send_signal_sends_nothing_itself() {
    let (translator, rx) = with_channel(settings(100));
    assert_eq!(
        translator.send_signal(ControlSignal::CancelTimer),
        Ok(Some(ControlSignal::CancelTimer))
    );
    assert!(rx.is_empty());
}

#[test]
fn carried_out_tracks_the_drag() {
    let mut translator = cancellable(100);
    assert!(!translator.vtp.mouse_is_down);

    let begin = translator.translate_gesture(RawEvent::GestureSwipeBegin { fingers: 3 });
    translator.carried_out(&begin);
    assert!(translator.vtp.mouse_is_down);

    let update = translator.translate_gesture(RawEvent::GestureSwipeUpdate {
        fingers: 3,
        dx: fixed(2_000_000),
        dy: fixed(2_000_000),
    });
    translator.carried_out(&update);
    assert!(translator.vtp.mouse_is_down);

    // the release is pending in the timer: the drag still counts as down
    let end = translator.translate_gesture(RawEvent::GestureSwipeEnd { fingers: 3 });
    translator.carried_out(&end);
    assert!(translator.vtp.mouse_is_down);

    // a click has the timer release at once: the drag is over
    let click = translator.translate_gesture(RawEvent::PointerButton);
    assert_eq!(click.signal, Some(ControlSignal::CancelTimer));
    translator.carried_out(&click);
    assert!(!translator.vtp.mouse_is_down);
    assert_eq!(translator.translate_gesture(RawEvent::PointerButton), NOTHING);
}

#[test]
fn carried_out_without_timer_follows_the_device() {
    let mut translator = classic(100);
    let begin = translator.translate_gesture(RawEvent::GestureHoldBegin { fingers: 3 });
    translator.carried_out(&begin);
    assert!(translator.vtp.mouse_is_down);
    let end = translator.translate_gesture(RawEvent::GestureHoldEnd { fingers: 3 });
    translator.carried_out(&end);
    assert!(!translator.vtp.mouse_is_down);
}

#[test]
fn carried_out_leaves_the_settings_alone() {
    let mut translator = cancellable(75);
    let begin = translator.translate_gesture(RawEvent::GestureSwipeBegin { fingers: 3 });
    translator.carried_out(&begin);
    assert_eq!(translator.drag_end_delay(), 75);
    assert_eq!(translator.response_time(), 5);
    assert!(translator.delay_cancellable());
}

#[test]
fn a_plan_that_failed_changes_nothing() {
    // the caller reports only plans carried out in full, so a plan whose
    // write failed leaves the drag as it was
    let translator = cancellable(100);
    let begin = translator.translate_gesture(RawEvent::GestureSwipeBegin { fingers: 3 });
    assert_eq!(begin.command, Some(DeviceCommand::Press));
    assert!(!translator.vtp.mouse_is_down);
    assert_eq!(translator.translate_gesture(RawEvent::PointerButton), NOTHING);
}

#[test]
fn the_getters_read_the_settings() {
    let mut cfg = Configuration::default();
    cfg.drag_end_delay = 300;
    cfg.response_time = 8;
    cfg.drag_end_delay_cancellable = false;
    let translator = TranslatorClassic::new(VirtualTrackpad::new(), cfg.clone());
    assert_eq!(translator.drag_end_delay(), 300);
    assert_eq!(translator.response_time(), 8);
    assert!(!translator.delay_cancellable());
    let with_timer = with_channel(cfg).0;
    assert_eq!(with_timer.drag_end_delay(), 300);
    assert_eq!(with_timer.response_time(), 8);
    assert!(!with_timer.delay_cancellable());
}

#[test]
fn clone_vtp_copies_the_record_of_the_button() {
    let mut translator = cancellable(100);
    assert!(!translator.clone_vtp().mouse_is_down);
    translator.vtp.mouse_is_down = true;
    let second = translator.clone_vtp();
    assert!(second.mouse_is_down);
    let mut alone = classic(0);
    alone.vtp.mouse_is_down = true;
    assert!(alone.clone_vtp().mouse_is_down);
}

#[test]
fn a_new_drag_supersedes_the_pending_release() {
    // swipe, lift the fingers, and swipe again halfway through the delay
    let (mut translator, rx) = with_channel(settings(100));
    let timer_handle = translator.clone_vtp();
    let mut timer = TimerState::Idle;
    let mut releases: u32 = 0;
    let mut presses: u32 = 0;

    let events = [
        RawEvent::GestureSwipeBegin { fingers: 3 },
        RawEvent::GestureSwipeEnd { fingers: 3 },
        RawEvent::GestureSwipeBegin { fingers: 3 },
    ];
    for event in events {
        let plan = translator.translate_gesture(event);
        if let Some(sig) = plan.signal {
            let admitted = translator.send_signal(sig).unwrap().unwrap();
            translator.tx.try_send(admitted).unwrap();
            let received = rx.try_recv().unwrap();
            let taken = timer_handle
                .handle_mouse_up_timeout(100, timer, TimerEvent::Signal(received))
                .unwrap();
            if taken.release {
                releases += 1;
            }
            timer = taken.next;
        }
        if plan.command == Some(DeviceCommand::Press) {
            presses += 1;
        }
        translator.carried_out(&plan);
    }

    assert_eq!(presses, 2);
    assert_eq!(releases, 0);
    assert_eq!(timer, TimerState::Idle);
    assert!(translator.vtp.mouse_is_down);
}

#[test]
fn a_drag_left_alone_is_released_by_the_timer() {
    let mut translator = cancellable(100);
    let timer_handle = translator.clone_vtp();
    let begin = translator.translate_gesture(RawEvent::GestureHoldBegin { fingers: 3 });
    translator.carried_out(&begin);
    let end = translator.translate_gesture(RawEvent::GestureHoldEnd { fingers: 3 });
    assert_eq!(end.signal, Some(ControlSignal::RestartTimer));

    let started = timer_handle
        .handle_mouse_up_timeout(100, TimerState::Idle, TimerEvent::Signal(ControlSignal::RestartTimer))
        .unwrap();
    assert_eq!(started.next, TimerState::Counting { remaining_ms: 100 });
    let due = timer_handle
        .handle_mouse_up_timeout(100, started.next, TimerEvent::DeadlineElapsed)
        .unwrap();
    assert!(due.release);
    assert_eq!(due.next, TimerState::Idle);
}
