//! The gesture translators: from an input event to what must be done.
//!
//! A translator does not act. For each event it draws up a [`Plan`]: at most
//! one signal for the release timer and at most one command for the virtual
//! device. The caller carries the plan out, signal first, and reports back
//! with [`GestureTranslator::carried_out`] when all of it has succeeded.
//!
//! There are two translators. [`TranslatorCd`] works with a release timer on
//! the other end of a channel, so that a pending release can still be called
//! off. [`TranslatorClassic`] has no timer: where the first sends a signal,
//! it does at once what the timer would have done.
//!
//! The channel is one of the `smol` crate. The translator holds the sending
//! end and looks whether there is room on it; the sending itself, which may
//! have to wait, is the caller's.

use crate::config::Configuration;
use crate::error::GtError;
use crate::event::{classify, intent_of, Intent, RawEvent, DRAG_FINGERS};
use crate::fixed::Fixed;
use crate::signal::ControlSignal;
use crate::timer::{timer_step, TimerEvent, TimerState, TimerStep};
use crate::virtual_trackpad::{button_after, DeviceCommand, VirtualTrackpad};
use smol::channel::Sender;
use vstd::prelude::*;

verus! {

/// The sending end of a channel of the `smol` crate. What the channel holds
/// changes as the other end takes from it, so nothing is said of it here.
#[verifier::external_type_specification]
#[verifier::external_body]
#[verifier::reject_recursive_types(T)]
pub struct ExSender<T>(Sender<T>);

/// Asks `Sender::is_full` whether the channel is at its capacity.
///
/// Trusted, and nothing is claimed of the answer: the timer may take a
/// signal off the channel at any moment.
#[verifier::external_body]
fn channel_is_full(tx: &Sender<ControlSignal>) -> (full: bool) {
    tx.is_full()
}

/// What one event calls for.
///
/// The signal, if there is one, is sent before the command, if there is
/// one, is written: a stale release is called off before the button is
/// pressed anew.
#[derive(Clone, Copy, Debug, PartialEq, Eq, Structural)]
pub struct Plan {
    /// The signal to hand to the release timer.
    pub signal: Option<ControlSignal>,
    /// The command to write to the virtual device.
    pub command: Option<DeviceCommand>,
}

/// Whether motion by `dx` and `dy` is too small to count: it is when both
/// are smaller in magnitude than the configured threshold.
pub open spec fn is_jitter(cfg: Configuration, dx: Fixed, dy: Fixed) -> bool {
    dx.magnitude() < cfg.min_motion.micros && dy.magnitude() < cfg.min_motion.micros
}

/// The command that motion by `dx` and `dy` calls for: none for jitter,
/// else a move by both distances times the configured acceleration.
pub open spec fn cursor_motion(cfg: Configuration, dx: Fixed, dy: Fixed) -> Option<DeviceCommand> {
    if is_jitter(cfg, dx, dy) {
        None
    } else {
        Some(
            DeviceCommand::MoveRelative {
                x_rel: dx.times(cfg.acceleration),
                y_rel: dy.times(cfg.acceleration),
            },
        )
    }
}

/// How a translator with a release timer carries out an intent.
///
/// To begin a drag it calls off any pending release and presses the button.
/// To end one it starts the timer, or, with no delay configured, releases
/// the button itself and leaves the channel alone. To abort it has the timer
/// release at once. Motion goes straight to the device.
pub open spec fn cancellable_plan(cfg: Configuration, intent: Intent) -> Plan {
    match intent {
        Intent::Nothing => Plan { signal: None, command: None },
        Intent::BeginDrag => Plan {
            signal: Some(ControlSignal::CancelMouseUp),
            command: Some(DeviceCommand::Press),
        },
        Intent::EndDrag => if cfg.drag_end_delay == 0 {
            Plan { signal: None, command: Some(DeviceCommand::Release) }
        } else {
            Plan { signal: Some(ControlSignal::RestartTimer), command: None }
        },
        Intent::AbortDrag => Plan { signal: Some(ControlSignal::CancelTimer), command: None },
        Intent::Motion { dx, dy } => Plan { signal: None, command: cursor_motion(cfg, dx, dy) },
    }
}

/// How a translator without a release timer carries out an intent.
///
/// It never signals. To begin a drag it presses the button. To end one it
/// releases the button after the configured delay, which it sits out, or at
/// once if there is none. To abort it releases at once. Motion goes straight
/// to the device.
pub open spec fn classic_plan(cfg: Configuration, intent: Intent) -> Plan {
    match intent {
        Intent::Nothing => Plan { signal: None, command: None },
        Intent::BeginDrag => Plan { signal: None, command: Some(DeviceCommand::Press) },
        Intent::EndDrag => if cfg.drag_end_delay == 0 {
            Plan { signal: None, command: Some(DeviceCommand::Release) }
        } else {
            Plan {
                signal: None,
                command: Some(DeviceCommand::ReleaseAfter { delay_ms: cfg.drag_end_delay }),
            }
        },
        Intent::AbortDrag => Plan { signal: None, command: Some(DeviceCommand::Release) },
        Intent::Motion { dx, dy } => Plan { signal: None, command: cursor_motion(cfg, dx, dy) },
    }
}

/// Whether the translator takes the button to be down once `plan` has been
/// carried out, given what it took it to be before.
///
/// The translator goes by what it has itself set in motion: a release that
/// it has told the timer to commit at once counts as done, one that the
/// timer is to commit later does not count yet.
pub open spec fn drag_after(was_down: bool, plan: Plan) -> bool {
    let after_signal = if plan.signal == Some(ControlSignal::CancelTimer) {
        false
    } else {
        was_down
    };
    match plan.command {
        Some(command) => button_after(after_signal, command),
        None => after_signal,
    }
}

/// What becomes of a signal that a translator with a release timer is to
/// send: it goes out, unless the channel is full, in which case it comes
/// back in the error.
pub open spec fn cancellable_send(sig: ControlSignal, channel_full: bool) -> Result<
    Option<ControlSignal>,
    GtError,
> {
    if channel_full {
        Err(GtError::ChannelFull(sig))
    } else {
        Ok(Some(sig))
    }
}

/// Decides whether `sig` goes out, given whether the channel is full.
///
/// The channel has room for what the timer has not yet taken. When it is
/// full the timer has not kept up: the signal is then held back and comes
/// back in the error, for the caller to report.
pub fn admit_signal(sig: ControlSignal, channel_full: bool) -> (outcome: Result<
    Option<ControlSignal>,
    GtError,
>)
    ensures
        outcome == cancellable_send(sig, channel_full),
{
    if channel_full {
        return Err(GtError::ChannelFull(sig));
    }
    Ok(Some(sig))
}

/// The command for pointer motion by `dx` and `dy`, if it calls for one.
///
/// Motion below the threshold on both axes is dropped, which steadies the
/// pointer. All other motion is multiplied by the acceleration.
pub fn update_mouse(configs: &Configuration, dx: Fixed, dy: Fixed) -> (command: Option<
    DeviceCommand,
>)
    ensures
        command == cursor_motion(*configs, dx, dy),
{
    if dx.magnitude_below(&configs.min_motion) && dy.magnitude_below(&configs.min_motion) {
        return None;
    }
    Some(
        DeviceCommand::MoveRelative {
            x_rel: dx.scaled_by(&configs.acceleration),
            y_rel: dy.scaled_by(&configs.acceleration),
        },
    )
}

/// What the two translators have in common.
pub trait GestureTranslator {
    /// The settings the translator works by.
    spec fn settings(&self) -> Configuration;

    /// The translator's handle on the virtual device.
    spec fn handle(&self) -> VirtualTrackpad;

    /// The plan this translator draws up for `event`.
    spec fn plan_for(&self, event: RawEvent) -> Plan;

    /// What becomes of a signal that this translator is to send, given
    /// whether its channel is full.
    spec fn send_outcome(&self, sig: ControlSignal, channel_full: bool) -> Result<
        Option<ControlSignal>,
        GtError,
    >;

    /// Draws up the plan for one event. Events are to be handed over one at
    /// a time, in the order in which they arrived.
    fn translate_gesture(&self, event: RawEvent) -> (plan: Plan)
        ensures
            plan == self.plan_for(event),
    ;

    /// Decides whether `sig` can go out.
    ///
    /// `Ok(Some(sig))` is the signal to put on the channel, `Ok(None)` means
    /// that there is nothing to send, and the error gives the signal back.
    /// Which of them comes back may hang on the channel, which is looked at
    /// here: the outcome is the one for a full channel or the one for a
    /// channel with room.
    fn send_signal(&self, sig: ControlSignal) -> (outcome: Result<Option<ControlSignal>, GtError>)
        ensures
            outcome == self.send_outcome(sig, true) || outcome == self.send_outcome(sig, false),
    ;

    /// Records that `plan` has been carried out in full.
    fn carried_out(&mut self, plan: &Plan)
        ensures
            final(self).handle().mouse_is_down == drag_after(
                old(self).handle().mouse_is_down,
                *plan,
            ),
            final(self).settings() == old(self).settings(),
    ;

    /// Whether a pending release can be called off.
    fn delay_cancellable(&self) -> (cancellable: bool)
        ensures
            cancellable == self.settings().drag_end_delay_cancellable,
    ;

    /// How long the button is held after a gesture ends, in milliseconds.
    fn drag_end_delay(&self) -> (millis: u64)
        ensures
            millis == self.settings().drag_end_delay,
    ;

    /// The pause between two polls of the trackpad, in milliseconds.
    fn response_time(&self) -> (millis: u64)
        ensures
            millis == self.settings().response_time,
    ;

    /// A second handle on the virtual device, with the same record of the
    /// button.
    fn clone_vtp(&self) -> (vtp: VirtualTrackpad)
        ensures
            vtp == self.handle(),
    ;
}

/// The translator that works with a release timer, so that the delay at the
/// end of a drag can be cut short or called off.
pub struct TranslatorCd {
    pub vtp: VirtualTrackpad,
    pub cfg: Configuration,
    /// The sending end of the channel to the timer.
    pub tx: Sender<ControlSignal>,
}

/// The translator that works alone: the delay at the end of a drag is a
/// plain wait that nothing can interrupt.
pub struct TranslatorClassic {
    pub vtp: VirtualTrackpad,
    pub cfg: Configuration,
}

impl TranslatorCd {
    /// A translator that works by `cfg`, tracks the button through `vtp`
    /// and reaches the timer through `tx`.
    pub fn new(vtp: VirtualTrackpad, cfg: Configuration, tx: Sender<ControlSignal>) -> (translator:
        TranslatorCd)
        ensures
            translator.vtp == vtp,
            translator.cfg == cfg,
            translator.tx == tx,
    {
        TranslatorCd { vtp, cfg, tx }
    }

    /// Moves the pointer, unless the motion is jitter.
    fn update_cursor_position(&self, dx: Fixed, dy: Fixed) -> (plan: Plan)
        ensures
            plan == cancellable_plan(self.cfg, Intent::Motion { dx, dy }),
    {
        Plan { signal: None, command: update_mouse(&self.cfg, dx, dy) }
    }

    /// Calls off any release that is still pending, then presses the button.
    fn mouse_down(&self) -> (plan: Plan)
        ensures
            plan == cancellable_plan(self.cfg, Intent::BeginDrag),
    {
        Plan { signal: Some(ControlSignal::CancelMouseUp), command: Some(DeviceCommand::Press) }
    }

    /// Ends the drag: through the timer, or at once if no delay is set.
    fn handle_mouse_up(&self) -> (plan: Plan)
        ensures
            plan == cancellable_plan(self.cfg, Intent::EndDrag),
    {
        if self.cfg.drag_end_delay == 0 {
            return Plan { signal: None, command: Some(DeviceCommand::Release) };
        }
        Plan { signal: Some(ControlSignal::RestartTimer), command: None }
    }

    /// Has the timer release the button now, cutting any delay short.
    fn mouse_up_now(&self) -> (plan: Plan)
        ensures
            plan == cancellable_plan(self.cfg, Intent::AbortDrag),
    {
        Plan { signal: Some(ControlSignal::CancelTimer), command: None }
    }
}

impl GestureTranslator for TranslatorCd {
    open spec fn settings(&self) -> Configuration {
        self.cfg
    }

    open spec fn handle(&self) -> VirtualTrackpad {
        self.vtp
    }

    open spec fn plan_for(&self, event: RawEvent) -> Plan {
        cancellable_plan(self.cfg, intent_of(self.vtp.mouse_is_down, event))
    }

    open spec fn send_outcome(&self, sig: ControlSignal, channel_full: bool) -> Result<
        Option<ControlSignal>,
        GtError,
    > {
        cancellable_send(sig, channel_full)
    }

    fn translate_gesture(&self, event: RawEvent) -> (plan: Plan) {
        match classify(self.vtp.mouse_is_down, &event) {
            Intent::Nothing => Plan { signal: None, command: None },
            Intent::BeginDrag => self.mouse_down(),
            Intent::EndDrag => self.handle_mouse_up(),
            Intent::AbortDrag => self.mouse_up_now(),
            Intent::Motion { dx, dy } => self.update_cursor_position(dx, dy),
        }
    }

    /// Looks whether the channel has room, and lets the signal pass if it
    /// has.
    fn send_signal(&self, sig: ControlSignal) -> (outcome: Result<Option<ControlSignal>, GtError>) {
        let channel_full = channel_is_full(&self.tx);
        admit_signal(sig, channel_full)
    }

    fn carried_out(&mut self, plan: &Plan)
        ensures
            final(self).tx == old(self).tx,
    {
        match plan.signal {
            Some(ControlSignal::CancelTimer) => {
                self.vtp.mouse_is_down = false;
            },
            _ => {},
        }
        match &plan.command {
            Some(command) => {
                self.vtp.written(command);
            },
            None => {},
        }
    }

    fn delay_cancellable(&self) -> (cancellable: bool) {
        self.cfg.drag_end_delay_cancellable
    }

    fn drag_end_delay(&self) -> (millis: u64) {
        self.cfg.drag_end_delay
    }

    fn response_time(&self) -> (millis: u64) {
        self.cfg.response_time
    }

    fn clone_vtp(&self) -> (vtp: VirtualTrackpad) {
        self.vtp
    }
}

impl TranslatorClassic {
    /// A translator that works by `cfg` and tracks the button through `vtp`.
    pub fn new(vtp: VirtualTrackpad, cfg: Configuration) -> (translator: TranslatorClassic)
        ensures
            translator.vtp == vtp,
            translator.cfg == cfg,
    {
        TranslatorClassic { vtp, cfg }
    }

    /// Moves the pointer, unless the motion is jitter.
    fn update_cursor_position(&self, dx: Fixed, dy: Fixed) -> (plan: Plan)
        ensures
            plan == classic_plan(self.cfg, Intent::Motion { dx, dy }),
    {
        Plan { signal: None, command: update_mouse(&self.cfg, dx, dy) }
    }

    /// Presses the button.
    fn mouse_down(&self) -> (plan: Plan)
        ensures
            plan == classic_plan(self.cfg, Intent::BeginDrag),
    {
        Plan { signal: None, command: Some(DeviceCommand::Press) }
    }

    /// Ends the drag: after the delay, or at once if none is set.
    fn handle_mouse_up(&self) -> (plan: Plan)
        ensures
            plan == classic_plan(self.cfg, Intent::EndDrag),
    {
        if self.cfg.drag_end_delay == 0 {
            return self.mouse_up_now();
        }
        Plan {
            signal: None,
            command: Some(DeviceCommand::ReleaseAfter { delay_ms: self.cfg.drag_end_delay }),
        }
    }

    /// Releases the button now.
    fn mouse_up_now(&self) -> (plan: Plan)
        ensures
            plan == classic_plan(self.cfg, Intent::AbortDrag),
    {
        Plan { signal: None, command: Some(DeviceCommand::Release) }
    }
}

impl GestureTranslator for TranslatorClassic {
    open spec fn settings(&self) -> Configuration {
        self.cfg
    }

    open spec fn handle(&self) -> VirtualTrackpad {
        self.vtp
    }

    open spec fn plan_for(&self, event: RawEvent) -> Plan {
        classic_plan(self.cfg, intent_of(self.vtp.mouse_is_down, event))
    }

    open spec fn send_outcome(&self, sig: ControlSignal, channel_full: bool) -> Result<
        Option<ControlSignal>,
        GtError,
    > {
        Ok(None)
    }

    fn translate_gesture(&self, event: RawEvent) -> (plan: Plan) {
        match classify(self.vtp.mouse_is_down, &event) {
            Intent::Nothing => Plan { signal: None, command: None },
            Intent::BeginDrag => self.mouse_down(),
            Intent::EndDrag => self.handle_mouse_up(),
            Intent::AbortDrag => self.mouse_up_now(),
            Intent::Motion { dx, dy } => self.update_cursor_position(dx, dy),
        }
    }

    /// There is no timer to signal: nothing is ever sent.
    fn send_signal(&self, sig: ControlSignal) -> (outcome: Result<Option<ControlSignal>, GtError>) {
        Ok(None)
    }

    fn carried_out(&mut self, plan: &Plan) {
        match plan.signal {
            Some(ControlSignal::CancelTimer) => {
                self.vtp.mouse_is_down = false;
            },
            _ => {},
        }
        match &plan.command {
            Some(command) => {
                self.vtp.written(command);
            },
            None => {},
        }
    }

    fn delay_cancellable(&self) -> (cancellable: bool) {
        self.cfg.drag_end_delay_cancellable
    }

    fn drag_end_delay(&self) -> (millis: u64) {
        self.cfg.drag_end_delay
    }

    fn response_time(&self) -> (millis: u64) {
        self.cfg.response_time
    }

    fn clone_vtp(&self) -> (vtp: VirtualTrackpad) {
        self.vtp
    }
}

/// Jitter reaches the device in no form: a three-finger swipe, or pointer
/// motion, that stays below the threshold on both axes calls for nothing at
/// all, from either translator and whatever the state of the drag.
pub proof fn jitter_writes_nothing(
    cd: TranslatorCd,
    classic: TranslatorClassic,
    dx: Fixed,
    dy: Fixed,
)
    requires
        is_jitter(cd.cfg, dx, dy),
        is_jitter(classic.cfg, dx, dy),
    ensures
        cd.plan_for(RawEvent::GestureSwipeUpdate { fingers: DRAG_FINGERS, dx, dy }) == (Plan {
            signal: None,
            command: None,
        }),
        classic.plan_for(RawEvent::GestureSwipeUpdate { fingers: DRAG_FINGERS, dx, dy }) == (Plan {
            signal: None,
            command: None,
        }),
        cd.plan_for(RawEvent::PointerMotion { dx, dy }) == (Plan { signal: None, command: None }),
        classic.plan_for(RawEvent::PointerMotion { dx, dy }) == (Plan {
            signal: None,
            command: None,
        }),
{
}

/// Motion is never delayed and never signalled: a three-finger swipe that
/// is no jitter goes to the device at once, multiplied on each axis by the
/// acceleration, and the timer hears nothing of it.
pub proof fn motion_goes_straight_to_the_device(
    cd: TranslatorCd,
    classic: TranslatorClassic,
    dx: Fixed,
    dy: Fixed,
)
    requires
        !is_jitter(cd.cfg, dx, dy),
        !is_jitter(classic.cfg, dx, dy),
    ensures
        cd.plan_for(RawEvent::GestureSwipeUpdate { fingers: DRAG_FINGERS, dx, dy }) == (Plan {
            signal: None,
            command: Some(
                DeviceCommand::MoveRelative {
                    x_rel: dx.times(cd.cfg.acceleration),
                    y_rel: dy.times(cd.cfg.acceleration),
                },
            ),
        }),
        classic.plan_for(RawEvent::GestureSwipeUpdate { fingers: DRAG_FINGERS, dx, dy }) == (Plan {
            signal: None,
            command: Some(
                DeviceCommand::MoveRelative {
                    x_rel: dx.times(classic.cfg.acceleration),
                    y_rel: dy.times(classic.cfg.acceleration),
                },
            ),
        }),
{
}

/// With no delay configured, the end of a three-finger hold or swipe
/// releases the button in the same plan and sends nothing: the channel is
/// not touched. Such settings call for no timer in the first place.
pub proof fn zero_delay_releases_at_once(
    cd: TranslatorCd,
    classic: TranslatorClassic,
    event: RawEvent,
)
    requires
        event == (RawEvent::GestureHoldEnd { fingers: DRAG_FINGERS }) || event == (
        RawEvent::GestureSwipeEnd { fingers: DRAG_FINGERS }),
        cd.cfg.drag_end_delay == 0,
        classic.cfg.drag_end_delay == 0,
    ensures
        cd.plan_for(event) == (Plan { signal: None, command: Some(DeviceCommand::Release) }),
        classic.plan_for(event) == (Plan { signal: None, command: Some(DeviceCommand::Release) }),
        !cd.cfg.needs_timer(),
        !classic.cfg.needs_timer(),
{
}

/// The translator without a timer never touches the channel: no plan of
/// its own holds a signal, and no signal handed to it is sent.
pub proof fn classic_never_signals(
    classic: TranslatorClassic,
    event: RawEvent,
    sig: ControlSignal,
    channel_full: bool,
)
    ensures
        classic.plan_for(event).signal is None,
        classic.send_outcome(sig, channel_full) == Ok::<Option<ControlSignal>, GtError>(None),
{
}

/// No plan asks for more than the protocol allows: a plan that aborts the
/// drag through the timer writes nothing itself, and one that starts the
/// countdown writes nothing either.
pub proof fn signalled_release_is_left_to_the_timer(cd: TranslatorCd, event: RawEvent)
    ensures
        cd.plan_for(event).signal == Some(ControlSignal::CancelTimer) ==> cd.plan_for(
            event,
        ).command is None,
        cd.plan_for(event).signal == Some(ControlSignal::RestartTimer) ==> cd.plan_for(
            event,
        ).command is None,
        cd.plan_for(event).signal != Some(ControlSignal::TerminateThread),
{
}

/// A gesture with any other number of fingers than three ends the drag at
/// once, whatever the gesture, whatever the settings and whether or not
/// the button is taken to be down. The translator with a timer sends
/// `CancelTimer`; the translator without one releases the button itself.
pub proof fn foreign_gesture_releases(cd: TranslatorCd, classic: TranslatorClassic, event: RawEvent)
    requires
        event.is_foreign_gesture(),
    ensures
        cd.plan_for(event) == (Plan { signal: Some(ControlSignal::CancelTimer), command: None }),
        classic.plan_for(event) == (Plan { signal: None, command: Some(DeviceCommand::Release) }),
{
}

/// A drag that takes up again supersedes a release that is still pending.
/// The translator with a timer sends `CancelMouseUp` and presses the
/// button; on that signal a counting timer goes idle without releasing.
pub proof fn new_drag_supersedes_pending_release(
    cd: TranslatorCd,
    event: RawEvent,
    remaining_ms: u64,
    delay_ms: u64,
)
    requires
        event == (RawEvent::GestureHoldBegin { fingers: DRAG_FINGERS }) || event == (
        RawEvent::GestureSwipeBegin { fingers: DRAG_FINGERS }),
    ensures
        cd.plan_for(event) == (Plan {
            signal: Some(ControlSignal::CancelMouseUp),
            command: Some(DeviceCommand::Press),
        }),
        timer_step(
            TimerState::Counting { remaining_ms },
            delay_ms,
            TimerEvent::Signal(ControlSignal::CancelMouseUp),
        ) == (TimerStep { next: TimerState::Idle, release: false }),
{
}

/// The end of a three-finger gesture, with a delay configured, starts the
/// countdown from the full delay and leaves the button alone for now.
pub proof fn drag_end_starts_the_countdown(
    cd: TranslatorCd,
    event: RawEvent,
    timer: TimerState,
)
    requires
        event == (RawEvent::GestureHoldEnd { fingers: DRAG_FINGERS }) || event == (
        RawEvent::GestureSwipeEnd { fingers: DRAG_FINGERS }),
        cd.cfg.drag_end_delay > 0,
        timer !is Terminated,
    ensures
        cd.plan_for(event) == (Plan { signal: Some(ControlSignal::RestartTimer), command: None }),
        timer_step(
            timer,
            cd.cfg.drag_end_delay,
            TimerEvent::Signal(ControlSignal::RestartTimer),
        ) == (TimerStep {
            next: TimerState::Counting { remaining_ms: cd.cfg.drag_end_delay },
            release: false,
        }),
{
}

/// The translator without a timer does itself, and at once, what the
/// timer would do on each signal of the other translator: where that one
/// calls a release off it does nothing, where that one cancels the timer it
/// releases, and where that one starts the countdown it releases after the
/// delay.
pub proof fn classic_acts_for_the_timer(cfg: Configuration, intent: Intent)
    ensures
        classic_plan(cfg, intent).signal is None,
        (match cancellable_plan(cfg, intent).signal {
            None => classic_plan(cfg, intent).command == cancellable_plan(cfg, intent).command,
            Some(ControlSignal::CancelMouseUp) => classic_plan(cfg, intent).command
                == cancellable_plan(cfg, intent).command,
            Some(ControlSignal::CancelTimer) => classic_plan(cfg, intent).command == Some(
                DeviceCommand::Release,
            ),
            Some(ControlSignal::RestartTimer) => classic_plan(cfg, intent).command == Some(
                DeviceCommand::ReleaseAfter { delay_ms: cfg.drag_end_delay },
            ),
            Some(ControlSignal::TerminateThread) => false,
        }),
{
}

} // verus!
