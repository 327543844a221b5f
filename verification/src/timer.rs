//! The delayed-release timer.
//!
//! When a drag gesture ends, the button is not released at once: the timer
//! counts down first, so that a short pause between two gestures does not
//! break the drag. While it counts, a signal can start the countdown again,
//! cut it short, or call the release off.
//!
//! The timer is a state machine. The caller waits, for the next signal when
//! the timer is idle, for the next signal or the deadline (whichever comes
//! first) when it is counting, and hands what happened to
//! [`VirtualTrackpad::handle_mouse_up_timeout`], which answers with the next
//! state and whether to release the button now.

use crate::error::VtpError;
use crate::signal::ControlSignal;
use crate::virtual_trackpad::VirtualTrackpad;
use vstd::prelude::*;

verus! {

/// Where the timer stands between two wake-ups.
#[derive(Clone, Copy, Debug, PartialEq, Eq, Structural)]
pub enum TimerState {
    /// No release is pending; the timer waits for a signal.
    Idle,
    /// A release is pending and falls due in `remaining_ms` milliseconds.
    Counting { remaining_ms: u64 },
    /// The timer has stopped and takes no further part.
    Terminated,
}

/// What woke the timer.
#[derive(Clone, Copy, Debug, PartialEq, Eq, Structural)]
pub enum TimerEvent {
    /// A signal arrived on the channel.
    Signal(ControlSignal),
    /// The countdown ran out before any signal arrived.
    DeadlineElapsed,
    /// The channel was closed: no signal will ever arrive.
    Disconnected,
}

/// The timer's answer to one event.
#[derive(Clone, Copy, Debug, PartialEq, Eq, Structural)]
pub struct TimerStep {
    /// The state to wait in next.
    pub next: TimerState,
    /// Whether to release the button now.
    pub release: bool,
}

/// The timer's transition table.
///
/// A stopped timer stays stopped. Otherwise a signal has the same effect
/// whether or not a countdown is running: to restart is to count from the
/// full `delay_ms`, to cancel the timer is to release at once, and a
/// superseding press leaves the timer idle with nothing released. Only the
/// deadline depends on the state: it releases the button if a countdown was
/// running, and is ignored if none was. A closed channel stops the timer,
/// as the order to terminate does, and releases nothing.
pub open spec fn timer_step(state: TimerState, delay_ms: u64, event: TimerEvent) -> TimerStep {
    if state is Terminated {
        TimerStep { next: TimerState::Terminated, release: false }
    } else {
        match event {
            TimerEvent::Signal(ControlSignal::RestartTimer) => TimerStep {
                next: TimerState::Counting { remaining_ms: delay_ms },
                release: false,
            },
            TimerEvent::Signal(ControlSignal::CancelTimer) => TimerStep {
                next: TimerState::Idle,
                release: true,
            },
            TimerEvent::Signal(ControlSignal::CancelMouseUp) => TimerStep {
                next: TimerState::Idle,
                release: false,
            },
            TimerEvent::Signal(ControlSignal::TerminateThread) => TimerStep {
                next: TimerState::Terminated,
                release: false,
            },
            TimerEvent::DeadlineElapsed => TimerStep {
                next: TimerState::Idle,
                release: state is Counting,
            },
            TimerEvent::Disconnected => TimerStep { next: TimerState::Terminated, release: false },
        }
    }
}

/// One wake-up of a running countdown.
///
/// The deadline or a call to cancel releases the button; a restart begins
/// the countdown again from `delay_ms`; a superseding press or the order to
/// terminate ends it without a release.
fn run_timer(delay_ms: u64, event: TimerEvent) -> (outcome: Result<TimerStep, VtpError>)
    ensures
        event is Disconnected ==> outcome == Err::<TimerStep, VtpError>(VtpError::ChannelRecvError),
        event !is Disconnected ==> outcome == Ok::<TimerStep, VtpError>(
            timer_step(TimerState::Counting { remaining_ms: delay_ms }, delay_ms, event),
        ),
{
    match event {
        TimerEvent::Disconnected => Err(VtpError::ChannelRecvError),
        TimerEvent::DeadlineElapsed => Ok(TimerStep { next: TimerState::Idle, release: true }),
        TimerEvent::Signal(signal) => match signal {
            ControlSignal::RestartTimer => Ok(
                TimerStep { next: TimerState::Counting { remaining_ms: delay_ms }, release: false },
            ),
            ControlSignal::CancelTimer => Ok(TimerStep { next: TimerState::Idle, release: true }),
            ControlSignal::CancelMouseUp => Ok(TimerStep { next: TimerState::Idle, release: false }),
            ControlSignal::TerminateThread => Ok(
                TimerStep { next: TimerState::Terminated, release: false },
            ),
        },
    }
}

impl VirtualTrackpad {
    /// Takes the timer through one event.
    ///
    /// `delay_ms` is the configured delay, `state` the state the timer waited
    /// in and `event` what ended the wait. The answer is the row of
    /// [`timer_step`] for them. A closed channel is the one failure: the timer
    /// cannot go on without it.
    pub fn handle_mouse_up_timeout(
        &self,
        delay_ms: u64,
        state: TimerState,
        event: TimerEvent,
    ) -> (outcome: Result<TimerStep, VtpError>)
        ensures
            event is Disconnected ==> outcome == Err::<TimerStep, VtpError>(
                VtpError::ChannelRecvError,
            ),
            event !is Disconnected ==> outcome == Ok::<TimerStep, VtpError>(
                timer_step(state, delay_ms, event),
            ),
    {
        match state {
            TimerState::Counting { remaining_ms } => run_timer(delay_ms, event),
            TimerState::Terminated => match event {
                TimerEvent::Disconnected => Err(VtpError::ChannelRecvError),
                _ => Ok(TimerStep { next: TimerState::Terminated, release: false }),
            },
            TimerState::Idle => match event {
                TimerEvent::Disconnected => Err(VtpError::ChannelRecvError),
                TimerEvent::DeadlineElapsed => Ok(
                    TimerStep { next: TimerState::Idle, release: false },
                ),
                TimerEvent::Signal(signal) => match signal {
                    ControlSignal::RestartTimer => Ok(
                        TimerStep {
                            next: TimerState::Counting { remaining_ms: delay_ms },
                            release: false,
                        },
                    ),
                    ControlSignal::CancelTimer => Ok(
                        TimerStep { next: TimerState::Idle, release: true },
                    ),
                    ControlSignal::CancelMouseUp => Ok(
                        TimerStep { next: TimerState::Idle, release: false },
                    ),
                    ControlSignal::TerminateThread => Ok(
                        TimerStep { next: TimerState::Terminated, release: false },
                    ),
                },
            },
        }
    }
}

/// The state the timer is in after taking `events` in order.
pub open spec fn state_after(state: TimerState, delay_ms: u64, events: Seq<TimerEvent>) -> TimerState
    decreases events.len(),
{
    if events.len() == 0 {
        state
    } else {
        state_after(timer_step(state, delay_ms, events[0]).next, delay_ms, events.drop_first())
    }
}

/// How many times the timer releases the button while taking `events` in
/// order.
pub open spec fn releases(state: TimerState, delay_ms: u64, events: Seq<TimerEvent>) -> nat
    decreases events.len(),
{
    if events.len() == 0 {
        0
    } else {
        let step = timer_step(state, delay_ms, events[0]);
        let now: nat = if step.release {
            1
        } else {
            0
        };
        now + releases(step.next, delay_ms, events.drop_first())
    }
}

/// How many of those releases resolve a countdown, that is, are committed
/// while the timer is counting.
pub open spec fn countdown_releases(
    state: TimerState,
    delay_ms: u64,
    events: Seq<TimerEvent>,
) -> nat
    decreases events.len(),
{
    if events.len() == 0 {
        0
    } else {
        let step = timer_step(state, delay_ms, events[0]);
        let now: nat = if state is Counting && step.release {
            1
        } else {
            0
        };
        now + countdown_releases(step.next, delay_ms, events.drop_first())
    }
}

/// How many countdowns begin while the timer takes `events` in order: the
/// steps that take it from idle to counting.
pub open spec fn countdowns_begun(
    state: TimerState,
    delay_ms: u64,
    events: Seq<TimerEvent>,
) -> nat
    decreases events.len(),
{
    if events.len() == 0 {
        0
    } else {
        let step = timer_step(state, delay_ms, events[0]);
        let now: nat = if state is Idle && step.next is Counting {
            1
        } else {
            0
        };
        now + countdowns_begun(step.next, delay_ms, events.drop_first())
    }
}

/// `count` restart signals in a row.
pub open spec fn restarts(count: nat) -> Seq<TimerEvent> {
    Seq::new(count, |i: int| TimerEvent::Signal(ControlSignal::RestartTimer))
}

/// A release that resolves a countdown ends it: the timer is idle
/// afterwards, so the same countdown cannot release a second time.
pub proof fn release_ends_countdown(remaining_ms: u64, delay_ms: u64, event: TimerEvent)
    ensures
        timer_step(TimerState::Counting { remaining_ms }, delay_ms, event).release
            ==> timer_step(TimerState::Counting { remaining_ms }, delay_ms, event).next
            is Idle,
{
}

/// No countdown releases twice: over any run of events, from any state, the
/// releases that resolve a countdown are no more than the countdowns there
/// were, the one already running at the start included.
pub proof fn one_release_per_countdown(
    state: TimerState,
    delay_ms: u64,
    events: Seq<TimerEvent>,
)
    ensures
        countdown_releases(state, delay_ms, events) <= countdowns_begun(state, delay_ms, events)
            + (if state is Counting {
            1nat
        } else {
            0nat
        }),
    decreases events.len(),
{
    if events.len() > 0 {
        let step = timer_step(state, delay_ms, events[0]);
        one_release_per_countdown(step.next, delay_ms, events.drop_first());
    }
}

/// A stopped timer never releases, whatever it is fed, and stays stopped.
pub proof fn terminated_is_final(delay_ms: u64, events: Seq<TimerEvent>)
    ensures
        releases(TimerState::Terminated, delay_ms, events) == 0,
        state_after(TimerState::Terminated, delay_ms, events) is Terminated,
    decreases events.len(),
{
    if events.len() > 0 {
        terminated_is_final(delay_ms, events.drop_first());
    }
}

/// On `CancelTimer` a timer that has not stopped releases the button at
/// once and goes idle, whether it was counting or not.
pub proof fn cancel_timer_releases_at_once(timer: TimerState, delay_ms: u64)
    requires
        timer !is Terminated,
    ensures
        timer_step(timer, delay_ms, TimerEvent::Signal(ControlSignal::CancelTimer)) == (TimerStep {
            next: TimerState::Idle,
            release: true,
        }),
{
}

/// The order to terminate stops the timer from any state without a release,
/// a pending one included.
pub proof fn terminate_stops_without_release(state: TimerState, delay_ms: u64)
    ensures
        timer_step(state, delay_ms, TimerEvent::Signal(ControlSignal::TerminateThread))
            == (TimerStep { next: TimerState::Terminated, release: false }),
{
}

/// Once the order to terminate has come, the timer has stopped, whatever
/// came before it; and the order itself releases nothing.
pub proof fn terminate_always_stops(state: TimerState, delay_ms: u64, events: Seq<TimerEvent>)
    ensures
        state_after(
            state,
            delay_ms,
            events.push(TimerEvent::Signal(ControlSignal::TerminateThread)),
        ) is Terminated,
        releases(state, delay_ms, events.push(TimerEvent::Signal(ControlSignal::TerminateThread)))
            == releases(state, delay_ms, events),
    decreases events.len(),
{
    let terminate = TimerEvent::Signal(ControlSignal::TerminateThread);
    let closed = events.push(terminate);
    if events.len() == 0 {
        assert(closed[0] == terminate);
        assert(closed.drop_first() =~= Seq::<TimerEvent>::empty());
        let stopped = timer_step(state, delay_ms, terminate).next;
        assert(state_after(stopped, delay_ms, closed.drop_first()) == stopped);
        assert(releases(stopped, delay_ms, closed.drop_first()) == 0);
    } else {
        assert(closed[0] == events[0]);
        assert(closed.drop_first() =~= events.drop_first().push(terminate));
        terminate_always_stops(
            timer_step(state, delay_ms, events[0]).next,
            delay_ms,
            events.drop_first(),
        );
    }
}

/// A superseding press that arrives before the deadline calls the release
/// off: however often the countdown was restarted in the meantime, the
/// button is not released and the timer is idle again.
pub proof fn superseding_press_cancels_release(remaining_ms: u64, delay_ms: u64, restarted: nat)
    ensures
        releases(
            TimerState::Counting { remaining_ms },
            delay_ms,
            restarts(restarted).push(TimerEvent::Signal(ControlSignal::CancelMouseUp)),
        ) == 0,
        state_after(
            TimerState::Counting { remaining_ms },
            delay_ms,
            restarts(restarted).push(TimerEvent::Signal(ControlSignal::CancelMouseUp)),
        ) is Idle,
    decreases restarted,
{
    let cancel = TimerEvent::Signal(ControlSignal::CancelMouseUp);
    let events = restarts(restarted).push(cancel);
    let state = TimerState::Counting { remaining_ms };
    if restarted == 0 {
        assert(events.drop_first() =~= Seq::<TimerEvent>::empty());
        assert(events[0] == cancel);
        assert(releases(TimerState::Idle, delay_ms, events.drop_first()) == 0);
        assert(state_after(TimerState::Idle, delay_ms, events.drop_first()) is Idle);
    } else {
        assert(events[0] == TimerEvent::Signal(ControlSignal::RestartTimer));
        assert(events.drop_first() =~= restarts((restarted - 1) as nat).push(cancel));
        superseding_press_cancels_release(delay_ms, delay_ms, (restarted - 1) as nat);
    }
}

/// Countdowns do not stack: after any number of restarts in a row the timer
/// counts once, from the full delay, and the deadline that follows releases
/// the button exactly once.
pub proof fn restarts_do_not_stack(state: TimerState, delay_ms: u64, restarted: nat)
    requires
        state !is Terminated,
        restarted >= 1,
    ensures
        state_after(state, delay_ms, restarts(restarted)) == (TimerState::Counting {
            remaining_ms: delay_ms,
        }),
        releases(state, delay_ms, restarts(restarted)) == 0,
        releases(state, delay_ms, restarts(restarted).push(TimerEvent::DeadlineElapsed)) == 1,
        state_after(state, delay_ms, restarts(restarted).push(TimerEvent::DeadlineElapsed))
            is Idle,
    decreases restarted,
{
    let events = restarts(restarted);
    let closed = events.push(TimerEvent::DeadlineElapsed);
    let counting = TimerState::Counting { remaining_ms: delay_ms };
    assert(events[0] == TimerEvent::Signal(ControlSignal::RestartTimer));
    assert(closed[0] == TimerEvent::Signal(ControlSignal::RestartTimer));
    assert(timer_step(state, delay_ms, events[0]).next == counting);
    if restarted == 1 {
        assert(events.drop_first() =~= Seq::<TimerEvent>::empty());
        assert(state_after(counting, delay_ms, events.drop_first()) == counting);
        assert(releases(counting, delay_ms, events.drop_first()) == 0);
        assert(closed.drop_first() =~= seq![TimerEvent::DeadlineElapsed]);
        let last = closed.drop_first();
        assert(last.drop_first() =~= Seq::<TimerEvent>::empty());
        assert(releases(TimerState::Idle, delay_ms, last.drop_first()) == 0);
        assert(releases(counting, delay_ms, last) == 1);
        assert(state_after(TimerState::Idle, delay_ms, last.drop_first()) is Idle);
        assert(state_after(counting, delay_ms, last) is Idle);
    } else {
        assert(events.drop_first() =~= restarts((restarted - 1) as nat));
        assert(closed.drop_first() =~= restarts((restarted - 1) as nat).push(
            TimerEvent::DeadlineElapsed,
        ));
        restarts_do_not_stack(counting, delay_ms, (restarted - 1) as nat);
    }
}

} // verus!
