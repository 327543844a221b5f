//! The input events the classifier is fed, and what each one asks for.

use crate::fixed::Fixed;
use vstd::prelude::*;

verus! {

/// The number of fingers that makes a gesture a drag.
pub const DRAG_FINGERS: i32 = 3;

/// One event from the trackpad, reduced to what the classifier reads.
///
/// Gesture events carry the number of fingers on the pad. Motion is given
/// as the trackpad reports it, before any acceleration.
#[derive(Clone, Copy, Debug, PartialEq, Eq, Structural)]
pub enum RawEvent {
    GestureHoldBegin { fingers: i32 },
    GestureHoldEnd { fingers: i32 },
    GestureSwipeBegin { fingers: i32 },
    GestureSwipeUpdate { fingers: i32, dx: Fixed, dy: Fixed },
    GestureSwipeEnd { fingers: i32 },
    /// Any other gesture, such as a pinch.
    GestureOther { fingers: i32 },
    PointerMotion { dx: Fixed, dy: Fixed },
    PointerButton,
    PointerScroll,
    /// Any other pointer event.
    PointerOther,
}

/// What an event asks of the drag.
#[derive(Clone, Copy, Debug, PartialEq, Eq, Structural)]
pub enum Intent {
    /// Nothing at all.
    Nothing,
    /// Press the button: a drag begins, or takes up again.
    BeginDrag,
    /// The gesture is over: release the button once the delay has passed.
    EndDrag,
    /// Release the button without delay.
    AbortDrag,
    /// Move the pointer along with the fingers.
    Motion { dx: Fixed, dy: Fixed },
}

impl RawEvent {
    /// The finger count of a gesture event; `None` for a pointer event.
    pub open spec fn finger_count(self) -> Option<i32> {
        match self {
            RawEvent::GestureHoldBegin { fingers } => Some(fingers),
            RawEvent::GestureHoldEnd { fingers } => Some(fingers),
            RawEvent::GestureSwipeBegin { fingers } => Some(fingers),
            RawEvent::GestureSwipeUpdate { fingers, dx, dy } => Some(fingers),
            RawEvent::GestureSwipeEnd { fingers } => Some(fingers),
            RawEvent::GestureOther { fingers } => Some(fingers),
            RawEvent::PointerMotion { dx, dy } => None,
            RawEvent::PointerButton => None,
            RawEvent::PointerScroll => None,
            RawEvent::PointerOther => None,
        }
    }

    /// Whether this is a gesture made with some other number of fingers
    /// than a drag takes.
    pub open spec fn is_foreign_gesture(self) -> bool {
        self.finger_count() matches Some(fingers) && fingers != DRAG_FINGERS
    }
}

/// The decision table of the classifier.
///
/// A gesture with any other number of fingers than three ends the drag at
/// once, whatever kind of gesture it is. Of the three-finger gestures, a
/// hold or swipe that begins starts the drag, one that ends finishes it, and
/// a swipe in progress moves the pointer. Pointer events count only while
/// the button is held (`drag_down`): motion then moves the pointer too, and
/// a click or scroll ends the drag at once. Everything else asks for nothing.
pub open spec fn intent_of(drag_down: bool, event: RawEvent) -> Intent {
    if event.is_foreign_gesture() {
        Intent::AbortDrag
    } else {
        match event {
            RawEvent::GestureHoldBegin { fingers } => Intent::BeginDrag,
            RawEvent::GestureSwipeBegin { fingers } => Intent::BeginDrag,
            RawEvent::GestureHoldEnd { fingers } => Intent::EndDrag,
            RawEvent::GestureSwipeEnd { fingers } => Intent::EndDrag,
            RawEvent::GestureSwipeUpdate { fingers, dx, dy } => Intent::Motion { dx, dy },
            RawEvent::GestureOther { fingers } => Intent::Nothing,
            RawEvent::PointerMotion { dx, dy } => if drag_down {
                Intent::Motion { dx, dy }
            } else {
                Intent::Nothing
            },
            RawEvent::PointerButton => if drag_down {
                Intent::AbortDrag
            } else {
                Intent::Nothing
            },
            RawEvent::PointerScroll => if drag_down {
                Intent::AbortDrag
            } else {
                Intent::Nothing
            },
            RawEvent::PointerOther => Intent::Nothing,
        }
    }
}

/// Reads off what `event` asks for, given whether the button is held.
pub fn classify(drag_down: bool, event: &RawEvent) -> (intent: Intent)
    ensures
        intent == intent_of(drag_down, *event),
{
    match event {
        RawEvent::GestureHoldBegin { fingers } => if *fingers != DRAG_FINGERS {
            Intent::AbortDrag
        } else {
            Intent::BeginDrag
        },
        RawEvent::GestureSwipeBegin { fingers } => if *fingers != DRAG_FINGERS {
            Intent::AbortDrag
        } else {
            Intent::BeginDrag
        },
        RawEvent::GestureHoldEnd { fingers } => if *fingers != DRAG_FINGERS {
            Intent::AbortDrag
        } else {
            Intent::EndDrag
        },
        RawEvent::GestureSwipeEnd { fingers } => if *fingers != DRAG_FINGERS {
            Intent::AbortDrag
        } else {
            Intent::EndDrag
        },
        RawEvent::GestureSwipeUpdate { fingers, dx, dy } => if *fingers != DRAG_FINGERS {
            Intent::AbortDrag
        } else {
            Intent::Motion { dx: *dx, dy: *dy }
        },
        RawEvent::GestureOther { fingers } => if *fingers != DRAG_FINGERS {
            Intent::AbortDrag
        } else {
            Intent::Nothing
        },
        RawEvent::PointerMotion { dx, dy } => if drag_down {
            Intent::Motion { dx: *dx, dy: *dy }
        } else {
            Intent::Nothing
        },
        RawEvent::PointerButton => if drag_down {
            Intent::AbortDrag
        } else {
            Intent::Nothing
        },
        RawEvent::PointerScroll => if drag_down {
            Intent::AbortDrag
        } else {
            Intent::Nothing
        },
        RawEvent::PointerOther => Intent::Nothing,
    }
}

} // verus!
