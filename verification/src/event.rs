//! What a session receives and what it answers with.

use crate::fixed::Fixed;
use crate::keys::{KeybdKey, MouseButton};
use vstd::prelude::*;

verus! {

/// How many nanoseconds make a millisecond.
pub const NANOS_PER_MILLI: u128 = 1_000_000;

/// Whether the finger went down or came up.
#[derive(Clone, Copy, Debug, PartialEq, Eq, Structural)]
pub enum PressState {
    Pressed,
    Released,
}

/// A finger position on the remote surface. Each coordinate is a fraction of
/// the surface's extent, from 0 to 1 on a well-behaved surface.
#[derive(Clone, Copy, Debug, PartialEq, Eq, Structural)]
pub struct NormalizedPoint {
    pub x: Fixed,
    pub y: Fixed,
}

/// A reading of the wall clock, in nanoseconds since the clock's epoch.
#[derive(Clone, Copy, Debug, PartialEq, Eq, Structural)]
pub struct Timestamp {
    pub nanos: u128,
}

/// One update from the remote surface.
#[derive(Clone, Debug, PartialEq, Eq)]
pub enum UpdateEvent {
    /// A sample from a trackpad-style control.
    PointerUpdate {
        control_id: Vec<i32>,
        press_state: Option<PressState>,
        location: Option<NormalizedPoint>,
    },
    /// A press or release of a push button.
    ButtonUpdate { control_id: Vec<i32>, press_state: Option<PressState> },
}

/// What a press or a release acts on.
#[derive(Clone, Copy, Debug, PartialEq, Eq, Structural)]
pub enum Target {
    Button(MouseButton),
    Key(KeybdKey),
}

/// One synthetic input action for the host to perform.
#[derive(Clone, Copy, Debug, PartialEq, Eq, Structural)]
pub enum Action {
    Press(Target),
    Release(Target),
    /// Move the cursor by `(dx, dy)` device units.
    MoveRelative { dx: i32, dy: i32 },
    /// Turn the wheel by `(dx, dy)` ticks.
    Scroll { dx: i32, dy: i32 },
}

/// Something worth a log line that happened while an update was handled. None
/// of these changes what the session does.
#[derive(Clone, Copy, Debug, PartialEq, Eq, Structural)]
pub enum Diagnostic {
    /// A touch ended after this many milliseconds.
    PressDuration(u128),
    /// A touch ended at a clock reading earlier than the one it began at.
    ClockWentBackward,
    /// The control of a button update has no name.
    UnknownControl,
    /// The name of a button's control spells no action.
    UndecodableName,
}

/// The answer to one update: the actions to perform, in order, and at most one
/// diagnostic.
#[derive(Clone, Debug, PartialEq, Eq)]
pub struct Outcome {
    pub actions: Vec<Action>,
    pub diagnostic: Option<Diagnostic>,
}

/// The whole milliseconds from `start` to `now`, or `None` if `now` is the
/// earlier reading.
pub open spec fn elapsed_millis(start: Timestamp, now: Timestamp) -> Option<int> {
    if now.nanos >= start.nanos {
        Some((now.nanos - start.nanos) / (NANOS_PER_MILLI as int))
    } else {
        None
    }
}

/// A press of the primary button at once followed by its release.
pub open spec fn click() -> Seq<Action> {
    seq![
        Action::Press(Target::Button(MouseButton::LeftButton)),
        Action::Release(Target::Button(MouseButton::LeftButton)),
    ]
}

/// The wheel button that stands for a turn of the wheel by `(dx, dy)` where
/// the host has no wheel of its own to turn: button 4 for up, 5 for down, 6
/// for left and 7 for right, and none for a turn along both axes or along
/// neither.
pub open spec fn wheel_button_of(dx: int, dy: int) -> Option<MouseButton> {
    if dy == 0 && dx < 0 {
        Some(MouseButton::OtherButton(6))
    } else if dy == 0 && dx > 0 {
        Some(MouseButton::OtherButton(7))
    } else if dx == 0 && dy < 0 {
        Some(MouseButton::OtherButton(4))
    } else if dx == 0 && dy > 0 {
        Some(MouseButton::OtherButton(5))
    } else {
        None
    }
}

impl Action {
    /// The wheel button to click for this action, if it is a turn of the
    /// wheel along one axis.
    pub fn wheel_button(&self) -> (r: Option<MouseButton>)
        ensures
            r == match *self {
                Action::Scroll { dx, dy } => wheel_button_of(dx as int, dy as int),
                _ => None,
            },
    {
        match self {
            Action::Scroll { dx, dy } => {
                if *dy == 0 && *dx < 0 {
                    Some(MouseButton::OtherButton(6))
                } else if *dy == 0 && *dx > 0 {
                    Some(MouseButton::OtherButton(7))
                } else if *dx == 0 && *dy < 0 {
                    Some(MouseButton::OtherButton(4))
                } else if *dx == 0 && *dy > 0 {
                    Some(MouseButton::OtherButton(5))
                } else {
                    None
                }
            },
            _ => None,
        }
    }
}

impl Timestamp {
    /// The reading `millis` milliseconds after the epoch.
    pub fn from_millis(millis: u64) -> (r: Timestamp)
        ensures
            r.nanos == millis * NANOS_PER_MILLI,
    {
        Timestamp { nanos: (millis as u128) * NANOS_PER_MILLI }
    }

    /// A reading of a clock that may stand before its epoch: such a clock
    /// reads as the epoch itself.
    pub fn or_epoch(reading: Option<Timestamp>) -> (r: Timestamp)
        ensures
            r == match reading {
                Some(t) => t,
                None => Timestamp { nanos: 0 },
            },
    {
        match reading {
            Some(t) => t,
            None => Timestamp { nanos: 0 },
        }
    }

    /// Computes [`elapsed_millis`] from `start` to `self`.
    pub fn millis_since(&self, start: Timestamp) -> (r: Option<u128>)
        ensures
            r is Some == elapsed_millis(start, *self) is Some,
            r is Some ==> r->0 == elapsed_millis(start, *self)->0,
    {
        if self.nanos >= start.nanos {
            Some((self.nanos - start.nanos) / NANOS_PER_MILLI)
        } else {
            None
        }
    }
}

} // verus!
