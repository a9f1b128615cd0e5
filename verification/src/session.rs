//! The state of one remote session and its answer to each update.

use crate::event::{
    click, elapsed_millis, Action, Diagnostic, NormalizedPoint, Outcome, PressState, Target,
    Timestamp, UpdateEvent,
};
use crate::fixed::{scale_delta, scaled_delta};
use crate::keys::{KeybdKey, MouseButton};
use crate::outside::{control_name, since_epoch, system_now};
use crate::settings::Prefs;
use crate::token::{decode_name, decode_text, ActionDescriptor, DescriptorView};
use touchpage::control_nexus::ControlNexus;
use vstd::prelude::*;

verus! {

/// The state of one remote session.
#[derive(Clone, Copy, Debug, PartialEq, Eq, Structural)]
pub struct MouseUpdate {
    /// The point that the next sample is measured from. `None` between touches.
    pub last_loc: Option<NormalizedPoint>,
    /// When the finger went down. `None` while it is up.
    pub press_start: Option<Timestamp>,
    /// Whether finger travel turns the wheel instead of moving the cursor.
    pub scroll_mode: bool,
    pub prefs: Prefs,
}

/// The magnitude of `v`.
pub open spec fn magnitude(v: int) -> int {
    if v < 0 {
        -v
    } else {
        v
    }
}

/// Whether a scaled travel of `delta` turns the wheel: its magnitude must
/// exceed the threshold.
pub open spec fn tick_fires(delta: int, threshold: int) -> bool {
    magnitude(delta) > threshold
}

/// The direction of the tick that a scaled travel of `delta` causes.
pub open spec fn tick_direction(delta: int) -> i32 {
    if delta < 0 {
        -1i32
    } else {
        1i32
    }
}

/// The wheel ticks for a scaled travel of `(dx, dy)`: the horizontal one
/// first. Each axis is judged on its own.
pub open spec fn scroll_ticks(dx: int, dy: int, threshold: int) -> Seq<Action> {
    let across = if tick_fires(dx, threshold) {
        seq![Action::Scroll { dx: tick_direction(dx), dy: 0 }]
    } else {
        Seq::empty()
    };
    let along = if tick_fires(dy, threshold) {
        seq![Action::Scroll { dx: 0, dy: tick_direction(dy) }]
    } else {
        Seq::empty()
    };
    across + along
}

/// A press of each key, first to last.
pub open spec fn presses(keys: Seq<KeybdKey>) -> Seq<Action> {
    Seq::new(keys.len(), |i: int| Action::Press(Target::Key(keys[i])))
}

/// A release of each key, last to first.
pub open spec fn releases(keys: Seq<KeybdKey>) -> Seq<Action> {
    Seq::new(keys.len(), |i: int| Action::Release(Target::Key(keys[keys.len() - 1 - i])))
}

/// The actions that a press or release of a button calls for, given what the
/// button stands for. A mouse button is pressed or released. A key chord is
/// pressed key by key in its order, and released in the reverse order. The
/// scroll switch calls for no action, nor does an update without a press
/// state, nor a button that stands for nothing.
pub open spec fn descriptor_actions(
    descriptor: Option<DescriptorView>,
    press_state: Option<PressState>,
) -> Seq<Action> {
    match (descriptor, press_state) {
        (Some(DescriptorView::PointerMouseButton(b)), Some(PressState::Pressed)) => seq![
            Action::Press(Target::Button(b)),
        ],
        (Some(DescriptorView::PointerMouseButton(b)), Some(PressState::Released)) => seq![
            Action::Release(Target::Button(b)),
        ],
        (Some(DescriptorView::KeyChord(keys)), Some(PressState::Pressed)) => presses(keys),
        (Some(DescriptorView::KeyChord(keys)), Some(PressState::Released)) => releases(keys),
        _ => Seq::empty(),
    }
}

/// What a button update reports: that its button stands for nothing.
pub open spec fn descriptor_diagnostic(descriptor: Option<DescriptorView>) -> Option<Diagnostic> {
    if descriptor is None {
        Some(Diagnostic::UndecodableName)
    } else {
        None
    }
}

/// The characters of an optional name.
pub open spec fn name_view(name: Option<&str>) -> Option<Seq<char>> {
    match name {
        Some(n) => Some(n@),
        None => None,
    }
}

/// The answer to one update, and the state it leaves.
pub ghost struct Step {
    pub state: MouseUpdate,
    pub actions: Seq<Action>,
    pub diagnostic: Option<Diagnostic>,
}

impl MouseUpdate {
    /// The horizontal travel from `from` to `to` in device units.
    pub open spec fn travel_x(self, from: NormalizedPoint, to: NormalizedPoint) -> int {
        scaled_delta(self.prefs.xmult, from.x, to.x)
    }

    /// The vertical travel from `from` to `to` in device units.
    pub open spec fn travel_y(self, from: NormalizedPoint, to: NormalizedPoint) -> int {
        scaled_delta(self.prefs.ymult, from.y, to.y)
    }

    /// The motion that a sample at `location` causes: none without a location
    /// or without an anchor, wheel ticks in scroll mode, else one cursor move.
    pub open spec fn motion(self, location: Option<NormalizedPoint>) -> Seq<Action> {
        match (self.last_loc, location) {
            (Some(prev), Some(p)) => {
                let dx = self.travel_x(prev, p);
                let dy = self.travel_y(prev, p);
                if self.scroll_mode {
                    scroll_ticks(dx, dy, self.prefs.scroll_threshold as int)
                } else {
                    seq![Action::MoveRelative { dx: dx as i32, dy: dy as i32 }]
                }
            },
            _ => Seq::empty(),
        }
    }

    /// The anchor after a sample at `location`. The first sample of a touch
    /// becomes the anchor. A cursor move takes the anchor along. In scroll
    /// mode each coordinate of the anchor follows only when its axis ticked.
    pub open spec fn anchor_after(self, location: Option<NormalizedPoint>) -> Option<
        NormalizedPoint,
    > {
        match (self.last_loc, location) {
            (_, None) => self.last_loc,
            (None, Some(p)) => Some(p),
            (Some(prev), Some(p)) => if self.scroll_mode {
                let threshold = self.prefs.scroll_threshold as int;
                Some(
                    NormalizedPoint {
                        x: if tick_fires(self.travel_x(prev, p), threshold) {
                            p.x
                        } else {
                            prev.x
                        },
                        y: if tick_fires(self.travel_y(prev, p), threshold) {
                            p.y
                        } else {
                            prev.y
                        },
                    },
                )
            } else {
                Some(p)
            },
        }
    }

    /// Whether a release at `now` ends a tap: a touch is being timed, the clock
    /// did not go backward, and fewer milliseconds than the preferences allow
    /// went by.
    pub open spec fn is_tap(self, now: Timestamp) -> bool {
        match self.press_start {
            Some(start) => match elapsed_millis(start, now) {
                Some(ms) => ms < self.prefs.max_tap_duration,
                None => false,
            },
            None => false,
        }
    }

    /// The state after a pointer update.
    pub open spec fn after_pointer(
        self,
        press_state: Option<PressState>,
        location: Option<NormalizedPoint>,
        now: Timestamp,
    ) -> MouseUpdate {
        if press_state == Some(PressState::Released) {
            MouseUpdate { last_loc: None, press_start: None, ..self }
        } else {
            MouseUpdate {
                last_loc: self.anchor_after(location),
                press_start: if self.press_start is None {
                    Some(now)
                } else {
                    self.press_start
                },
                ..self
            }
        }
    }

    /// The actions that a pointer update calls for: its motion, then a click
    /// if it ends a tap.
    pub open spec fn pointer_actions(
        self,
        press_state: Option<PressState>,
        location: Option<NormalizedPoint>,
        now: Timestamp,
    ) -> Seq<Action> {
        if press_state == Some(PressState::Released) && self.is_tap(now) {
            self.motion(location) + click()
        } else {
            self.motion(location)
        }
    }

    /// What a pointer update reports: nothing unless it ends a timed touch.
    pub open spec fn pointer_diagnostic(
        self,
        press_state: Option<PressState>,
        now: Timestamp,
    ) -> Option<Diagnostic> {
        if press_state == Some(PressState::Released) && self.press_start is Some {
            match elapsed_millis(self.press_start->0, now) {
                Some(ms) => if self.prefs.show_press_duration {
                    Some(Diagnostic::PressDuration(ms as u128))
                } else {
                    None
                },
                None => Some(Diagnostic::ClockWentBackward),
            }
        } else {
            None
        }
    }

    /// The step that a pointer update makes.
    pub open spec fn pointer_step(
        self,
        press_state: Option<PressState>,
        location: Option<NormalizedPoint>,
        now: Timestamp,
    ) -> Step {
        Step {
            state: self.after_pointer(press_state, location, now),
            actions: self.pointer_actions(press_state, location, now),
            diagnostic: self.pointer_diagnostic(press_state, now),
        }
    }

    /// The state after a press or release of a button, given what the button
    /// stands for. Only the scroll switch changes the state: pressed, it
    /// turns scroll mode on and stops the tap timer; released, it turns
    /// scroll mode off.
    pub open spec fn after_descriptor(
        self,
        descriptor: Option<DescriptorView>,
        press_state: Option<PressState>,
    ) -> MouseUpdate {
        match (descriptor, press_state) {
            (Some(DescriptorView::ScrollModeToggle), Some(PressState::Pressed)) => MouseUpdate {
                scroll_mode: true,
                press_start: None,
                ..self
            },
            (Some(DescriptorView::ScrollModeToggle), Some(PressState::Released)) => MouseUpdate {
                scroll_mode: false,
                ..self
            },
            _ => self,
        }
    }

    /// The step that a button update makes, given what its button stands for.
    pub open spec fn descriptor_step(
        self,
        descriptor: Option<DescriptorView>,
        press_state: Option<PressState>,
    ) -> Step {
        Step {
            state: self.after_descriptor(descriptor, press_state),
            actions: descriptor_actions(descriptor, press_state),
            diagnostic: descriptor_diagnostic(descriptor),
        }
    }

    /// The step that a button update makes, given the name of its control. An
    /// update of a control without a name is dropped.
    pub open spec fn button_step(
        self,
        name: Option<Seq<char>>,
        press_state: Option<PressState>,
    ) -> Step {
        match name {
            Some(n) => self.descriptor_step(decode_text(n), press_state),
            None => Step {
                state: self,
                actions: Seq::empty(),
                diagnostic: Some(Diagnostic::UnknownControl),
            },
        }
    }

    /// The step that an update makes, given the name of its control and the
    /// time. A pointer update does not look at the name, nor a button update
    /// at the time.
    pub open spec fn step(
        self,
        update: UpdateEvent,
        name: Option<Seq<char>>,
        now: Timestamp,
    ) -> Step {
        match update {
            UpdateEvent::PointerUpdate { control_id, press_state, location } => self.pointer_step(
                press_state,
                location,
                now,
            ),
            UpdateEvent::ButtonUpdate { control_id, press_state } => self.button_step(
                name,
                press_state,
            ),
        }
    }

    /// Whether `out` and the state `after` are what `step` says.
    pub open spec fn made(step: Step, after: MouseUpdate, out: Outcome) -> bool {
        &&& after == step.state
        &&& out.actions@ == step.actions
        &&& out.diagnostic == step.diagnostic
    }

    /// A session that has seen no update yet.
    pub fn new(prefs: Prefs) -> (r: MouseUpdate)
        ensures
            r == (MouseUpdate { last_loc: None, press_start: None, scroll_mode: false, prefs }),
    {
        MouseUpdate { last_loc: None, press_start: None, scroll_mode: false, prefs }
    }

    /// Handles a sample from a trackpad-style control, read at `now`.
    ///
    /// A sample with a location is measured against the anchor and moves the
    /// cursor or, in scroll mode, turns the wheel. A sample that is no release
    /// starts the tap timer unless it runs. A release ends the touch: the
    /// anchor and the timer are cleared, and a touch short enough is a click.
    pub fn pointer_update(
        &mut self,
        press_state: Option<PressState>,
        location: Option<NormalizedPoint>,
        now: Timestamp,
    ) -> (out: Outcome)
        ensures
            Self::made(old(self).pointer_step(press_state, location, now), *final(self), out),
    {
        let mut actions: Vec<Action> = Vec::new();
        let mut diagnostic: Option<Diagnostic> = None;
        if let Some(p) = location {
            match self.last_loc {
                Some(prev) => {
                    let dx: i32 = scale_delta(self.prefs.xmult, prev.x, p.x);
                    let dy: i32 = scale_delta(self.prefs.ymult, prev.y, p.y);
                    if self.scroll_mode {
                        let mut anchor: NormalizedPoint = prev;
                        if exceeds(dx, self.prefs.scroll_threshold) {
                            actions.push(Action::Scroll { dx: direction(dx), dy: 0 });
                            anchor.x = p.x;
                        }
                        if exceeds(dy, self.prefs.scroll_threshold) {
                            actions.push(Action::Scroll { dx: 0, dy: direction(dy) });
                            anchor.y = p.y;
                        }
                        self.last_loc = Some(anchor);
                    } else {
                        actions.push(Action::MoveRelative { dx, dy });
                        self.last_loc = Some(p);
                    }
                },
                None => {
                    self.last_loc = Some(p);
                },
            }
        }
        assert(actions@ =~= old(self).motion(location));
        assert(self.last_loc == old(self).anchor_after(location));
        match press_state {
            Some(PressState::Released) => {
                self.last_loc = None;
                if let Some(start) = self.press_start {
                    match now.millis_since(start) {
                        Some(ms) => {
                            if self.prefs.show_press_duration {
                                diagnostic = Some(Diagnostic::PressDuration(ms));
                            }
                            if ms < self.prefs.max_tap_duration as u128 {
                                actions.push(
                                    Action::Press(Target::Button(MouseButton::LeftButton)),
                                );
                                actions.push(
                                    Action::Release(Target::Button(MouseButton::LeftButton)),
                                );
                            }
                        },
                        None => {
                            diagnostic = Some(Diagnostic::ClockWentBackward);
                        },
                    }
                }
                self.press_start = None;
            },
            _ => {
                if self.press_start.is_none() {
                    self.press_start = Some(now);
                }
            },
        }
        assert(actions@ =~= old(self).pointer_actions(press_state, location, now));
        Outcome { actions, diagnostic }
    }

    /// Handles a press or release of a button, given what the button stands
    /// for.
    pub fn apply(
        &mut self,
        descriptor: Option<&ActionDescriptor>,
        press_state: Option<PressState>,
    ) -> (out: Outcome)
        ensures
            Self::made(
                old(self).descriptor_step(
                    match descriptor {
                        Some(d) => Some(d@),
                        None => None,
                    },
                    press_state,
                ),
                *final(self),
                out,
            ),
    {
        let mut actions: Vec<Action> = Vec::new();
        let pressed: bool = match press_state {
            Some(PressState::Pressed) => true,
            Some(PressState::Released) => false,
            None => {
                return Outcome {
                    actions,
                    diagnostic: if descriptor.is_none() {
                        Some(Diagnostic::UndecodableName)
                    } else {
                        None
                    },
                };
            },
        };
        match descriptor {
            None => {
                return Outcome { actions, diagnostic: Some(Diagnostic::UndecodableName) };
            },
            Some(ActionDescriptor::PointerMouseButton(b)) => {
                if pressed {
                    actions.push(Action::Press(Target::Button(*b)));
                } else {
                    actions.push(Action::Release(Target::Button(*b)));
                }
                assert(actions@ =~= descriptor_actions(Some(descriptor->0@), press_state));
            },
            Some(ActionDescriptor::ScrollModeToggle) => {
                if pressed {
                    self.scroll_mode = true;
                    self.press_start = None;
                } else {
                    self.scroll_mode = false;
                }
            },
            Some(ActionDescriptor::KeyChord(keys)) => {
                if pressed {
                    let mut i: usize = 0;
                    while i < keys.len()
                        invariant
                            i <= keys@.len(),
                            actions@ =~= presses(keys@).subrange(0, i as int),
                        decreases keys@.len() - i,
                    {
                        actions.push(Action::Press(Target::Key(keys[i])));
                        i += 1;
                    }
                    assert(actions@ =~= presses(keys@));
                } else {
                    let mut i: usize = keys.len();
                    while i > 0
                        invariant
                            i <= keys@.len(),
                            actions@ =~= releases(keys@).subrange(0, keys@.len() - i),
                        decreases i,
                    {
                        i -= 1;
                        actions.push(Action::Release(Target::Key(keys[i])));
                    }
                    assert(actions@ =~= releases(keys@));
                }
            },
        }
        Outcome { actions, diagnostic: None }
    }

    /// Handles a press or release of a button, given the name of its control
    /// if it has one. A control without a name is dropped; so is a name that
    /// stands for nothing.
    pub fn button_update(&mut self, name: Option<&str>, press_state: Option<PressState>) -> (out:
        Outcome)
        ensures
            Self::made(old(self).button_step(name_view(name), press_state), *final(self), out),
    {
        match name {
            Some(n) => {
                let descriptor = decode_name(n);
                self.apply(descriptor.as_ref(), press_state)
            },
            None => Outcome { actions: Vec::new(), diagnostic: Some(Diagnostic::UnknownControl) },
        }
    }

    /// Handles one update, given the name of its control, if it has one, and
    /// the time.
    pub fn dispatch(&mut self, update: &UpdateEvent, name: Option<&str>, now: Timestamp) -> (out:
        Outcome)
        ensures
            Self::made(old(self).step(*update, name_view(name), now), *final(self), out),
    {
        match update {
            UpdateEvent::PointerUpdate { control_id, press_state, location } => self.pointer_update(
                *press_state,
                *location,
                now,
            ),
            UpdateEvent::ButtonUpdate { control_id, press_state } => self.button_update(
                name,
                *press_state,
            ),
        }
    }

    /// Handles one update as it arrives: reads the clock for a pointer update,
    /// asks the nexus for the control's name for a button update, and answers
    /// as [`MouseUpdate::dispatch`] does for what came back.
    pub fn on_update_received(&mut self, update: &UpdateEvent, nexus: &ControlNexus) -> (out:
        Outcome)
        ensures
            exists|name: Option<Seq<char>>, now: Timestamp|
                Self::made(#[trigger] old(self).step(*update, name, now), *final(self), out),
    {
        match update {
            UpdateEvent::PointerUpdate { control_id, press_state, location } => {
                let now = Timestamp::or_epoch(since_epoch(&system_now()));
                let out = self.pointer_update(*press_state, *location, now);
                assert(Self::made(old(self).step(*update, None, now), *self, out));
                out
            },
            UpdateEvent::ButtonUpdate { control_id, press_state } => {
                let name = control_name(nexus, control_id);
                let out = match &name {
                    Some(n) => self.button_update(Some(n.as_str()), *press_state),
                    None => self.button_update(None, *press_state),
                };
                let ghost chars = match name {
                    Some(n) => Some(n@),
                    None => None,
                };
                assert(Self::made(
                    old(self).step(*update, chars, Timestamp { nanos: 0 }),
                    *self,
                    out,
                ));
                out
            },
        }
    }
}

/// Computes [`tick_fires`].
fn exceeds(delta: i32, threshold: i32) -> (r: bool)
    ensures
        r == tick_fires(delta as int, threshold as int),
{
    let wide: i64 = delta as i64;
    let size: i64 = if wide < 0 {
        -wide
    } else {
        wide
    };
    size > threshold as i64
}

/// Computes [`tick_direction`].
fn direction(delta: i32) -> (r: i32)
    ensures
        r == tick_direction(delta as int),
{
    if delta < 0 {
        -1
    } else {
        1
    }
}

} // verus!
