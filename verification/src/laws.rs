//! What holds of a session whatever it is sent.

use crate::event::{
    click, elapsed_millis, Action, NormalizedPoint, PressState, Target, Timestamp,
};
use crate::fixed::{
    fits_i32, lemma_round_half_away_error, raw_product, rounded_product, Fixed, MICROS_SQUARED,
};
use crate::keys::KeybdKey;
use crate::session::{
    descriptor_actions, magnitude, presses, releases, scroll_ticks, tick_direction, tick_fires,
    MouseUpdate,
};
use crate::token::DescriptorView;
use vstd::prelude::*;

verus! {

/// One pointer update: what it carries, and when it was read.
pub ghost struct Sample {
    pub press_state: Option<PressState>,
    pub location: Option<NormalizedPoint>,
    pub now: Timestamp,
}

/// The sum of the horizontal components of the cursor moves among `actions`.
pub open spec fn total_dx(actions: Seq<Action>) -> int
    decreases actions.len(),
{
    if actions.len() == 0 {
        0
    } else {
        total_dx(actions.drop_last()) + match actions.last() {
            Action::MoveRelative { dx, dy } => dx as int,
            _ => 0,
        }
    }
}

/// The sum of the vertical components of the cursor moves among `actions`.
pub open spec fn total_dy(actions: Seq<Action>) -> int
    decreases actions.len(),
{
    if actions.len() == 0 {
        0
    } else {
        total_dy(actions.drop_last()) + match actions.last() {
            Action::MoveRelative { dx, dy } => dy as int,
            _ => 0,
        }
    }
}

impl MouseUpdate {
    /// The state after the pointer updates `samples`, taken in order.
    pub open spec fn after_samples(self, samples: Seq<Sample>) -> MouseUpdate
        decreases samples.len(),
    {
        if samples.len() == 0 {
            self
        } else {
            let last = samples.last();
            self.after_samples(samples.drop_last()).after_pointer(
                last.press_state,
                last.location,
                last.now,
            )
        }
    }

    /// All the actions that the pointer updates `samples` call for, in order.
    pub open spec fn samples_actions(self, samples: Seq<Sample>) -> Seq<Action>
        decreases samples.len(),
    {
        if samples.len() == 0 {
            Seq::empty()
        } else {
            let last = samples.last();
            self.samples_actions(samples.drop_last()) + self.after_samples(
                samples.drop_last(),
            ).pointer_actions(last.press_state, last.location, last.now)
        }
    }

    /// The anchor that the moves through `samples` are measured from: the
    /// session's own if it has one, else the first location among the samples.
    pub open spec fn first_anchor(self, samples: Seq<Sample>) -> Option<NormalizedPoint>
        decreases samples.len(),
    {
        if samples.len() == 0 {
            self.last_loc
        } else {
            match self.first_anchor(samples.drop_last()) {
                Some(anchor) => Some(anchor),
                None => samples.last().location,
            }
        }
    }

    /// Whether the finger stays down through `samples` and none of its moves
    /// is too long for a cursor move to hold: no sample is a release, and the
    /// travel to each sample's location, measured from the anchor that the
    /// samples before it leave, is not cut short on either axis.
    pub open spec fn is_steady_drag(self, samples: Seq<Sample>) -> bool {
        forall|i: int|
            0 <= i < samples.len() ==> {
                let sample = #[trigger] samples[i];
                let before = self.after_samples(samples.take(i));
                &&& sample.press_state != Some(PressState::Released)
                &&& (sample.location is Some && before.last_loc is Some ==> {
                    let from = before.last_loc->0;
                    let to = sample.location->0;
                    &&& fits_i32(self.prefs.xmult, from.x, to.x)
                    &&& fits_i32(self.prefs.ymult, from.y, to.y)
                })
            }
    }
}

/// The cursor moves of `front` and `back` add up.
pub proof fn lemma_total_of_concat(front: Seq<Action>, back: Seq<Action>)
    ensures
        total_dx(front + back) == total_dx(front) + total_dx(back),
        total_dy(front + back) == total_dy(front) + total_dy(back),
    decreases back.len(),
{
    if back.len() == 0 {
        assert(front + back =~= front);
    } else {
        assert((front + back).drop_last() =~= front + back.drop_last());
        assert((front + back).last() == back.last());
        lemma_total_of_concat(front, back.drop_last());
    }
}

/// While the finger drags the cursor, the cursor follows it: the moves sum
/// up to the finger's whole travel from the first anchor to the last, times
/// the multiplier, but for the rounding of each move, which is half a device
/// unit at most. Before there is an anchor nothing moves.
///
/// The numbers on both sides are in units of `10^-12` device units.
pub proof fn law_moves_follow_the_finger(s: MouseUpdate, samples: Seq<Sample>)
    requires
        !s.scroll_mode,
        s.is_steady_drag(samples),
    ensures
        ({
            let end = s.after_samples(samples);
            let start = s.first_anchor(samples);
            let actions = s.samples_actions(samples);
            let unit = MICROS_SQUARED as int;
            let slack = samples.len() * (unit / 2);
            &&& start is Some <==> end.last_loc is Some
            &&& start is None ==> actions == Seq::<Action>::empty()
            &&& start is Some ==> {
                &&& -slack <= total_dx(actions) * unit - raw_product(
                    s.prefs.xmult,
                    start->0.x,
                    end.last_loc->0.x,
                ) <= slack
                &&& -slack <= total_dy(actions) * unit - raw_product(
                    s.prefs.ymult,
                    start->0.y,
                    end.last_loc->0.y,
                ) <= slack
            }
        }),
    decreases samples.len(),
{
    let unit = MICROS_SQUARED as int;
    if samples.len() == 0 {
        if s.last_loc is Some {
            lemma_travel_adds_up(s.prefs.xmult, s.last_loc->0.x, s.last_loc->0.x, s.last_loc->0.x);
            lemma_travel_adds_up(s.prefs.ymult, s.last_loc->0.y, s.last_loc->0.y, s.last_loc->0.y);
        }
    } else {
        let front = samples.drop_last();
        let sample = samples.last();
        assert(samples.take(samples.len() - 1) =~= front);
        assert(s.is_steady_drag(front)) by {
            assert forall|i: int| 0 <= i < front.len() implies {
                let sample = #[trigger] front[i];
                let before = s.after_samples(front.take(i));
                &&& sample.press_state != Some(PressState::Released)
                &&& (sample.location is Some && before.last_loc is Some ==> {
                    let from = before.last_loc->0;
                    let to = sample.location->0;
                    &&& fits_i32(s.prefs.xmult, from.x, to.x)
                    &&& fits_i32(s.prefs.ymult, from.y, to.y)
                })
            } by {
                assert(front.take(i) =~= samples.take(i));
                assert(front[i] == samples[i]);
            }
        }
        law_moves_follow_the_finger(s, front);
        lemma_prefs_stay(s, front);
        let before = s.after_samples(front);
        let step = before.pointer_actions(sample.press_state, sample.location, sample.now);
        lemma_total_of_concat(s.samples_actions(front), step);
        assert(samples[samples.len() - 1] == sample);
        assert(samples.len() * (unit / 2) == front.len() * (unit / 2) + unit / 2)
            by (nonlinear_arith)
            requires
                samples.len() == front.len() + 1,
        ;
        match (before.last_loc, sample.location) {
            (Some(from), Some(to)) => {
                let start = s.first_anchor(front)->0;
                lemma_round_half_away_error(raw_product(s.prefs.xmult, from.x, to.x), unit);
                lemma_round_half_away_error(raw_product(s.prefs.ymult, from.y, to.y), unit);
                let dx = rounded_product(s.prefs.xmult, from.x, to.x);
                let dy = rounded_product(s.prefs.ymult, from.y, to.y);
                assert(fits_i32(s.prefs.xmult, from.x, to.x));
                assert(fits_i32(s.prefs.ymult, from.y, to.y));
                assert(step =~= seq![Action::MoveRelative { dx: dx as i32, dy: dy as i32 }]);
                assert(step.drop_last() =~= Seq::<Action>::empty());
                assert(step.last() == Action::MoveRelative { dx: dx as i32, dy: dy as i32 });
                assert(total_dx(step.drop_last()) == 0);
                assert(total_dy(step.drop_last()) == 0);
                assert(total_dx(step) == dx);
                assert(total_dy(step) == dy);
                lemma_travel_adds_up(s.prefs.xmult, start.x, from.x, to.x);
                lemma_travel_adds_up(s.prefs.ymult, start.y, from.y, to.y);
                assert((total_dx(s.samples_actions(front)) + dx) * unit == total_dx(
                    s.samples_actions(front),
                ) * unit + dx * unit) by (nonlinear_arith);
                assert((total_dy(s.samples_actions(front)) + dy) * unit == total_dy(
                    s.samples_actions(front),
                ) * unit + dy * unit) by (nonlinear_arith);
            },
            (None, Some(to)) => {
                assert(step =~= Seq::<Action>::empty());
                assert(s.samples_actions(samples) =~= Seq::<Action>::empty());
                lemma_travel_adds_up(s.prefs.xmult, to.x, to.x, to.x);
                lemma_travel_adds_up(s.prefs.ymult, to.y, to.y, to.y);
            },
            (_, None) => {
                assert(step =~= Seq::<Action>::empty());
                assert(s.samples_actions(samples) =~= s.samples_actions(front));
            },
        }
    }
}

/// The travel from `a` to `c` is the travel from `a` to `b` and on to `c`.
proof fn lemma_travel_adds_up(mult: Fixed, a: Fixed, b: Fixed, c: Fixed)
    ensures
        raw_product(mult, a, c) == raw_product(mult, a, b) + raw_product(mult, b, c),
{
    assert(mult.micros * (c.micros - a.micros) == mult.micros * (b.micros - a.micros) + mult.micros
        * (c.micros - b.micros)) by (nonlinear_arith);
}

/// A touch is a tap exactly if it is short. When the finger goes down on an
/// idle session at `down` and comes up at `up`, the release calls for one
/// click if the clock did not go backward and fewer whole milliseconds went by
/// than the preferences allow, and for no click otherwise. What the finger did
/// in between, `held`, makes no difference.
pub proof fn law_short_touch_is_a_tap(
    s: MouseUpdate,
    press_state: Option<PressState>,
    location: Option<NormalizedPoint>,
    down: Timestamp,
    held: Seq<Sample>,
    up: Timestamp,
)
    requires
        s.press_start is None,
        press_state != Some(PressState::Released),
        forall|i: int|
            0 <= i < held.len() ==> (#[trigger] held[i]).press_state != Some(PressState::Released),
    ensures
        ({
            let before = s.after_pointer(press_state, location, down).after_samples(held);
            let actions = before.pointer_actions(Some(PressState::Released), None, up);
            let short = up.nanos >= down.nanos && (up.nanos - down.nanos) / 1_000_000
                < s.prefs.max_tap_duration;
            &&& before.press_start == Some(down)
            &&& short ==> actions == click()
            &&& !short ==> actions == Seq::<Action>::empty()
        }),
{
    let touched = s.after_pointer(press_state, location, down);
    law_timer_keeps_running(touched, held);
    lemma_prefs_stay(touched, held);
    let before = touched.after_samples(held);
    assert(before.motion(None) =~= Seq::<Action>::empty());
    assert(Seq::<Action>::empty() + click() =~= click());
}

/// Pointer updates leave the preferences as they are.
pub proof fn lemma_prefs_stay(s: MouseUpdate, samples: Seq<Sample>)
    ensures
        s.after_samples(samples).prefs == s.prefs,
        s.after_samples(samples).scroll_mode == s.scroll_mode,
    decreases samples.len(),
{
    if samples.len() > 0 {
        lemma_prefs_stay(s, samples.drop_last());
    }
}

/// The tap timer runs from the first sample of a touch: samples that follow
/// while the finger is down do not restart it, whatever they carry.
pub proof fn law_timer_keeps_running(s: MouseUpdate, samples: Seq<Sample>)
    requires
        s.press_start is Some,
        forall|i: int|
            0 <= i < samples.len() ==> (#[trigger] samples[i]).press_state != Some(
                PressState::Released,
            ),
    ensures
        s.after_samples(samples).press_start == s.press_start,
    decreases samples.len(),
{
    if samples.len() > 0 {
        law_timer_keeps_running(s, samples.drop_last());
    }
}

/// The first location of a touch is its anchor: a session without an anchor
/// answers a sample with no motion, and is anchored at the sample's location
/// afterwards.
pub proof fn law_first_location_is_the_anchor(
    s: MouseUpdate,
    press_state: Option<PressState>,
    location: Option<NormalizedPoint>,
    now: Timestamp,
)
    requires
        s.last_loc is None,
    ensures
        s.motion(location) == Seq::<Action>::empty(),
        press_state != Some(PressState::Released) ==> s.after_pointer(
            press_state,
            location,
            now,
        ).last_loc == location,
{
    assert(s.motion(location) =~= Seq::<Action>::empty());
}

/// A release ends the gesture: it clears the anchor and the timer, so that
/// the next update of the pointer, whatever it is, calls for no action, and a
/// touch that begins with it is anchored at its own location.
pub proof fn law_release_ends_the_gesture(
    s: MouseUpdate,
    location: Option<NormalizedPoint>,
    now: Timestamp,
    next_press: Option<PressState>,
    next_location: Option<NormalizedPoint>,
    next_now: Timestamp,
)
    ensures
        ({
            let idle = s.after_pointer(Some(PressState::Released), location, now);
            &&& idle.last_loc is None
            &&& idle.press_start is None
            &&& idle.pointer_actions(next_press, next_location, next_now) == Seq::<Action>::empty()
            &&& next_press != Some(PressState::Released) ==> idle.after_pointer(
                next_press,
                next_location,
                next_now,
            ).last_loc == next_location
        }),
{
    let idle = s.after_pointer(Some(PressState::Released), location, now);
    assert(idle.motion(next_location) =~= Seq::<Action>::empty());
}

/// A key chord goes down in its order and comes up in the reverse order.
pub proof fn law_chord_order(keys: Seq<KeybdKey>, a: KeybdKey, b: KeybdKey, c: KeybdKey)
    ensures
        descriptor_actions(Some(DescriptorView::KeyChord(keys)), Some(PressState::Pressed))
            == presses(keys),
        descriptor_actions(Some(DescriptorView::KeyChord(keys)), Some(PressState::Released))
            == releases(keys),
        presses(keys).len() == keys.len(),
        releases(keys).len() == keys.len(),
        forall|i: int|
            0 <= i < keys.len() ==> #[trigger] presses(keys)[i] == Action::Press(
                Target::Key(keys[i]),
            ),
        forall|i: int|
            0 <= i < keys.len() ==> #[trigger] releases(keys)[i] == Action::Release(
                Target::Key(keys.reverse()[i]),
            ),
        presses(seq![a, b, c]) + releases(seq![a, b, c]) == seq![
            Action::Press(Target::Key(a)),
            Action::Press(Target::Key(b)),
            Action::Press(Target::Key(c)),
            Action::Release(Target::Key(c)),
            Action::Release(Target::Key(b)),
            Action::Release(Target::Key(a)),
        ],
{
    assert(presses(seq![a, b, c]) + releases(seq![a, b, c]) =~= seq![
        Action::Press(Target::Key(a)),
        Action::Press(Target::Key(b)),
        Action::Press(Target::Key(c)),
        Action::Release(Target::Key(c)),
        Action::Release(Target::Key(b)),
        Action::Release(Target::Key(a)),
    ]);
}

/// The scroll threshold is exclusive: in scroll mode a travel whose magnitude
/// is the threshold turns nothing and leaves the anchor where it was, and a
/// travel one unit longer turns the wheel one tick in its direction and takes
/// the anchor along on that axis.
pub proof fn law_scroll_threshold_is_exclusive(
    s: MouseUpdate,
    from: NormalizedPoint,
    to: NormalizedPoint,
)
    requires
        s.scroll_mode,
        s.last_loc == Some(from),
    ensures
        ({
            let threshold = s.prefs.scroll_threshold as int;
            let dx = s.travel_x(from, to);
            let dy = s.travel_y(from, to);
            &&& magnitude(dx) == threshold && magnitude(dy) == threshold ==> {
                &&& s.motion(Some(to)) == Seq::<Action>::empty()
                &&& s.anchor_after(Some(to)) == Some(from)
            }
            &&& magnitude(dx) == threshold + 1 && magnitude(dy) == threshold ==> {
                &&& s.motion(Some(to)) == seq![Action::Scroll { dx: tick_direction(dx), dy: 0 }]
                &&& s.anchor_after(Some(to)) == Some(NormalizedPoint { x: to.x, y: from.y })
            }
            &&& magnitude(dx) == threshold && magnitude(dy) == threshold + 1 ==> {
                &&& s.motion(Some(to)) == seq![Action::Scroll { dx: 0, dy: tick_direction(dy) }]
                &&& s.anchor_after(Some(to)) == Some(NormalizedPoint { x: from.x, y: to.y })
            }
        }),
{
    let threshold = s.prefs.scroll_threshold as int;
    let dx = s.travel_x(from, to);
    let dy = s.travel_y(from, to);
    let ticks = scroll_ticks(dx, dy, threshold);
    if magnitude(dx) == threshold && magnitude(dy) == threshold {
        assert(ticks =~= Seq::<Action>::empty());
    }
    if magnitude(dx) == threshold + 1 && magnitude(dy) == threshold {
        assert(ticks =~= seq![Action::Scroll { dx: tick_direction(dx), dy: 0 }]);
    }
    if magnitude(dx) == threshold && magnitude(dy) == threshold + 1 {
        assert(ticks =~= seq![Action::Scroll { dx: 0, dy: tick_direction(dy) }]);
    }
}

} // verus!
