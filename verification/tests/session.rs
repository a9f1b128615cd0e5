use mousepage::event::{
    Action, Diagnostic, NormalizedPoint, Outcome, PressState, Target, Timestamp, UpdateEvent,
};
use mousepage::fixed::Fixed;
use mousepage::keys::{KeybdKey, MouseButton};
use mousepage::session::MouseUpdate;
use mousepage::settings::Prefs;
use mousepage::token::ActionDescriptor;

fn prefs() -> Prefs {
    Prefs {
        xmult: Fixed::from_int(1000),
        ymult: Fixed::from_int(1000),
        max_tap_duration: 100,
        show_press_duration: false,
        scroll_threshold: 10,
        html_port: 8000,
        websocket_port: 9000,
    }
}

fn pt(x: i64, y: i64) -> NormalizedPoint {
    NormalizedPoint { x: Fixed { micros: x }, y: Fixed { micros: y } }
}

fn ms(millis: u64) -> Timestamp {
    Timestamp::from_millis(millis)
}

fn click() -> Vec<Action> {
    vec![
        Action::Press(Target::Button(MouseButton::LeftButton)),
        Action::Release(Target::Button(MouseButton::LeftButton)),
    ]
}

fn scrolling(anchor: NormalizedPoint) -> MouseUpdate {
    MouseUpdate { last_loc: Some(anchor), press_start: Some(ms(0)), scroll_mode: true, prefs: prefs() }
}

#[test]
fn a_new_session_is_idle() {
    let s = MouseUpdate::new(prefs());
    assert_eq!(s.last_loc, None);
    assert_eq!(s.press_start, None);
    assert!(!s.scroll_mode);
    assert_eq!(s.prefs, prefs());
}

#[test]
fn press_then_located_sample_then_release_within_the_tap_time() {
    let mut s = MouseUpdate::new(prefs());
    let down = s.pointer_update(Some(PressState::Pressed), None, ms(0));
    assert_eq!(down.actions, vec![]);
    assert_eq!(s.press_start, Some(ms(0)));
    // The first location of a touch only sets the anchor.
    let sample = s.pointer_update(None, Some(pt(10_000, 0)), ms(50));
    assert_eq!(sample.actions, vec![]);
    assert_eq!(s.last_loc, Some(pt(10_000, 0)));
    let up = s.pointer_update(Some(PressState::Released), None, ms(80));
    assert_eq!(up.actions, click());
    assert_eq!(s.last_loc, None);
    assert_eq!(s.press_start, None);
}

#[test]
fn a_short_drag_moves_the_cursor_and_still_clicks() {
    let mut s = MouseUpdate::new(prefs());
    let down = s.pointer_update(Some(PressState::Pressed), Some(pt(0, 0)), ms(0));
    assert_eq!(down.actions, vec![]);
    let sample = s.pointer_update(None, Some(pt(10_000, 0)), ms(50));
    assert_eq!(sample.actions, vec![Action::MoveRelative { dx: 10, dy: 0 }]);
    let up = s.pointer_update(Some(PressState::Released), None, ms(80));
    assert_eq!(up.actions, click());
}

#[test]
fn a_touch_one_millisecond_short_of_the_limit_is_a_tap() {
    let mut s = MouseUpdate::new(prefs());
    s.pointer_update(Some(PressState::Pressed), None, ms(1000));
    let up = s.pointer_update(Some(PressState::Released), None, ms(1099));
    assert_eq!(up.actions, click());
}

#[test]
fn a_touch_as_long_as_the_limit_is_no_tap() {
    let mut s = MouseUpdate::new(prefs());
    s.pointer_update(Some(PressState::Pressed), None, ms(1000));
    let up = s.pointer_update(Some(PressState::Released), None, ms(1100));
    assert_eq!(up.actions, vec![]);
    assert_eq!(s.press_start, None);
}

#[test]
fn the_length_of_a_touch_is_counted_in_whole_milliseconds() {
    let mut s = MouseUpdate::new(prefs());
    s.pointer_update(Some(PressState::Pressed), None, Timestamp { nanos: 1 });
    let up = s.pointer_update(Some(PressState::Released), None, Timestamp { nanos: 100_000_000 });
    assert_eq!(up.actions, click());
    let mut s = MouseUpdate::new(prefs());
    s.pointer_update(Some(PressState::Pressed), None, Timestamp { nanos: 1 });
    let up = s.pointer_update(Some(PressState::Released), None, Timestamp { nanos: 100_000_001 });
    assert_eq!(up.actions, vec![]);
}

#[test]
fn a_clock_that_went_backward_gives_no_click() {
    let mut s = MouseUpdate::new(prefs());
    s.pointer_update(Some(PressState::Pressed), None, ms(500));
    let up = s.pointer_update(Some(PressState::Released), None, ms(499));
    assert_eq!(up.actions, vec![]);
    assert_eq!(up.diagnostic, Some(Diagnostic::ClockWentBackward));
    assert_eq!(s.press_start, None);
}

#[test]
fn a_sample_without_a_press_state_starts_the_timer() {
    let mut s = MouseUpdate::new(prefs());
    s.pointer_update(None, Some(pt(500_000, 500_000)), ms(7));
    assert_eq!(s.press_start, Some(ms(7)));
    let up = s.pointer_update(Some(PressState::Released), None, ms(30));
    assert_eq!(up.actions, click());
}

#[test]
fn the_timer_is_not_restarted_while_the_finger_is_down() {
    let mut s = MouseUpdate::new(prefs());
    s.pointer_update(Some(PressState::Pressed), Some(pt(0, 0)), ms(0));
    s.pointer_update(Some(PressState::Pressed), Some(pt(1_000, 0)), ms(60));
    s.pointer_update(None, Some(pt(2_000, 0)), ms(90));
    assert_eq!(s.press_start, Some(ms(0)));
    let up = s.pointer_update(Some(PressState::Released), None, ms(120));
    assert_eq!(up.actions, vec![]);
}

#[test]
fn a_release_without_a_touch_does_nothing() {
    let mut s = MouseUpdate::new(prefs());
    let up = s.pointer_update(Some(PressState::Released), None, ms(5));
    assert_eq!(up, Outcome { actions: vec![], diagnostic: None });
    assert_eq!(s, MouseUpdate::new(prefs()));
}

#[test]
fn a_release_clears_the_anchor_and_the_next_touch_starts_afresh() {
    let mut s = MouseUpdate::new(prefs());
    s.pointer_update(Some(PressState::Pressed), Some(pt(100_000, 100_000)), ms(0));
    let drag = s.pointer_update(None, Some(pt(300_000, 200_000)), ms(200));
    assert_eq!(drag.actions, vec![Action::MoveRelative { dx: 200, dy: 100 }]);
    let up = s.pointer_update(Some(PressState::Released), Some(pt(300_000, 200_000)), ms(400));
    assert_eq!(up.actions, vec![Action::MoveRelative { dx: 0, dy: 0 }]);
    assert_eq!(s.last_loc, None);
    let again = s.pointer_update(Some(PressState::Pressed), Some(pt(900_000, 900_000)), ms(1000));
    assert_eq!(again.actions, vec![]);
    assert_eq!(s.last_loc, Some(pt(900_000, 900_000)));
    let next = s.pointer_update(None, Some(pt(901_000, 899_000)), ms(1200));
    assert_eq!(next.actions, vec![Action::MoveRelative { dx: 1, dy: -1 }]);
}

#[test]
fn a_release_that_carries_a_location_moves_before_it_clicks() {
    let mut s = MouseUpdate::new(prefs());
    s.pointer_update(Some(PressState::Pressed), Some(pt(0, 0)), ms(0));
    let up = s.pointer_update(Some(PressState::Released), Some(pt(0, 5_000)), ms(10));
    assert_eq!(
        up.actions,
        vec![
            Action::MoveRelative { dx: 0, dy: 5 },
            Action::Press(Target::Button(MouseButton::LeftButton)),
            Action::Release(Target::Button(MouseButton::LeftButton)),
        ]
    );
}

#[test]
fn the_moves_of_a_drag_add_up_to_the_travel_of_the_finger() {
    let mut s = MouseUpdate::new(prefs());
    let path = [0i64, 1_400, 2_900, 3_300, 10_000, 9_600, 25_500];
    let mut total: i64 = 0;
    let mut steps: i64 = 0;
    s.pointer_update(Some(PressState::Pressed), Some(pt(path[0], 0)), ms(0));
    for x in &path[1..] {
        let out = s.pointer_update(None, Some(pt(*x, 0)), ms(1));
        assert_eq!(out.actions.len(), 1);
        match out.actions[0] {
            Action::MoveRelative { dx, dy } => {
                total += i64::from(dx);
                assert_eq!(dy, 0);
            }
            _ => panic!("expected a cursor move"),
        }
        steps += 1;
    }
    // 1000 * 0.0255 = 25.5 device units; each step is off by half a unit at most.
    let exact_times_two: i64 = 51;
    assert!((total * 2 - exact_times_two).abs() <= steps);
    assert_eq!(total, 1 + 2 + 0 + 7 + 0 + 16);
}

#[test]
fn a_pressure_on_the_spot_moves_by_zero() {
    let mut s = MouseUpdate::new(prefs());
    s.pointer_update(None, Some(pt(5, 5)), ms(0));
    let out = s.pointer_update(None, Some(pt(5, 5)), ms(1));
    assert_eq!(out.actions, vec![Action::MoveRelative { dx: 0, dy: 0 }]);
}

#[test]
fn travel_at_the_scroll_threshold_turns_nothing() {
    let mut s = scrolling(pt(0, 0));
    let out = s.pointer_update(None, Some(pt(10_000, -10_000)), ms(1));
    assert_eq!(out.actions, vec![]);
    assert_eq!(s.last_loc, Some(pt(0, 0)));
}

#[test]
fn travel_one_above_the_scroll_threshold_turns_one_tick() {
    let mut s = scrolling(pt(0, 0));
    let out = s.pointer_update(None, Some(pt(11_000, 0)), ms(1));
    assert_eq!(out.actions, vec![Action::Scroll { dx: 1, dy: 0 }]);
    assert_eq!(s.last_loc, Some(pt(11_000, 0)));
    let mut s = scrolling(pt(0, 0));
    let out = s.pointer_update(None, Some(pt(-11_000, 0)), ms(1));
    assert_eq!(out.actions, vec![Action::Scroll { dx: -1, dy: 0 }]);
    let mut s = scrolling(pt(0, 0));
    let out = s.pointer_update(None, Some(pt(0, 11_000)), ms(1));
    assert_eq!(out.actions, vec![Action::Scroll { dx: 0, dy: 1 }]);
    let mut s = scrolling(pt(0, 0));
    let out = s.pointer_update(None, Some(pt(0, -11_000)), ms(1));
    assert_eq!(out.actions, vec![Action::Scroll { dx: 0, dy: -1 }]);
}

#[test]
fn each_axis_scrolls_on_its_own() {
    let mut s = scrolling(pt(100_000, 100_000));
    let out = s.pointer_update(None, Some(pt(120_000, 105_000)), ms(1));
    assert_eq!(out.actions, vec![Action::Scroll { dx: 1, dy: 0 }]);
    // The anchor went along across, and stayed where it was up and down.
    assert_eq!(s.last_loc, Some(pt(120_000, 100_000)));
    let out = s.pointer_update(None, Some(pt(125_000, 111_000)), ms(2));
    assert_eq!(out.actions, vec![Action::Scroll { dx: 0, dy: 1 }]);
    assert_eq!(s.last_loc, Some(pt(120_000, 111_000)));
    let out = s.pointer_update(None, Some(pt(100_000, 90_000)), ms(3));
    assert_eq!(
        out.actions,
        vec![Action::Scroll { dx: -1, dy: 0 }, Action::Scroll { dx: 0, dy: -1 }]
    );
    assert_eq!(s.last_loc, Some(pt(100_000, 90_000)));
}

#[test]
fn slow_travel_below_the_threshold_adds_up_to_a_tick() {
    let mut s = scrolling(pt(0, 0));
    assert_eq!(s.pointer_update(None, Some(pt(4_000, 0)), ms(1)).actions, vec![]);
    assert_eq!(s.pointer_update(None, Some(pt(8_000, 0)), ms(2)).actions, vec![]);
    assert_eq!(
        s.pointer_update(None, Some(pt(12_000, 0)), ms(3)).actions,
        vec![Action::Scroll { dx: 1, dy: 0 }]
    );
    assert_eq!(s.last_loc, Some(pt(12_000, 0)));
}

#[test]
fn scroll_mode_does_not_move_the_cursor() {
    let mut s = scrolling(pt(0, 0));
    let out = s.pointer_update(None, Some(pt(500_000, 500_000)), ms(1));
    assert_eq!(
        out.actions,
        vec![Action::Scroll { dx: 1, dy: 0 }, Action::Scroll { dx: 0, dy: 1 }]
    );
}

#[test]
fn a_mouse_button_is_pressed_and_released() {
    let mut s = MouseUpdate::new(prefs());
    let d = ActionDescriptor::PointerMouseButton(MouseButton::RightButton);
    let down = s.apply(Some(&d), Some(PressState::Pressed));
    assert_eq!(down.actions, vec![Action::Press(Target::Button(MouseButton::RightButton))]);
    assert_eq!(down.diagnostic, None);
    let up = s.apply(Some(&d), Some(PressState::Released));
    assert_eq!(up.actions, vec![Action::Release(Target::Button(MouseButton::RightButton))]);
    assert_eq!(s, MouseUpdate::new(prefs()));
}

#[test]
fn a_button_update_without_a_press_state_is_ignored() {
    let mut s = scrolling(pt(1, 2));
    let before = s;
    let button = ActionDescriptor::PointerMouseButton(MouseButton::LeftButton);
    assert_eq!(s.apply(Some(&button), None), Outcome { actions: vec![], diagnostic: None });
    let chord = ActionDescriptor::KeyChord(vec![KeybdKey::AKey]);
    assert_eq!(s.apply(Some(&chord), None), Outcome { actions: vec![], diagnostic: None });
    let switch = ActionDescriptor::ScrollModeToggle;
    assert_eq!(s.apply(Some(&switch), None), Outcome { actions: vec![], diagnostic: None });
    assert_eq!(s, before);
}

#[test]
fn a_chord_goes_down_in_order_and_comes_up_in_reverse() {
    let mut s = MouseUpdate::new(prefs());
    let chord = ActionDescriptor::KeyChord(vec![
        KeybdKey::LControlKey,
        KeybdKey::LShiftKey,
        KeybdKey::AKey,
    ]);
    let mut seen = s.apply(Some(&chord), Some(PressState::Pressed)).actions;
    seen.extend(s.apply(Some(&chord), Some(PressState::Released)).actions);
    assert_eq!(
        seen,
        vec![
            Action::Press(Target::Key(KeybdKey::LControlKey)),
            Action::Press(Target::Key(KeybdKey::LShiftKey)),
            Action::Press(Target::Key(KeybdKey::AKey)),
            Action::Release(Target::Key(KeybdKey::AKey)),
            Action::Release(Target::Key(KeybdKey::LShiftKey)),
            Action::Release(Target::Key(KeybdKey::LControlKey)),
        ]
    );
}

#[test]
fn an_empty_chord_calls_for_nothing() {
    let mut s = MouseUpdate::new(prefs());
    let chord = ActionDescriptor::KeyChord(vec![]);
    assert_eq!(
        s.apply(Some(&chord), Some(PressState::Pressed)),
        Outcome { actions: vec![], diagnostic: None }
    );
    assert_eq!(
        s.apply(Some(&chord), Some(PressState::Released)),
        Outcome { actions: vec![], diagnostic: None }
    );
}

#[test]
fn the_scroll_switch_turns_scroll_mode_on_and_off() {
    let mut s = MouseUpdate::new(prefs());
    s.pointer_update(Some(PressState::Pressed), Some(pt(0, 0)), ms(0));
    let on = s.apply(Some(&ActionDescriptor::ScrollModeToggle), Some(PressState::Pressed));
    assert_eq!(on, Outcome { actions: vec![], diagnostic: None });
    assert!(s.scroll_mode);
    assert_eq!(s.press_start, None);
    assert_eq!(s.last_loc, Some(pt(0, 0)));
    let off = s.apply(Some(&ActionDescriptor::ScrollModeToggle), Some(PressState::Released));
    assert_eq!(off, Outcome { actions: vec![], diagnostic: None });
    assert!(!s.scroll_mode);
}

#[test]
fn no_click_follows_a_touch_that_the_scroll_switch_interrupted() {
    let mut s = MouseUpdate::new(prefs());
    s.pointer_update(Some(PressState::Pressed), Some(pt(0, 0)), ms(0));
    s.button_update(Some("S"), Some(PressState::Pressed));
    let up = s.pointer_update(Some(PressState::Released), None, ms(20));
    assert_eq!(up.actions, vec![]);
    assert_eq!(s.last_loc, None);
}

#[test]
fn a_button_is_found_by_the_name_of_its_control() {
    let mut s = MouseUpdate::new(prefs());
    let out = s.button_update(Some("MiddleButton"), Some(PressState::Pressed));
    assert_eq!(out.actions, vec![Action::Press(Target::Button(MouseButton::MiddleButton))]);
    let out = s.button_update(Some("(OtherButton . 9)"), Some(PressState::Released));
    assert_eq!(out.actions, vec![Action::Release(Target::Button(MouseButton::OtherButton(9)))]);
    let out = s.button_update(Some("(LControlKey CKey)"), Some(PressState::Released));
    assert_eq!(
        out.actions,
        vec![
            Action::Release(Target::Key(KeybdKey::CKey)),
            Action::Release(Target::Key(KeybdKey::LControlKey)),
        ]
    );
    let out = s.button_update(Some("S"), Some(PressState::Pressed));
    assert_eq!(out.actions, vec![]);
    assert!(s.scroll_mode);
}

#[test]
fn a_control_without_a_name_is_dropped() {
    let mut s = scrolling(pt(3, 4));
    let before = s;
    let out = s.button_update(None, Some(PressState::Pressed));
    assert_eq!(out, Outcome { actions: vec![], diagnostic: Some(Diagnostic::UnknownControl) });
    assert_eq!(s, before);
}

#[test]
fn a_name_that_spells_nothing_is_dropped() {
    let mut s = scrolling(pt(3, 4));
    let before = s;
    for name in ["xy", "", "((", "NoSuchButton", "\"LeftButton\"", "(AKey . BKey)", "42"] {
        let out = s.button_update(Some(name), Some(PressState::Pressed));
        assert_eq!(
            out,
            Outcome { actions: vec![], diagnostic: Some(Diagnostic::UndecodableName) }
        );
        assert_eq!(s, before);
    }
}

#[test]
fn the_length_of_a_touch_is_reported_on_request() {
    let mut asked = prefs();
    asked.show_press_duration = true;
    let mut s = MouseUpdate::new(asked);
    s.pointer_update(Some(PressState::Pressed), None, ms(100));
    let up = s.pointer_update(Some(PressState::Released), None, ms(350));
    assert_eq!(up.diagnostic, Some(Diagnostic::PressDuration(250)));
    assert_eq!(up.actions, vec![]);
    let mut s = MouseUpdate::new(prefs());
    s.pointer_update(Some(PressState::Pressed), None, ms(100));
    let up = s.pointer_update(Some(PressState::Released), None, ms(350));
    assert_eq!(up.diagnostic, None);
}

#[test]
fn dispatch_sends_each_update_to_its_handler() {
    let mut s = MouseUpdate::new(prefs());
    let touch = UpdateEvent::PointerUpdate {
        control_id: vec![2],
        press_state: Some(PressState::Pressed),
        location: Some(pt(0, 0)),
    };
    assert_eq!(s.dispatch(&touch, Some("LeftButton"), ms(0)).actions, vec![]);
    assert_eq!(s.last_loc, Some(pt(0, 0)));
    let drag = UpdateEvent::PointerUpdate {
        control_id: vec![2],
        press_state: None,
        location: Some(pt(0, 3_000)),
    };
    assert_eq!(
        s.dispatch(&drag, None, ms(10)).actions,
        vec![Action::MoveRelative { dx: 0, dy: 3 }]
    );
    let button = UpdateEvent::ButtonUpdate {
        control_id: vec![1, 0],
        press_state: Some(PressState::Pressed),
    };
    assert_eq!(
        s.dispatch(&button, Some("(EnterKey)"), ms(20)).actions,
        vec![Action::Press(Target::Key(KeybdKey::EnterKey))]
    );
    assert_eq!(
        s.dispatch(&button, None, ms(20)).diagnostic,
        Some(Diagnostic::UnknownControl)
    );
    // A button update leaves the gesture alone.
    assert_eq!(s.last_loc, Some(pt(0, 3_000)));
    assert_eq!(s.press_start, Some(ms(0)));
}

#[test]
fn a_turn_of_the_wheel_has_a_wheel_button() {
    assert_eq!(
        Action::Scroll { dx: -1, dy: 0 }.wheel_button(),
        Some(MouseButton::OtherButton(6))
    );
    assert_eq!(Action::Scroll { dx: 1, dy: 0 }.wheel_button(), Some(MouseButton::OtherButton(7)));
    assert_eq!(
        Action::Scroll { dx: 0, dy: -1 }.wheel_button(),
        Some(MouseButton::OtherButton(4))
    );
    assert_eq!(Action::Scroll { dx: 0, dy: 1 }.wheel_button(), Some(MouseButton::OtherButton(5)));
    assert_eq!(Action::Scroll { dx: 0, dy: 0 }.wheel_button(), None);
    assert_eq!(Action::Scroll { dx: 1, dy: 1 }.wheel_button(), None);
    assert_eq!(Action::MoveRelative { dx: 1, dy: 0 }.wheel_button(), None);
}

#[test]
fn readings_of_the_clock_are_told_apart_to_the_nanosecond() {
    assert_eq!(ms(3).nanos, 3_000_000);
    assert_eq!(ms(10).millis_since(ms(4)), Some(6));
    assert_eq!(ms(4).millis_since(ms(10)), None);
    assert_eq!(Timestamp { nanos: 1_999_999 }.millis_since(Timestamp { nanos: 0 }), Some(1));
}

#[test]
fn a_clock_before_its_epoch_reads_as_the_epoch() {
    assert_eq!(Timestamp::or_epoch(None), Timestamp { nanos: 0 });
    assert_eq!(Timestamp::or_epoch(Some(ms(12))), ms(12));
}
