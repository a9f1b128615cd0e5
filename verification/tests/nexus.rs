use mousepage::event::{Action, Diagnostic, NormalizedPoint, PressState, Target, UpdateEvent};
use mousepage::fixed::Fixed;
use mousepage::keys::{KeybdKey, MouseButton};
use mousepage::session::MouseUpdate;
use mousepage::settings::Prefs;
use touchpage::control_nexus::{ControlNexus, PrintUpdateMsg};
use touchpage::controls::Orientation;
use touchpage::guibuilder::Gui;

fn prefs(max_tap_duration: u32) -> Prefs {
    Prefs {
        xmult: Fixed::from_int(1000),
        ymult: Fixed::from_int(1000),
        max_tap_duration,
        show_press_duration: false,
        scroll_threshold: 10,
        html_port: 8000,
        websocket_port: 9000,
    }
}

// A nexus that holds a column of five controls: three buttons, a pad, and a
// button whose name spells nothing.
fn nexus() -> ControlNexus {
    let mut gui = Gui::new_gui("test".to_string());
    gui.add_sizer(Orientation::Vertical, None).unwrap();
    gui.add_button("LeftButton".to_string(), None).unwrap();
    gui.add_button("S".to_string(), None).unwrap();
    gui.add_button("(LShiftKey AKey)".to_string(), None).unwrap();
    gui.add_xy("xy".to_string(), None).unwrap();
    gui.add_button("nonsense".to_string(), None).unwrap();
    gui.end_sizer().unwrap();
    let root = gui.to_root().unwrap();
    let json = serde_json::to_string(&touchpage::json::serialize_root(&root)).unwrap();
    touchpage::websocketserver::start(&json, Box::new(PrintUpdateMsg {}), "127.0.0.1", "0", false)
        .unwrap()
}

fn button(id: i32, press_state: Option<PressState>) -> UpdateEvent {
    UpdateEvent::ButtonUpdate { control_id: vec![id], press_state }
}

fn pointer(press_state: Option<PressState>, location: Option<(i64, i64)>) -> UpdateEvent {
    UpdateEvent::PointerUpdate {
        control_id: vec![3],
        press_state,
        location: location
            .map(|(x, y)| NormalizedPoint { x: Fixed { micros: x }, y: Fixed { micros: y } }),
    }
}

#[test]
fn the_nexus_gives_the_names_of_its_buttons() {
    let nexus = nexus();
    let mut s = MouseUpdate::new(prefs(100));
    let out = s.on_update_received(&button(0, Some(PressState::Pressed)), &nexus);
    assert_eq!(out.actions, vec![Action::Press(Target::Button(MouseButton::LeftButton))]);
    let out = s.on_update_received(&button(2, Some(PressState::Released)), &nexus);
    assert_eq!(
        out.actions,
        vec![
            Action::Release(Target::Key(KeybdKey::AKey)),
            Action::Release(Target::Key(KeybdKey::LShiftKey)),
        ]
    );
    let out = s.on_update_received(&button(1, Some(PressState::Pressed)), &nexus);
    assert_eq!(out.actions, vec![]);
    assert!(s.scroll_mode);
    let out = s.on_update_received(&button(1, Some(PressState::Released)), &nexus);
    assert_eq!(out.actions, vec![]);
    assert!(!s.scroll_mode);
}

#[test]
fn an_update_of_a_control_that_the_nexus_does_not_hold_is_dropped() {
    let nexus = nexus();
    let mut s = MouseUpdate::new(prefs(100));
    let out = s.on_update_received(&button(17, Some(PressState::Pressed)), &nexus);
    assert_eq!(out.actions, vec![]);
    assert_eq!(out.diagnostic, Some(Diagnostic::UnknownControl));
    let out = s.on_update_received(&button(4, Some(PressState::Pressed)), &nexus);
    assert_eq!(out.actions, vec![]);
    assert_eq!(out.diagnostic, Some(Diagnostic::UndecodableName));
    assert_eq!(s, MouseUpdate::new(prefs(100)));
}

#[test]
fn a_touch_is_timed_by_the_wall_clock() {
    let nexus = nexus();
    // Every touch is a tap if the limit is out of reach.
    let mut s = MouseUpdate::new(prefs(u32::MAX));
    let out = s.on_update_received(&pointer(Some(PressState::Pressed), Some((0, 0))), &nexus);
    assert_eq!(out.actions, vec![]);
    assert!(s.press_start.is_some());
    let out = s.on_update_received(&pointer(None, Some((2_000, 1_000))), &nexus);
    assert_eq!(out.actions, vec![Action::MoveRelative { dx: 2, dy: 1 }]);
    let out = s.on_update_received(&pointer(Some(PressState::Released), None), &nexus);
    assert_eq!(
        out.actions,
        vec![
            Action::Press(Target::Button(MouseButton::LeftButton)),
            Action::Release(Target::Button(MouseButton::LeftButton)),
        ]
    );
    assert_eq!(s, MouseUpdate::new(prefs(u32::MAX)));
    // And none is if the limit is zero.
    let mut s = MouseUpdate::new(prefs(0));
    s.on_update_received(&pointer(Some(PressState::Pressed), None), &nexus);
    let out = s.on_update_received(&pointer(Some(PressState::Released), None), &nexus);
    assert_eq!(out.actions, vec![]);
}

#[test]
fn the_wall_clock_reads_a_time_after_1970() {
    let nexus = nexus();
    let mut s = MouseUpdate::new(prefs(100));
    s.on_update_received(&pointer(Some(PressState::Pressed), None), &nexus);
    let start = s.press_start.unwrap();
    // 2020-01-01 in nanoseconds since the epoch.
    assert!(start.nanos > 1_577_836_800_000_000_000);
}
