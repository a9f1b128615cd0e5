//! What a user can configure: the preferences of a session and the controls
//! of the remote surface.

use crate::fixed::Fixed;
use crate::keys::{KeybdKey, MouseButton};
use vstd::prelude::*;

verus! {

/// The preferences of a session. They do not change while it lasts.
#[derive(Clone, Copy, Debug, PartialEq, Eq, Structural)]
pub struct Prefs {
    /// Scales horizontal finger travel to device units.
    pub xmult: Fixed,
    /// Scales vertical finger travel to device units.
    pub ymult: Fixed,
    /// A touch shorter than this many milliseconds is a tap.
    pub max_tap_duration: u32,
    /// Whether the length of each touch is reported.
    pub show_press_duration: bool,
    /// The scaled travel that a finger must exceed to turn the wheel one tick.
    pub scroll_threshold: i32,
    pub html_port: i32,
    pub websocket_port: i32,
}

/// Which way the controls of a sizer are laid out.
#[derive(Clone, Copy, Debug, PartialEq, Eq, Structural)]
pub enum Orientation {
    Horizontal,
    Vertical,
}

/// A part of the surface that has a colour.
#[derive(Clone, Copy, Debug, PartialEq, Eq, Structural)]
pub enum Color {
    Controls,
    Labels,
    Text,
    Pressed,
    Unpressed,
    Background,
}

/// The colour of one part of the surface, as six hexadecimal digits.
#[derive(Debug, PartialEq, Eq)]
pub struct SetColor {
    pub color: Color,
    pub hexstring: String,
}

/// One control of the remote surface, or a group of them.
#[derive(Debug, PartialEq, Eq)]
pub enum Control {
    /// A button that stands for a mouse button.
    MouseButton { label: Option<String>, button: MouseButton, proportion: Option<Fixed> },
    /// The pad on which the finger moves the cursor.
    MouseXy { label: Option<String>, proportion: Option<Fixed> },
    /// The button that switches scroll mode.
    ScrollButton { label: Option<String>, proportion: Option<Fixed> },
    /// A button that stands for a key chord.
    Key { label: Option<String>, keys: Vec<KeybdKey>, proportion: Option<Fixed> },
    /// A line of text.
    Label { label: String, proportion: Option<Fixed> },
    /// Controls laid out in a row or a column.
    Sizer { orientation: Orientation, controls: Vec<Control>, proportion: Option<Fixed> },
}

/// The remote surface: its title and its controls.
#[derive(Debug, PartialEq, Eq)]
pub struct Gui {
    pub title: String,
    pub control: Control,
}

/// Everything a user can configure.
#[derive(Debug, PartialEq, Eq)]
pub struct Settings {
    pub prefs: Prefs,
    pub gui: Gui,
    pub colors: Option<Vec<SetColor>>,
}

/// The mathematical value of a [`SetColor`].
pub ghost struct SetColorView {
    pub color: Color,
    pub hexstring: Seq<char>,
}

/// The mathematical value of a [`Control`].
pub ghost enum ControlView {
    MouseButton { label: Option<Seq<char>>, button: MouseButton, proportion: Option<Fixed> },
    MouseXy { label: Option<Seq<char>>, proportion: Option<Fixed> },
    ScrollButton { label: Option<Seq<char>>, proportion: Option<Fixed> },
    Key { label: Option<Seq<char>>, keys: Seq<KeybdKey>, proportion: Option<Fixed> },
    Label { label: Seq<char>, proportion: Option<Fixed> },
    Sizer { orientation: Orientation, controls: Seq<ControlView>, proportion: Option<Fixed> },
}

/// The mathematical value of a [`Gui`].
pub ghost struct GuiView {
    pub title: Seq<char>,
    pub control: ControlView,
}

/// The mathematical value of [`Settings`].
pub ghost struct SettingsView {
    pub prefs: Prefs,
    pub gui: GuiView,
    pub colors: Option<Seq<SetColorView>>,
}

/// The characters of an optional label.
pub open spec fn label_view(label: Option<String>) -> Option<Seq<char>> {
    match label {
        Some(text) => Some(text@),
        None => None,
    }
}

/// The mathematical value of `c`.
pub open spec fn control_view(c: Control) -> ControlView
    decreases c,
{
    match c {
        Control::MouseButton { label, button, proportion } => ControlView::MouseButton {
            label: label_view(label),
            button,
            proportion,
        },
        Control::MouseXy { label, proportion } => ControlView::MouseXy {
            label: label_view(label),
            proportion,
        },
        Control::ScrollButton { label, proportion } => ControlView::ScrollButton {
            label: label_view(label),
            proportion,
        },
        Control::Key { label, keys, proportion } => ControlView::Key {
            label: label_view(label),
            keys: keys@,
            proportion,
        },
        Control::Label { label, proportion } => ControlView::Label { label: label@, proportion },
        Control::Sizer { orientation, controls, proportion } => ControlView::Sizer {
            orientation,
            controls: Seq::new(
                controls.len() as nat,
                |i: int|
                    if 0 <= i < controls.len() {
                        control_view(controls[i])
                    } else {
                        ControlView::Label { label: Seq::empty(), proportion: None }
                    },
            ),
            proportion,
        },
    }
}

impl View for SetColor {
    type V = SetColorView;

    open spec fn view(&self) -> SetColorView {
        SetColorView { color: self.color, hexstring: self.hexstring@ }
    }
}

impl View for Control {
    type V = ControlView;

    open spec fn view(&self) -> ControlView {
        control_view(*self)
    }
}

impl View for Gui {
    type V = GuiView;

    open spec fn view(&self) -> GuiView {
        GuiView { title: self.title@, control: self.control@ }
    }
}

impl View for Settings {
    type V = SettingsView;

    open spec fn view(&self) -> SettingsView {
        SettingsView {
            prefs: self.prefs,
            gui: self.gui@,
            colors: match self.colors {
                Some(colors) => Some(Seq::new(colors.len() as nat, |i: int| colors[i]@)),
                None => None,
            },
        }
    }
}

impl ControlView {
    /// The share of its sizer that the control asks for, if it asks for one.
    pub open spec fn proportion(self) -> Option<Fixed> {
        match self {
            ControlView::MouseButton { label, button, proportion } => proportion,
            ControlView::MouseXy { label, proportion } => proportion,
            ControlView::ScrollButton { label, proportion } => proportion,
            ControlView::Key { label, keys, proportion } => proportion,
            ControlView::Label { label, proportion } => proportion,
            ControlView::Sizer { orientation, controls, proportion } => proportion,
        }
    }
}

/// The share of its sizer that a control asks for, if it asks for one.
pub fn get_proportion(c: &Control) -> (r: Option<Fixed>)
    ensures
        r == c@.proportion(),
{
    match c {
        Control::MouseButton { label: _, button: _, proportion } => *proportion,
        Control::MouseXy { label: _, proportion } => *proportion,
        Control::ScrollButton { label: _, proportion } => *proportion,
        Control::Key { label: _, keys: _, proportion } => *proportion,
        Control::Label { label: _, proportion } => *proportion,
        Control::Sizer { orientation: _, controls: _, proportion } => *proportion,
    }
}

/// The preferences of a session that was configured with nothing.
pub open spec fn default_session_prefs() -> Prefs {
    Prefs {
        xmult: Fixed { micros: 1_000_000_000 },
        ymult: Fixed { micros: 1_000_000_000 },
        max_tap_duration: 100,
        show_press_duration: false,
        scroll_threshold: 10,
        html_port: 8000,
        websocket_port: 9000,
    }
}

/// A tenth, the share of each row of the example surface.
pub open spec fn tenth() -> Option<Fixed> {
    Some(Fixed { micros: 100_000 })
}

/// The first row of the example surface: two labels.
pub open spec fn example_labels() -> ControlView {
    ControlView::Sizer {
        orientation: Orientation::Horizontal,
        controls: seq![
            ControlView::Label { label: "label1"@, proportion: None },
            ControlView::Label { label: "label2"@, proportion: None },
        ],
        proportion: tenth(),
    }
}

/// The second row of the example surface: the left button, the scroll
/// switch and the right button.
pub open spec fn example_buttons() -> ControlView {
    ControlView::Sizer {
        orientation: Orientation::Horizontal,
        controls: seq![
            ControlView::MouseButton {
                label: Some("L"@),
                button: MouseButton::LeftButton,
                proportion: None,
            },
            ControlView::ScrollButton { label: Some("Scroll"@), proportion: None },
            ControlView::MouseButton {
                label: Some("R"@),
                button: MouseButton::RightButton,
                proportion: None,
            },
        ],
        proportion: tenth(),
    }
}

/// The third row of the example surface: the pad, on half of the surface.
pub open spec fn example_pad() -> ControlView {
    ControlView::MouseXy { label: None, proportion: Some(Fixed { micros: 500_000 }) }
}

/// The last row of the example surface: the Enter key.
pub open spec fn example_keys() -> ControlView {
    ControlView::Sizer {
        orientation: Orientation::Horizontal,
        controls: seq![
            ControlView::Key {
                label: Some("Enter Key"@),
                keys: seq![KeybdKey::EnterKey],
                proportion: tenth(),
            },
        ],
        proportion: None,
    }
}

/// The settings of a user who configured nothing: an example surface of four
/// rows, with red text.
pub open spec fn default_settings() -> SettingsView {
    SettingsView {
        prefs: default_session_prefs(),
        gui: GuiView {
            title: "example"@,
            control: ControlView::Sizer {
                orientation: Orientation::Vertical,
                controls: seq![example_labels(), example_buttons(), example_pad(), example_keys()],
                proportion: None,
            },
        },
        colors: Some(seq![SetColorView { color: Color::Text, hexstring: "FF0000"@ }]),
    }
}

/// The settings of a user who configured nothing.
pub fn default_prefs() -> (r: Settings)
    ensures
        r@ == default_settings(),
{
    let labels = Control::Sizer {
        orientation: Orientation::Horizontal,
        controls: vec![
            Control::Label { label: "label1".to_owned(), proportion: None },
            Control::Label { label: "label2".to_owned(), proportion: None },
        ],
        proportion: Some(Fixed { micros: 100_000 }),
    };
    assert(labels@ == example_labels()) by {
        reveal_with_fuel(control_view, 2);
        assert(labels@->Sizer_controls =~= example_labels()->Sizer_controls);
    }
    let buttons = Control::Sizer {
        orientation: Orientation::Horizontal,
        controls: vec![
            Control::MouseButton {
                label: Some("L".to_owned()),
                button: MouseButton::LeftButton,
                proportion: None,
            },
            Control::ScrollButton { label: Some("Scroll".to_owned()), proportion: None },
            Control::MouseButton {
                label: Some("R".to_owned()),
                button: MouseButton::RightButton,
                proportion: None,
            },
        ],
        proportion: Some(Fixed { micros: 100_000 }),
    };
    assert(buttons@ == example_buttons()) by {
        reveal_with_fuel(control_view, 2);
        assert(buttons@->Sizer_controls =~= example_buttons()->Sizer_controls);
    }
    let pad = Control::MouseXy { label: None, proportion: Some(Fixed { micros: 500_000 }) };
    assert(pad@ == example_pad());
    let keys = Control::Sizer {
        orientation: Orientation::Horizontal,
        controls: vec![
            Control::Key {
                label: Some("Enter Key".to_owned()),
                keys: vec![KeybdKey::EnterKey],
                proportion: Some(Fixed { micros: 100_000 }),
            },
        ],
        proportion: None,
    };
    assert(keys@ == example_keys()) by {
        reveal_with_fuel(control_view, 2);
        assert(keys@->Sizer_controls[0]->Key_keys =~= seq![KeybdKey::EnterKey]);
        assert(keys@->Sizer_controls =~= example_keys()->Sizer_controls);
    }
    let root = Control::Sizer {
        orientation: Orientation::Vertical,
        controls: vec![labels, buttons, pad, keys],
        proportion: None,
    };
    assert(root@ == default_settings().gui.control) by {
        let rows = root->Sizer_controls;
        let views = root@->Sizer_controls;
        assert(views[0] == rows[0]@);
        assert(views[1] == rows[1]@);
        assert(views[2] == rows[2]@);
        assert(views[3] == rows[3]@);
        assert(views =~= default_settings().gui.control->Sizer_controls);
    }
    let settings = Settings {
        prefs: Prefs {
            xmult: Fixed { micros: 1_000_000_000 },
            ymult: Fixed { micros: 1_000_000_000 },
            max_tap_duration: 100,
            show_press_duration: false,
            scroll_threshold: 10,
            html_port: 8000,
            websocket_port: 9000,
        },
        gui: Gui { title: "example".to_owned(), control: root },
        colors: Some(vec![SetColor { color: Color::Text, hexstring: "FF0000".to_owned() }]),
    };
    assert(settings@.colors->0 =~= default_settings().colors->0);
    settings
}

} // verus!
