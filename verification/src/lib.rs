//! Mouse and keyboard actions from the touches on a remote surface.
//!
//! A remote surface shows a pad and buttons and sends an update whenever a
//! finger touches one. A [`MouseUpdate`] holds the state of one such session
//! and answers each update with the mouse and keyboard actions that the host
//! is to perform.

pub mod event;
pub mod fixed;
pub mod keys;
pub mod laws;
pub mod layout;
pub mod outside;
pub mod session;
pub mod settings;
pub mod sexp;
pub mod text;
pub mod token;

pub use event::{
    Action, Diagnostic, NormalizedPoint, Outcome, PressState, Target, Timestamp, UpdateEvent,
};
pub use fixed::Fixed;
pub use keys::{KeybdKey, MouseButton};
pub use layout::{add_control, build_gui, BuildStep, GuiPlan, LayoutError};
pub use session::MouseUpdate;
pub use settings::{
    default_prefs, get_proportion, Color, Control, Gui, Orientation, Prefs, SetColor, Settings,
};
pub use sexp::Sexp;
pub use token::{decode_name, decode_parsed, encode_button, encode_keys, ActionDescriptor};
