//! The mouse buttons and keyboard keys that a control can stand for, and the
//! symbols by which a control's name spells them.

use crate::text::str_eq;
use vstd::prelude::*;

verus! {

/// A mouse button.
#[derive(Clone, Copy, Debug, PartialEq, Eq, Hash, Structural)]
pub enum MouseButton {
    LeftButton,
    MiddleButton,
    RightButton,
    X1Button,
    X2Button,
    /// A button known only by its number.
    OtherButton(u32),
}

/// A keyboard key.
#[derive(Clone, Copy, Debug, PartialEq, Eq, Hash, Structural)]
pub enum KeybdKey {
    BackspaceKey,
    TabKey,
    EnterKey,
    EscapeKey,
    SpaceKey,
    HomeKey,
    LeftKey,
    UpKey,
    RightKey,
    DownKey,
    InsertKey,
    DeleteKey,
    Numrow0Key,
    Numrow1Key,
    Numrow2Key,
    Numrow3Key,
    Numrow4Key,
    Numrow5Key,
    Numrow6Key,
    Numrow7Key,
    Numrow8Key,
    Numrow9Key,
    AKey,
    BKey,
    CKey,
    DKey,
    EKey,
    FKey,
    GKey,
    HKey,
    IKey,
    JKey,
    KKey,
    LKey,
    MKey,
    NKey,
    OKey,
    PKey,
    QKey,
    RKey,
    SKey,
    TKey,
    UKey,
    VKey,
    WKey,
    XKey,
    YKey,
    ZKey,
    Numpad0Key,
    Numpad1Key,
    Numpad2Key,
    Numpad3Key,
    Numpad4Key,
    Numpad5Key,
    Numpad6Key,
    Numpad7Key,
    Numpad8Key,
    Numpad9Key,
    F1Key,
    F2Key,
    F3Key,
    F4Key,
    F5Key,
    F6Key,
    F7Key,
    F8Key,
    F9Key,
    F10Key,
    F11Key,
    F12Key,
    NumLockKey,
    ScrollLockKey,
    CapsLockKey,
    LShiftKey,
    RShiftKey,
    LControlKey,
    RControlKey,
    /// A key known only by its code.
    OtherKey(u64),
}

/// The symbol that spells the variant of `b`.
pub open spec fn button_symbol(b: MouseButton) -> Seq<char> {
    match b {
        MouseButton::LeftButton => "LeftButton"@,
        MouseButton::MiddleButton => "MiddleButton"@,
        MouseButton::RightButton => "RightButton"@,
        MouseButton::X1Button => "X1Button"@,
        MouseButton::X2Button => "X2Button"@,
        MouseButton::OtherButton(_) => "OtherButton"@,
    }
}

/// The button without a number that `s` spells, if it spells one.
pub open spec fn plain_button_named(s: Seq<char>) -> Option<MouseButton> {
    if s == "LeftButton"@ {
        Some(MouseButton::LeftButton)
    } else if s == "MiddleButton"@ {
        Some(MouseButton::MiddleButton)
    } else if s == "RightButton"@ {
        Some(MouseButton::RightButton)
    } else if s == "X1Button"@ {
        Some(MouseButton::X1Button)
    } else if s == "X2Button"@ {
        Some(MouseButton::X2Button)
    } else {
        None
    }
}

/// The symbol that spells the variant of `k`.
pub open spec fn key_symbol(k: KeybdKey) -> Seq<char> {
    match k {
        KeybdKey::BackspaceKey => "BackspaceKey"@,
        KeybdKey::TabKey => "TabKey"@,
        KeybdKey::EnterKey => "EnterKey"@,
        KeybdKey::EscapeKey => "EscapeKey"@,
        KeybdKey::SpaceKey => "SpaceKey"@,
        KeybdKey::HomeKey => "HomeKey"@,
        KeybdKey::LeftKey => "LeftKey"@,
        KeybdKey::UpKey => "UpKey"@,
        KeybdKey::RightKey => "RightKey"@,
        KeybdKey::DownKey => "DownKey"@,
        KeybdKey::InsertKey => "InsertKey"@,
        KeybdKey::DeleteKey => "DeleteKey"@,
        KeybdKey::Numrow0Key => "Numrow0Key"@,
        KeybdKey::Numrow1Key => "Numrow1Key"@,
        KeybdKey::Numrow2Key => "Numrow2Key"@,
        KeybdKey::Numrow3Key => "Numrow3Key"@,
        KeybdKey::Numrow4Key => "Numrow4Key"@,
        KeybdKey::Numrow5Key => "Numrow5Key"@,
        KeybdKey::Numrow6Key => "Numrow6Key"@,
        KeybdKey::Numrow7Key => "Numrow7Key"@,
        KeybdKey::Numrow8Key => "Numrow8Key"@,
        KeybdKey::Numrow9Key => "Numrow9Key"@,
        KeybdKey::AKey => "AKey"@,
        KeybdKey::BKey => "BKey"@,
        KeybdKey::CKey => "CKey"@,
        KeybdKey::DKey => "DKey"@,
        KeybdKey::EKey => "EKey"@,
        KeybdKey::FKey => "FKey"@,
        KeybdKey::GKey => "GKey"@,
        KeybdKey::HKey => "HKey"@,
        KeybdKey::IKey => "IKey"@,
        KeybdKey::JKey => "JKey"@,
        KeybdKey::KKey => "KKey"@,
        KeybdKey::LKey => "LKey"@,
        KeybdKey::MKey => "MKey"@,
        KeybdKey::NKey => "NKey"@,
        KeybdKey::OKey => "OKey"@,
        KeybdKey::PKey => "PKey"@,
        KeybdKey::QKey => "QKey"@,
        KeybdKey::RKey => "RKey"@,
        KeybdKey::SKey => "SKey"@,
        KeybdKey::TKey => "TKey"@,
        KeybdKey::UKey => "UKey"@,
        KeybdKey::VKey => "VKey"@,
        KeybdKey::WKey => "WKey"@,
        KeybdKey::XKey => "XKey"@,
        KeybdKey::YKey => "YKey"@,
        KeybdKey::ZKey => "ZKey"@,
        KeybdKey::Numpad0Key => "Numpad0Key"@,
        KeybdKey::Numpad1Key => "Numpad1Key"@,
        KeybdKey::Numpad2Key => "Numpad2Key"@,
        KeybdKey::Numpad3Key => "Numpad3Key"@,
        KeybdKey::Numpad4Key => "Numpad4Key"@,
        KeybdKey::Numpad5Key => "Numpad5Key"@,
        KeybdKey::Numpad6Key => "Numpad6Key"@,
        KeybdKey::Numpad7Key => "Numpad7Key"@,
        KeybdKey::Numpad8Key => "Numpad8Key"@,
        KeybdKey::Numpad9Key => "Numpad9Key"@,
        KeybdKey::F1Key => "F1Key"@,
        KeybdKey::F2Key => "F2Key"@,
        KeybdKey::F3Key => "F3Key"@,
        KeybdKey::F4Key => "F4Key"@,
        KeybdKey::F5Key => "F5Key"@,
        KeybdKey::F6Key => "F6Key"@,
        KeybdKey::F7Key => "F7Key"@,
        KeybdKey::F8Key => "F8Key"@,
        KeybdKey::F9Key => "F9Key"@,
        KeybdKey::F10Key => "F10Key"@,
        KeybdKey::F11Key => "F11Key"@,
        KeybdKey::F12Key => "F12Key"@,
        KeybdKey::NumLockKey => "NumLockKey"@,
        KeybdKey::ScrollLockKey => "ScrollLockKey"@,
        KeybdKey::CapsLockKey => "CapsLockKey"@,
        KeybdKey::LShiftKey => "LShiftKey"@,
        KeybdKey::RShiftKey => "RShiftKey"@,
        KeybdKey::LControlKey => "LControlKey"@,
        KeybdKey::RControlKey => "RControlKey"@,
        KeybdKey::OtherKey(_) => "OtherKey"@,
    }
}

/// The key without a code that `s` spells, if it spells one.
pub open spec fn plain_key_named(s: Seq<char>) -> Option<KeybdKey> {
    if s == "BackspaceKey"@ {
        Some(KeybdKey::BackspaceKey)
    } else if s == "TabKey"@ {
        Some(KeybdKey::TabKey)
    } else if s == "EnterKey"@ {
        Some(KeybdKey::EnterKey)
    } else if s == "EscapeKey"@ {
        Some(KeybdKey::EscapeKey)
    } else if s == "SpaceKey"@ {
        Some(KeybdKey::SpaceKey)
    } else if s == "HomeKey"@ {
        Some(KeybdKey::HomeKey)
    } else if s == "LeftKey"@ {
        Some(KeybdKey::LeftKey)
    } else if s == "UpKey"@ {
        Some(KeybdKey::UpKey)
    } else if s == "RightKey"@ {
        Some(KeybdKey::RightKey)
    } else if s == "DownKey"@ {
        Some(KeybdKey::DownKey)
    } else if s == "InsertKey"@ {
        Some(KeybdKey::InsertKey)
    } else if s == "DeleteKey"@ {
        Some(KeybdKey::DeleteKey)
    } else if s == "Numrow0Key"@ {
        Some(KeybdKey::Numrow0Key)
    } else if s == "Numrow1Key"@ {
        Some(KeybdKey::Numrow1Key)
    } else if s == "Numrow2Key"@ {
        Some(KeybdKey::Numrow2Key)
    } else if s == "Numrow3Key"@ {
        Some(KeybdKey::Numrow3Key)
    } else if s == "Numrow4Key"@ {
        Some(KeybdKey::Numrow4Key)
    } else if s == "Numrow5Key"@ {
        Some(KeybdKey::Numrow5Key)
    } else if s == "Numrow6Key"@ {
        Some(KeybdKey::Numrow6Key)
    } else if s == "Numrow7Key"@ {
        Some(KeybdKey::Numrow7Key)
    } else if s == "Numrow8Key"@ {
        Some(KeybdKey::Numrow8Key)
    } else if s == "Numrow9Key"@ {
        Some(KeybdKey::Numrow9Key)
    } else if s == "AKey"@ {
        Some(KeybdKey::AKey)
    } else if s == "BKey"@ {
        Some(KeybdKey::BKey)
    } else if s == "CKey"@ {
        Some(KeybdKey::CKey)
    } else if s == "DKey"@ {
        Some(KeybdKey::DKey)
    } else if s == "EKey"@ {
        Some(KeybdKey::EKey)
    } else if s == "FKey"@ {
        Some(KeybdKey::FKey)
    } else if s == "GKey"@ {
        Some(KeybdKey::GKey)
    } else if s == "HKey"@ {
        Some(KeybdKey::HKey)
    } else if s == "IKey"@ {
        Some(KeybdKey::IKey)
    } else if s == "JKey"@ {
        Some(KeybdKey::JKey)
    } else if s == "KKey"@ {
        Some(KeybdKey::KKey)
    } else if s == "LKey"@ {
        Some(KeybdKey::LKey)
    } else if s == "MKey"@ {
        Some(KeybdKey::MKey)
    } else if s == "NKey"@ {
        Some(KeybdKey::NKey)
    } else if s == "OKey"@ {
        Some(KeybdKey::OKey)
    } else if s == "PKey"@ {
        Some(KeybdKey::PKey)
    } else if s == "QKey"@ {
        Some(KeybdKey::QKey)
    } else if s == "RKey"@ {
        Some(KeybdKey::RKey)
    } else if s == "SKey"@ {
        Some(KeybdKey::SKey)
    } else if s == "TKey"@ {
        Some(KeybdKey::TKey)
    } else if s == "UKey"@ {
        Some(KeybdKey::UKey)
    } else if s == "VKey"@ {
        Some(KeybdKey::VKey)
    } else if s == "WKey"@ {
        Some(KeybdKey::WKey)
    } else if s == "XKey"@ {
        Some(KeybdKey::XKey)
    } else if s == "YKey"@ {
        Some(KeybdKey::YKey)
    } else if s == "ZKey"@ {
        Some(KeybdKey::ZKey)
    } else if s == "Numpad0Key"@ {
        Some(KeybdKey::Numpad0Key)
    } else if s == "Numpad1Key"@ {
        Some(KeybdKey::Numpad1Key)
    } else if s == "Numpad2Key"@ {
        Some(KeybdKey::Numpad2Key)
    } else if s == "Numpad3Key"@ {
        Some(KeybdKey::Numpad3Key)
    } else if s == "Numpad4Key"@ {
        Some(KeybdKey::Numpad4Key)
    } else if s == "Numpad5Key"@ {
        Some(KeybdKey::Numpad5Key)
    } else if s == "Numpad6Key"@ {
        Some(KeybdKey::Numpad6Key)
    } else if s == "Numpad7Key"@ {
        Some(KeybdKey::Numpad7Key)
    } else if s == "Numpad8Key"@ {
        Some(KeybdKey::Numpad8Key)
    } else if s == "Numpad9Key"@ {
        Some(KeybdKey::Numpad9Key)
    } else if s == "F1Key"@ {
        Some(KeybdKey::F1Key)
    } else if s == "F2Key"@ {
        Some(KeybdKey::F2Key)
    } else if s == "F3Key"@ {
        Some(KeybdKey::F3Key)
    } else if s == "F4Key"@ {
        Some(KeybdKey::F4Key)
    } else if s == "F5Key"@ {
        Some(KeybdKey::F5Key)
    } else if s == "F6Key"@ {
        Some(KeybdKey::F6Key)
    } else if s == "F7Key"@ {
        Some(KeybdKey::F7Key)
    } else if s == "F8Key"@ {
        Some(KeybdKey::F8Key)
    } else if s == "F9Key"@ {
        Some(KeybdKey::F9Key)
    } else if s == "F10Key"@ {
        Some(KeybdKey::F10Key)
    } else if s == "F11Key"@ {
        Some(KeybdKey::F11Key)
    } else if s == "F12Key"@ {
        Some(KeybdKey::F12Key)
    } else if s == "NumLockKey"@ {
        Some(KeybdKey::NumLockKey)
    } else if s == "ScrollLockKey"@ {
        Some(KeybdKey::ScrollLockKey)
    } else if s == "CapsLockKey"@ {
        Some(KeybdKey::CapsLockKey)
    } else if s == "LShiftKey"@ {
        Some(KeybdKey::LShiftKey)
    } else if s == "RShiftKey"@ {
        Some(KeybdKey::RShiftKey)
    } else if s == "LControlKey"@ {
        Some(KeybdKey::LControlKey)
    } else if s == "RControlKey"@ {
        Some(KeybdKey::RControlKey)
    } else {
        None
    }
}

impl MouseButton {
    /// The symbol that spells this button's variant.
    pub fn symbol(&self) -> (r: &'static str)
        ensures
            r@ == button_symbol(*self),
    {
        match self {
            MouseButton::LeftButton => "LeftButton",
            MouseButton::MiddleButton => "MiddleButton",
            MouseButton::RightButton => "RightButton",
            MouseButton::X1Button => "X1Button",
            MouseButton::X2Button => "X2Button",
            MouseButton::OtherButton(_) => "OtherButton",
        }
    }

    /// The button without a number that `s` spells.
    pub fn from_symbol(s: &str) -> (r: Option<MouseButton>)
        ensures
            r == plain_button_named(s@),
    {
        if str_eq(s, "LeftButton") {
            Some(MouseButton::LeftButton)
        } else if str_eq(s, "MiddleButton") {
            Some(MouseButton::MiddleButton)
        } else if str_eq(s, "RightButton") {
            Some(MouseButton::RightButton)
        } else if str_eq(s, "X1Button") {
            Some(MouseButton::X1Button)
        } else if str_eq(s, "X2Button") {
            Some(MouseButton::X2Button)
        } else {
            None
        }
    }
}

impl KeybdKey {
    /// The symbol that spells this key's variant.
    pub fn symbol(&self) -> (r: &'static str)
        ensures
            r@ == key_symbol(*self),
    {
        match self {
            KeybdKey::BackspaceKey => "BackspaceKey",
            KeybdKey::TabKey => "TabKey",
            KeybdKey::EnterKey => "EnterKey",
            KeybdKey::EscapeKey => "EscapeKey",
            KeybdKey::SpaceKey => "SpaceKey",
            KeybdKey::HomeKey => "HomeKey",
            KeybdKey::LeftKey => "LeftKey",
            KeybdKey::UpKey => "UpKey",
            KeybdKey::RightKey => "RightKey",
            KeybdKey::DownKey => "DownKey",
            KeybdKey::InsertKey => "InsertKey",
            KeybdKey::DeleteKey => "DeleteKey",
            KeybdKey::Numrow0Key => "Numrow0Key",
            KeybdKey::Numrow1Key => "Numrow1Key",
            KeybdKey::Numrow2Key => "Numrow2Key",
            KeybdKey::Numrow3Key => "Numrow3Key",
            KeybdKey::Numrow4Key => "Numrow4Key",
            KeybdKey::Numrow5Key => "Numrow5Key",
            KeybdKey::Numrow6Key => "Numrow6Key",
            KeybdKey::Numrow7Key => "Numrow7Key",
            KeybdKey::Numrow8Key => "Numrow8Key",
            KeybdKey::Numrow9Key => "Numrow9Key",
            KeybdKey::AKey => "AKey",
            KeybdKey::BKey => "BKey",
            KeybdKey::CKey => "CKey",
            KeybdKey::DKey => "DKey",
            KeybdKey::EKey => "EKey",
            KeybdKey::FKey => "FKey",
            KeybdKey::GKey => "GKey",
            KeybdKey::HKey => "HKey",
            KeybdKey::IKey => "IKey",
            KeybdKey::JKey => "JKey",
            KeybdKey::KKey => "KKey",
            KeybdKey::LKey => "LKey",
            KeybdKey::MKey => "MKey",
            KeybdKey::NKey => "NKey",
            KeybdKey::OKey => "OKey",
            KeybdKey::PKey => "PKey",
            KeybdKey::QKey => "QKey",
            KeybdKey::RKey => "RKey",
            KeybdKey::SKey => "SKey",
            KeybdKey::TKey => "TKey",
            KeybdKey::UKey => "UKey",
            KeybdKey::VKey => "VKey",
            KeybdKey::WKey => "WKey",
            KeybdKey::XKey => "XKey",
            KeybdKey::YKey => "YKey",
            KeybdKey::ZKey => "ZKey",
            KeybdKey::Numpad0Key => "Numpad0Key",
            KeybdKey::Numpad1Key => "Numpad1Key",
            KeybdKey::Numpad2Key => "Numpad2Key",
            KeybdKey::Numpad3Key => "Numpad3Key",
            KeybdKey::Numpad4Key => "Numpad4Key",
            KeybdKey::Numpad5Key => "Numpad5Key",
            KeybdKey::Numpad6Key => "Numpad6Key",
            KeybdKey::Numpad7Key => "Numpad7Key",
            KeybdKey::Numpad8Key => "Numpad8Key",
            KeybdKey::Numpad9Key => "Numpad9Key",
            KeybdKey::F1Key => "F1Key",
            KeybdKey::F2Key => "F2Key",
            KeybdKey::F3Key => "F3Key",
            KeybdKey::F4Key => "F4Key",
            KeybdKey::F5Key => "F5Key",
            KeybdKey::F6Key => "F6Key",
            KeybdKey::F7Key => "F7Key",
            KeybdKey::F8Key => "F8Key",
            KeybdKey::F9Key => "F9Key",
            KeybdKey::F10Key => "F10Key",
            KeybdKey::F11Key => "F11Key",
            KeybdKey::F12Key => "F12Key",
            KeybdKey::NumLockKey => "NumLockKey",
            KeybdKey::ScrollLockKey => "ScrollLockKey",
            KeybdKey::CapsLockKey => "CapsLockKey",
            KeybdKey::LShiftKey => "LShiftKey",
            KeybdKey::RShiftKey => "RShiftKey",
            KeybdKey::LControlKey => "LControlKey",
            KeybdKey::RControlKey => "RControlKey",
            KeybdKey::OtherKey(_) => "OtherKey",
        }
    }

    /// The key without a code that `s` spells.
    pub fn from_symbol(s: &str) -> (r: Option<KeybdKey>)
        ensures
            r == plain_key_named(s@),
    {
        if str_eq(s, "BackspaceKey") {
            Some(KeybdKey::BackspaceKey)
        } else if str_eq(s, "TabKey") {
            Some(KeybdKey::TabKey)
        } else if str_eq(s, "EnterKey") {
            Some(KeybdKey::EnterKey)
        } else if str_eq(s, "EscapeKey") {
            Some(KeybdKey::EscapeKey)
        } else if str_eq(s, "SpaceKey") {
            Some(KeybdKey::SpaceKey)
        } else if str_eq(s, "HomeKey") {
            Some(KeybdKey::HomeKey)
        } else if str_eq(s, "LeftKey") {
            Some(KeybdKey::LeftKey)
        } else if str_eq(s, "UpKey") {
            Some(KeybdKey::UpKey)
        } else if str_eq(s, "RightKey") {
            Some(KeybdKey::RightKey)
        } else if str_eq(s, "DownKey") {
            Some(KeybdKey::DownKey)
        } else if str_eq(s, "InsertKey") {
            Some(KeybdKey::InsertKey)
        } else if str_eq(s, "DeleteKey") {
            Some(KeybdKey::DeleteKey)
        } else if str_eq(s, "Numrow0Key") {
            Some(KeybdKey::Numrow0Key)
        } else if str_eq(s, "Numrow1Key") {
            Some(KeybdKey::Numrow1Key)
        } else if str_eq(s, "Numrow2Key") {
            Some(KeybdKey::Numrow2Key)
        } else if str_eq(s, "Numrow3Key") {
            Some(KeybdKey::Numrow3Key)
        } else if str_eq(s, "Numrow4Key") {
            Some(KeybdKey::Numrow4Key)
        } else if str_eq(s, "Numrow5Key") {
            Some(KeybdKey::Numrow5Key)
        } else if str_eq(s, "Numrow6Key") {
            Some(KeybdKey::Numrow6Key)
        } else if str_eq(s, "Numrow7Key") {
            Some(KeybdKey::Numrow7Key)
        } else if str_eq(s, "Numrow8Key") {
            Some(KeybdKey::Numrow8Key)
        } else if str_eq(s, "Numrow9Key") {
            Some(KeybdKey::Numrow9Key)
        } else if str_eq(s, "AKey") {
            Some(KeybdKey::AKey)
        } else if str_eq(s, "BKey") {
            Some(KeybdKey::BKey)
        } else if str_eq(s, "CKey") {
            Some(KeybdKey::CKey)
        } else if str_eq(s, "DKey") {
            Some(KeybdKey::DKey)
        } else if str_eq(s, "EKey") {
            Some(KeybdKey::EKey)
        } else if str_eq(s, "FKey") {
            Some(KeybdKey::FKey)
        } else if str_eq(s, "GKey") {
            Some(KeybdKey::GKey)
        } else if str_eq(s, "HKey") {
            Some(KeybdKey::HKey)
        } else if str_eq(s, "IKey") {
            Some(KeybdKey::IKey)
        } else if str_eq(s, "JKey") {
            Some(KeybdKey::JKey)
        } else if str_eq(s, "KKey") {
            Some(KeybdKey::KKey)
        } else if str_eq(s, "LKey") {
            Some(KeybdKey::LKey)
        } else if str_eq(s, "MKey") {
            Some(KeybdKey::MKey)
        } else if str_eq(s, "NKey") {
            Some(KeybdKey::NKey)
        } else if str_eq(s, "OKey") {
            Some(KeybdKey::OKey)
        } else if str_eq(s, "PKey") {
            Some(KeybdKey::PKey)
        } else if str_eq(s, "QKey") {
            Some(KeybdKey::QKey)
        } else if str_eq(s, "RKey") {
            Some(KeybdKey::RKey)
        } else if str_eq(s, "SKey") {
            Some(KeybdKey::SKey)
        } else if str_eq(s, "TKey") {
            Some(KeybdKey::TKey)
        } else if str_eq(s, "UKey") {
            Some(KeybdKey::UKey)
        } else if str_eq(s, "VKey") {
            Some(KeybdKey::VKey)
        } else if str_eq(s, "WKey") {
            Some(KeybdKey::WKey)
        } else if str_eq(s, "XKey") {
            Some(KeybdKey::XKey)
        } else if str_eq(s, "YKey") {
            Some(KeybdKey::YKey)
        } else if str_eq(s, "ZKey") {
            Some(KeybdKey::ZKey)
        } else if str_eq(s, "Numpad0Key") {
            Some(KeybdKey::Numpad0Key)
        } else if str_eq(s, "Numpad1Key") {
            Some(KeybdKey::Numpad1Key)
        } else if str_eq(s, "Numpad2Key") {
            Some(KeybdKey::Numpad2Key)
        } else if str_eq(s, "Numpad3Key") {
            Some(KeybdKey::Numpad3Key)
        } else if str_eq(s, "Numpad4Key") {
            Some(KeybdKey::Numpad4Key)
        } else if str_eq(s, "Numpad5Key") {
            Some(KeybdKey::Numpad5Key)
        } else if str_eq(s, "Numpad6Key") {
            Some(KeybdKey::Numpad6Key)
        } else if str_eq(s, "Numpad7Key") {
            Some(KeybdKey::Numpad7Key)
        } else if str_eq(s, "Numpad8Key") {
            Some(KeybdKey::Numpad8Key)
        } else if str_eq(s, "Numpad9Key") {
            Some(KeybdKey::Numpad9Key)
        } else if str_eq(s, "F1Key") {
            Some(KeybdKey::F1Key)
        } else if str_eq(s, "F2Key") {
            Some(KeybdKey::F2Key)
        } else if str_eq(s, "F3Key") {
            Some(KeybdKey::F3Key)
        } else if str_eq(s, "F4Key") {
            Some(KeybdKey::F4Key)
        } else if str_eq(s, "F5Key") {
            Some(KeybdKey::F5Key)
        } else if str_eq(s, "F6Key") {
            Some(KeybdKey::F6Key)
        } else if str_eq(s, "F7Key") {
            Some(KeybdKey::F7Key)
        } else if str_eq(s, "F8Key") {
            Some(KeybdKey::F8Key)
        } else if str_eq(s, "F9Key") {
            Some(KeybdKey::F9Key)
        } else if str_eq(s, "F10Key") {
            Some(KeybdKey::F10Key)
        } else if str_eq(s, "F11Key") {
            Some(KeybdKey::F11Key)
        } else if str_eq(s, "F12Key") {
            Some(KeybdKey::F12Key)
        } else if str_eq(s, "NumLockKey") {
            Some(KeybdKey::NumLockKey)
        } else if str_eq(s, "ScrollLockKey") {
            Some(KeybdKey::ScrollLockKey)
        } else if str_eq(s, "CapsLockKey") {
            Some(KeybdKey::CapsLockKey)
        } else if str_eq(s, "LShiftKey") {
            Some(KeybdKey::LShiftKey)
        } else if str_eq(s, "RShiftKey") {
            Some(KeybdKey::RShiftKey)
        } else if str_eq(s, "LControlKey") {
            Some(KeybdKey::LControlKey)
        } else if str_eq(s, "RControlKey") {
            Some(KeybdKey::RControlKey)
        } else {
            None
        }
    }
}

/// The length of a string and its second character: enough to tell any two
/// button symbols apart.
pub open spec fn button_mark(s: Seq<char>) -> (nat, char) {
    (s.len(), s[1])
}

/// The length of a string, its first and fourth characters and the fourth from
/// its end: enough to tell any two key symbols apart.
pub open spec fn key_mark(s: Seq<char>) -> (nat, char, char, char) {
    (s.len(), s[0], s[3], s[s.len() - 4])
}

/// The mark of every button symbol.
pub proof fn lemma_button_marks()
    ensures
        button_mark("LeftButton"@) == (10nat, 'e'),
        button_mark("MiddleButton"@) == (12nat, 'i'),
        button_mark("RightButton"@) == (11nat, 'i'),
        button_mark("X1Button"@) == (8nat, '1'),
        button_mark("X2Button"@) == (8nat, '2'),
        button_mark("OtherButton"@) == (11nat, 't'),
{
    reveal_strlit("LeftButton");
    reveal_strlit("MiddleButton");
    reveal_strlit("RightButton");
    reveal_strlit("X1Button");
    reveal_strlit("X2Button");
    reveal_strlit("OtherButton");
}

/// The mark of every key symbol.
pub proof fn lemma_key_marks()
    ensures
        key_mark("BackspaceKey"@) == (12nat, 'B', 'k', 'e'),
        key_mark("TabKey"@) == (6nat, 'T', 'K', 'b'),
        key_mark("EnterKey"@) == (8nat, 'E', 'e', 'r'),
        key_mark("EscapeKey"@) == (9nat, 'E', 'a', 'e'),
        key_mark("SpaceKey"@) == (8nat, 'S', 'c', 'e'),
        key_mark("HomeKey"@) == (7nat, 'H', 'e', 'e'),
        key_mark("LeftKey"@) == (7nat, 'L', 't', 't'),
        key_mark("UpKey"@) == (5nat, 'U', 'e', 'p'),
        key_mark("RightKey"@) == (8nat, 'R', 'h', 't'),
        key_mark("DownKey"@) == (7nat, 'D', 'n', 'n'),
        key_mark("InsertKey"@) == (9nat, 'I', 'e', 't'),
        key_mark("DeleteKey"@) == (9nat, 'D', 'e', 'e'),
        key_mark("Numrow0Key"@) == (10nat, 'N', 'r', '0'),
        key_mark("Numrow1Key"@) == (10nat, 'N', 'r', '1'),
        key_mark("Numrow2Key"@) == (10nat, 'N', 'r', '2'),
        key_mark("Numrow3Key"@) == (10nat, 'N', 'r', '3'),
        key_mark("Numrow4Key"@) == (10nat, 'N', 'r', '4'),
        key_mark("Numrow5Key"@) == (10nat, 'N', 'r', '5'),
        key_mark("Numrow6Key"@) == (10nat, 'N', 'r', '6'),
        key_mark("Numrow7Key"@) == (10nat, 'N', 'r', '7'),
        key_mark("Numrow8Key"@) == (10nat, 'N', 'r', '8'),
        key_mark("Numrow9Key"@) == (10nat, 'N', 'r', '9'),
        key_mark("AKey"@) == (4nat, 'A', 'y', 'A'),
        key_mark("BKey"@) == (4nat, 'B', 'y', 'B'),
        key_mark("CKey"@) == (4nat, 'C', 'y', 'C'),
        key_mark("DKey"@) == (4nat, 'D', 'y', 'D'),
        key_mark("EKey"@) == (4nat, 'E', 'y', 'E'),
        key_mark("FKey"@) == (4nat, 'F', 'y', 'F'),
        key_mark("GKey"@) == (4nat, 'G', 'y', 'G'),
        key_mark("HKey"@) == (4nat, 'H', 'y', 'H'),
        key_mark("IKey"@) == (4nat, 'I', 'y', 'I'),
        key_mark("JKey"@) == (4nat, 'J', 'y', 'J'),
        key_mark("KKey"@) == (4nat, 'K', 'y', 'K'),
        key_mark("LKey"@) == (4nat, 'L', 'y', 'L'),
        key_mark("MKey"@) == (4nat, 'M', 'y', 'M'),
        key_mark("NKey"@) == (4nat, 'N', 'y', 'N'),
        key_mark("OKey"@) == (4nat, 'O', 'y', 'O'),
        key_mark("PKey"@) == (4nat, 'P', 'y', 'P'),
        key_mark("QKey"@) == (4nat, 'Q', 'y', 'Q'),
        key_mark("RKey"@) == (4nat, 'R', 'y', 'R'),
        key_mark("SKey"@) == (4nat, 'S', 'y', 'S'),
        key_mark("TKey"@) == (4nat, 'T', 'y', 'T'),
        key_mark("UKey"@) == (4nat, 'U', 'y', 'U'),
        key_mark("VKey"@) == (4nat, 'V', 'y', 'V'),
        key_mark("WKey"@) == (4nat, 'W', 'y', 'W'),
        key_mark("XKey"@) == (4nat, 'X', 'y', 'X'),
        key_mark("YKey"@) == (4nat, 'Y', 'y', 'Y'),
        key_mark("ZKey"@) == (4nat, 'Z', 'y', 'Z'),
        key_mark("Numpad0Key"@) == (10nat, 'N', 'p', '0'),
        key_mark("Numpad1Key"@) == (10nat, 'N', 'p', '1'),
        key_mark("Numpad2Key"@) == (10nat, 'N', 'p', '2'),
        key_mark("Numpad3Key"@) == (10nat, 'N', 'p', '3'),
        key_mark("Numpad4Key"@) == (10nat, 'N', 'p', '4'),
        key_mark("Numpad5Key"@) == (10nat, 'N', 'p', '5'),
        key_mark("Numpad6Key"@) == (10nat, 'N', 'p', '6'),
        key_mark("Numpad7Key"@) == (10nat, 'N', 'p', '7'),
        key_mark("Numpad8Key"@) == (10nat, 'N', 'p', '8'),
        key_mark("Numpad9Key"@) == (10nat, 'N', 'p', '9'),
        key_mark("F1Key"@) == (5nat, 'F', 'e', '1'),
        key_mark("F2Key"@) == (5nat, 'F', 'e', '2'),
        key_mark("F3Key"@) == (5nat, 'F', 'e', '3'),
        key_mark("F4Key"@) == (5nat, 'F', 'e', '4'),
        key_mark("F5Key"@) == (5nat, 'F', 'e', '5'),
        key_mark("F6Key"@) == (5nat, 'F', 'e', '6'),
        key_mark("F7Key"@) == (5nat, 'F', 'e', '7'),
        key_mark("F8Key"@) == (5nat, 'F', 'e', '8'),
        key_mark("F9Key"@) == (5nat, 'F', 'e', '9'),
        key_mark("F10Key"@) == (6nat, 'F', 'K', '0'),
        key_mark("F11Key"@) == (6nat, 'F', 'K', '1'),
        key_mark("F12Key"@) == (6nat, 'F', 'K', '2'),
        key_mark("NumLockKey"@) == (10nat, 'N', 'L', 'k'),
        key_mark("ScrollLockKey"@) == (13nat, 'S', 'o', 'k'),
        key_mark("CapsLockKey"@) == (11nat, 'C', 's', 'k'),
        key_mark("LShiftKey"@) == (9nat, 'L', 'i', 't'),
        key_mark("RShiftKey"@) == (9nat, 'R', 'i', 't'),
        key_mark("LControlKey"@) == (11nat, 'L', 'n', 'l'),
        key_mark("RControlKey"@) == (11nat, 'R', 'n', 'l'),
        key_mark("OtherKey"@) == (8nat, 'O', 'e', 'r'),
{
    reveal_strlit("BackspaceKey");
    reveal_strlit("TabKey");
    reveal_strlit("EnterKey");
    reveal_strlit("EscapeKey");
    reveal_strlit("SpaceKey");
    reveal_strlit("HomeKey");
    reveal_strlit("LeftKey");
    reveal_strlit("UpKey");
    reveal_strlit("RightKey");
    reveal_strlit("DownKey");
    reveal_strlit("InsertKey");
    reveal_strlit("DeleteKey");
    reveal_strlit("Numrow0Key");
    reveal_strlit("Numrow1Key");
    reveal_strlit("Numrow2Key");
    reveal_strlit("Numrow3Key");
    reveal_strlit("Numrow4Key");
    reveal_strlit("Numrow5Key");
    reveal_strlit("Numrow6Key");
    reveal_strlit("Numrow7Key");
    reveal_strlit("Numrow8Key");
    reveal_strlit("Numrow9Key");
    reveal_strlit("AKey");
    reveal_strlit("BKey");
    reveal_strlit("CKey");
    reveal_strlit("DKey");
    reveal_strlit("EKey");
    reveal_strlit("FKey");
    reveal_strlit("GKey");
    reveal_strlit("HKey");
    reveal_strlit("IKey");
    reveal_strlit("JKey");
    reveal_strlit("KKey");
    reveal_strlit("LKey");
    reveal_strlit("MKey");
    reveal_strlit("NKey");
    reveal_strlit("OKey");
    reveal_strlit("PKey");
    reveal_strlit("QKey");
    reveal_strlit("RKey");
    reveal_strlit("SKey");
    reveal_strlit("TKey");
    reveal_strlit("UKey");
    reveal_strlit("VKey");
    reveal_strlit("WKey");
    reveal_strlit("XKey");
    reveal_strlit("YKey");
    reveal_strlit("ZKey");
    reveal_strlit("Numpad0Key");
    reveal_strlit("Numpad1Key");
    reveal_strlit("Numpad2Key");
    reveal_strlit("Numpad3Key");
    reveal_strlit("Numpad4Key");
    reveal_strlit("Numpad5Key");
    reveal_strlit("Numpad6Key");
    reveal_strlit("Numpad7Key");
    reveal_strlit("Numpad8Key");
    reveal_strlit("Numpad9Key");
    reveal_strlit("F1Key");
    reveal_strlit("F2Key");
    reveal_strlit("F3Key");
    reveal_strlit("F4Key");
    reveal_strlit("F5Key");
    reveal_strlit("F6Key");
    reveal_strlit("F7Key");
    reveal_strlit("F8Key");
    reveal_strlit("F9Key");
    reveal_strlit("F10Key");
    reveal_strlit("F11Key");
    reveal_strlit("F12Key");
    reveal_strlit("NumLockKey");
    reveal_strlit("ScrollLockKey");
    reveal_strlit("CapsLockKey");
    reveal_strlit("LShiftKey");
    reveal_strlit("RShiftKey");
    reveal_strlit("LControlKey");
    reveal_strlit("RControlKey");
    reveal_strlit("OtherKey");
}

/// Every key symbol ends in `y` and every button symbol in `n`, so that no
/// string is both.
pub proof fn lemma_symbol_endings(s: Seq<char>)
    ensures
        plain_key_named(s) is Some || s == "OtherKey"@ ==> s.len() > 0 && s.last() == 'y',
        plain_button_named(s) is Some || s == "OtherButton"@ ==> s.len() > 0 && s.last() == 'n',
{
    reveal_strlit("BackspaceKey");
    reveal_strlit("TabKey");
    reveal_strlit("EnterKey");
    reveal_strlit("EscapeKey");
    reveal_strlit("SpaceKey");
    reveal_strlit("HomeKey");
    reveal_strlit("LeftKey");
    reveal_strlit("UpKey");
    reveal_strlit("RightKey");
    reveal_strlit("DownKey");
    reveal_strlit("InsertKey");
    reveal_strlit("DeleteKey");
    reveal_strlit("Numrow0Key");
    reveal_strlit("Numrow1Key");
    reveal_strlit("Numrow2Key");
    reveal_strlit("Numrow3Key");
    reveal_strlit("Numrow4Key");
    reveal_strlit("Numrow5Key");
    reveal_strlit("Numrow6Key");
    reveal_strlit("Numrow7Key");
    reveal_strlit("Numrow8Key");
    reveal_strlit("Numrow9Key");
    reveal_strlit("AKey");
    reveal_strlit("BKey");
    reveal_strlit("CKey");
    reveal_strlit("DKey");
    reveal_strlit("EKey");
    reveal_strlit("FKey");
    reveal_strlit("GKey");
    reveal_strlit("HKey");
    reveal_strlit("IKey");
    reveal_strlit("JKey");
    reveal_strlit("KKey");
    reveal_strlit("LKey");
    reveal_strlit("MKey");
    reveal_strlit("NKey");
    reveal_strlit("OKey");
    reveal_strlit("PKey");
    reveal_strlit("QKey");
    reveal_strlit("RKey");
    reveal_strlit("SKey");
    reveal_strlit("TKey");
    reveal_strlit("UKey");
    reveal_strlit("VKey");
    reveal_strlit("WKey");
    reveal_strlit("XKey");
    reveal_strlit("YKey");
    reveal_strlit("ZKey");
    reveal_strlit("Numpad0Key");
    reveal_strlit("Numpad1Key");
    reveal_strlit("Numpad2Key");
    reveal_strlit("Numpad3Key");
    reveal_strlit("Numpad4Key");
    reveal_strlit("Numpad5Key");
    reveal_strlit("Numpad6Key");
    reveal_strlit("Numpad7Key");
    reveal_strlit("Numpad8Key");
    reveal_strlit("Numpad9Key");
    reveal_strlit("F1Key");
    reveal_strlit("F2Key");
    reveal_strlit("F3Key");
    reveal_strlit("F4Key");
    reveal_strlit("F5Key");
    reveal_strlit("F6Key");
    reveal_strlit("F7Key");
    reveal_strlit("F8Key");
    reveal_strlit("F9Key");
    reveal_strlit("F10Key");
    reveal_strlit("F11Key");
    reveal_strlit("F12Key");
    reveal_strlit("NumLockKey");
    reveal_strlit("ScrollLockKey");
    reveal_strlit("CapsLockKey");
    reveal_strlit("LShiftKey");
    reveal_strlit("RShiftKey");
    reveal_strlit("LControlKey");
    reveal_strlit("RControlKey");
    reveal_strlit("OtherKey");
    reveal_strlit("LeftButton");
    reveal_strlit("MiddleButton");
    reveal_strlit("RightButton");
    reveal_strlit("X1Button");
    reveal_strlit("X2Button");
    reveal_strlit("OtherButton");
}

/// A button symbol spells the button it was taken from, unless that button
/// carries a number.
pub proof fn law_button_symbol_names_its_button(b: MouseButton)
    ensures
        plain_button_named(button_symbol(b)) == (if b is OtherButton {
            None
        } else {
            Some(b)
        }),
{
    lemma_button_marks();
}

/// A key symbol spells the key it was taken from, unless that key carries a
/// code.
pub proof fn law_key_symbol_names_its_key(k: KeybdKey)
    ensures
        plain_key_named(key_symbol(k)) == (if k is OtherKey {
            None
        } else {
            Some(k)
        }),
{
    lemma_key_marks();
}

} // verus!
