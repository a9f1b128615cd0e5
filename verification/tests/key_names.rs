use mousepage::keys::{KeybdKey, MouseButton};
use mousepage::token::{decode_name, encode_keys, ActionDescriptor};

fn plain_keys() -> Vec<(KeybdKey, &'static str)> {
    vec![
        (KeybdKey::BackspaceKey, "BackspaceKey"),
        (KeybdKey::TabKey, "TabKey"),
        (KeybdKey::EnterKey, "EnterKey"),
        (KeybdKey::EscapeKey, "EscapeKey"),
        (KeybdKey::SpaceKey, "SpaceKey"),
        (KeybdKey::HomeKey, "HomeKey"),
        (KeybdKey::LeftKey, "LeftKey"),
        (KeybdKey::UpKey, "UpKey"),
        (KeybdKey::RightKey, "RightKey"),
        (KeybdKey::DownKey, "DownKey"),
        (KeybdKey::InsertKey, "InsertKey"),
        (KeybdKey::DeleteKey, "DeleteKey"),
        (KeybdKey::Numrow0Key, "Numrow0Key"),
        (KeybdKey::Numrow1Key, "Numrow1Key"),
        (KeybdKey::Numrow2Key, "Numrow2Key"),
        (KeybdKey::Numrow3Key, "Numrow3Key"),
        (KeybdKey::Numrow4Key, "Numrow4Key"),
        (KeybdKey::Numrow5Key, "Numrow5Key"),
        (KeybdKey::Numrow6Key, "Numrow6Key"),
        (KeybdKey::Numrow7Key, "Numrow7Key"),
        (KeybdKey::Numrow8Key, "Numrow8Key"),
        (KeybdKey::Numrow9Key, "Numrow9Key"),
        (KeybdKey::AKey, "AKey"),
        (KeybdKey::BKey, "BKey"),
        (KeybdKey::CKey, "CKey"),
        (KeybdKey::DKey, "DKey"),
        (KeybdKey::EKey, "EKey"),
        (KeybdKey::FKey, "FKey"),
        (KeybdKey::GKey, "GKey"),
        (KeybdKey::HKey, "HKey"),
        (KeybdKey::IKey, "IKey"),
        (KeybdKey::JKey, "JKey"),
        (KeybdKey::KKey, "KKey"),
        (KeybdKey::LKey, "LKey"),
        (KeybdKey::MKey, "MKey"),
        (KeybdKey::NKey, "NKey"),
        (KeybdKey::OKey, "OKey"),
        (KeybdKey::PKey, "PKey"),
        (KeybdKey::QKey, "QKey"),
        (KeybdKey::RKey, "RKey"),
        (KeybdKey::SKey, "SKey"),
        (KeybdKey::TKey, "TKey"),
        (KeybdKey::UKey, "UKey"),
        (KeybdKey::VKey, "VKey"),
        (KeybdKey::WKey, "WKey"),
        (KeybdKey::XKey, "XKey"),
        (KeybdKey::YKey, "YKey"),
        (KeybdKey::ZKey, "ZKey"),
        (KeybdKey::Numpad0Key, "Numpad0Key"),
        (KeybdKey::Numpad1Key, "Numpad1Key"),
        (KeybdKey::Numpad2Key, "Numpad2Key"),
        (KeybdKey::Numpad3Key, "Numpad3Key"),
        (KeybdKey::Numpad4Key, "Numpad4Key"),
        (KeybdKey::Numpad5Key, "Numpad5Key"),
        (KeybdKey::Numpad6Key, "Numpad6Key"),
        (KeybdKey::Numpad7Key, "Numpad7Key"),
        (KeybdKey::Numpad8Key, "Numpad8Key"),
        (KeybdKey::Numpad9Key, "Numpad9Key"),
        (KeybdKey::F1Key, "F1Key"),
        (KeybdKey::F2Key, "F2Key"),
        (KeybdKey::F3Key, "F3Key"),
        (KeybdKey::F4Key, "F4Key"),
        (KeybdKey::F5Key, "F5Key"),
        (KeybdKey::F6Key, "F6Key"),
        (KeybdKey::F7Key, "F7Key"),
        (KeybdKey::F8Key, "F8Key"),
        (KeybdKey::F9Key, "F9Key"),
        (KeybdKey::F10Key, "F10Key"),
        (KeybdKey::F11Key, "F11Key"),
        (KeybdKey::F12Key, "F12Key"),
        (KeybdKey::NumLockKey, "NumLockKey"),
        (KeybdKey::ScrollLockKey, "ScrollLockKey"),
        (KeybdKey::CapsLockKey, "CapsLockKey"),
        (KeybdKey::LShiftKey, "LShiftKey"),
        (KeybdKey::RShiftKey, "RShiftKey"),
        (KeybdKey::LControlKey, "LControlKey"),
        (KeybdKey::RControlKey, "RControlKey"),
    ]
}

#[test]
fn every_key_has_its_symbol() {
    let keys = plain_keys();
    assert_eq!(keys.len(), 77);
    for (key, name) in keys {
        assert_eq!(key.symbol(), name);
        assert_eq!(KeybdKey::from_symbol(name), Some(key));
    }
    assert_eq!(KeybdKey::OtherKey(5).symbol(), "OtherKey");
    assert_eq!(KeybdKey::from_symbol("OtherKey"), None);
    assert_eq!(KeybdKey::from_symbol("akey"), None);
    assert_eq!(KeybdKey::from_symbol("AKeys"), None);
    assert_eq!(KeybdKey::from_symbol(""), None);
    assert_eq!(KeybdKey::from_symbol("LeftButton"), None);
}

#[test]
fn every_button_has_its_symbol() {
    let buttons = [
        (MouseButton::LeftButton, "LeftButton"),
        (MouseButton::MiddleButton, "MiddleButton"),
        (MouseButton::RightButton, "RightButton"),
        (MouseButton::X1Button, "X1Button"),
        (MouseButton::X2Button, "X2Button"),
    ];
    for (button, name) in buttons {
        assert_eq!(button.symbol(), name);
        assert_eq!(MouseButton::from_symbol(name), Some(button));
    }
    assert_eq!(MouseButton::OtherButton(1).symbol(), "OtherButton");
    assert_eq!(MouseButton::from_symbol("OtherButton"), None);
    assert_eq!(MouseButton::from_symbol("LeftKey"), None);
    assert_eq!(MouseButton::from_symbol("Leftbutton"), None);
}

#[test]
fn a_chord_of_every_key_reads_back() {
    let keys: Vec<KeybdKey> = plain_keys().into_iter().map(|(key, _)| key).collect();
    let name = encode_keys(&keys).unwrap();
    assert!(name.starts_with("(BackspaceKey TabKey "));
    assert!(name.ends_with(" LControlKey RControlKey)"));
    assert_eq!(decode_name(&name), Some(ActionDescriptor::KeyChord(keys)));
}
