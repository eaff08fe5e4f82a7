//! Keyboard-to-message bindings.

use noctua::message::{handle_key_press, AppMessage, KeyInput, KeyModifiers};

fn no_mods() -> KeyModifiers {
    KeyModifiers {
        control: false,
        shift: false,
        alt: false,
        logo: false,
    }
}

#[test]
fn bare_arrows_navigate() {
    assert!(matches!(
        handle_key_press(KeyInput::ArrowRight, no_mods()),
        Some(AppMessage::NextDocument)
    ));
    assert!(matches!(
        handle_key_press(KeyInput::ArrowLeft, no_mods()),
        Some(AppMessage::PrevDocument)
    ));
    assert!(handle_key_press(KeyInput::ArrowUp, no_mods()).is_none());
}

#[test]
fn control_arrows_pan() {
    let ctrl = KeyModifiers {
        control: true,
        ..no_mods()
    };
    assert!(matches!(
        handle_key_press(KeyInput::ArrowLeft, ctrl),
        Some(AppMessage::PanLeft)
    ));
    assert!(matches!(
        handle_key_press(KeyInput::ArrowDown, ctrl),
        Some(AppMessage::PanDown)
    ));
    assert!(handle_key_press(KeyInput::Character('h'), ctrl).is_none());
}

#[test]
fn letters_bind_transforms_and_zoom() {
    assert!(matches!(
        handle_key_press(KeyInput::Character('h'), no_mods()),
        Some(AppMessage::FlipHorizontal)
    ));
    assert!(matches!(
        handle_key_press(KeyInput::Character('V'), no_mods()),
        Some(AppMessage::FlipVertical)
    ));
    assert!(matches!(
        handle_key_press(KeyInput::Character('r'), no_mods()),
        Some(AppMessage::RotateCW)
    ));
    let shift = KeyModifiers {
        shift: true,
        ..no_mods()
    };
    assert!(matches!(
        handle_key_press(KeyInput::Character('R'), shift),
        Some(AppMessage::RotateCCW)
    ));
    assert!(matches!(
        handle_key_press(KeyInput::Character('+'), no_mods()),
        Some(AppMessage::ZoomIn)
    ));
    assert!(matches!(
        handle_key_press(KeyInput::Character('='), no_mods()),
        Some(AppMessage::ZoomIn)
    ));
    assert!(matches!(
        handle_key_press(KeyInput::Character('-'), no_mods()),
        Some(AppMessage::ZoomOut)
    ));
    assert!(matches!(
        handle_key_press(KeyInput::Character('1'), no_mods()),
        Some(AppMessage::ZoomReset)
    ));
    assert!(matches!(
        handle_key_press(KeyInput::Character('0'), no_mods()),
        Some(AppMessage::PanReset)
    ));
    assert!(matches!(
        handle_key_press(KeyInput::Character('w'), no_mods()),
        Some(AppMessage::SetAsWallpaper)
    ));
    assert!(handle_key_press(KeyInput::Character('z'), no_mods()).is_none());
}

#[test]
fn command_modifiers_suppress_bindings() {
    let alt = KeyModifiers {
        alt: true,
        ..no_mods()
    };
    assert!(handle_key_press(KeyInput::Character('h'), alt).is_none());
    let logo = KeyModifiers {
        logo: true,
        ..no_mods()
    };
    assert!(handle_key_press(KeyInput::ArrowRight, logo).is_none());
}
