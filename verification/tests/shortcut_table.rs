use midway::app_update::Message;
use midway::composer_update::RequestComposerMessage;
use midway::keyboard::KeyboardMessage;
use midway::palette::PaletteMessage;
use midway::shortcuts::{shortcut_message, KeyPress, PressedKey};
use midway::workspace_panel::WorkspaceMessage;

fn chr(text: &str) -> PressedKey {
    PressedKey::Character(text.to_string())
}

fn ctrl(key: PressedKey) -> KeyPress {
    KeyPress { key, command: true, shift: false, alt: false, no_modifiers: false }
}

fn ctrl_shift(key: PressedKey) -> KeyPress {
    KeyPress { key, command: true, shift: true, alt: false, no_modifiers: false }
}

fn alt(key: PressedKey) -> KeyPress {
    KeyPress { key, command: false, shift: false, alt: true, no_modifiers: false }
}

fn bare(key: PressedKey) -> KeyPress {
    KeyPress { key, command: false, shift: false, alt: false, no_modifiers: true }
}

#[test]
fn ctrl_k_toggles_the_palette_with_or_without_shift() {
    assert!(matches!(shortcut_message(&ctrl(chr("k"))), Some(Message::Palette(PaletteMessage::Toggled))));
    assert!(matches!(shortcut_message(&ctrl(chr("K"))), Some(Message::Palette(PaletteMessage::Toggled))));
    assert!(matches!(
        shortcut_message(&ctrl_shift(chr("K"))),
        Some(Message::Palette(PaletteMessage::Toggled))
    ));
}

#[test]
fn ctrl_shift_letters_open_tab_preview_and_reopen() {
    assert!(matches!(
        shortcut_message(&ctrl_shift(chr("N"))),
        Some(Message::Keyboard(KeyboardMessage::NewBlankTabRequested))
    ));
    assert!(matches!(
        shortcut_message(&ctrl_shift(chr("p"))),
        Some(Message::RequestComposer(RequestComposerMessage::SettingsPressed))
    ));
    assert!(matches!(
        shortcut_message(&ctrl_shift(chr("T"))),
        Some(Message::RequestComposer(RequestComposerMessage::ClosedTabReopened))
    ));
    assert!(shortcut_message(&ctrl_shift(chr("s"))).is_none());
    assert!(shortcut_message(&ctrl_shift(PressedKey::Enter)).is_none());
}

#[test]
fn ctrl_keys_send_save_close_and_fold() {
    assert!(matches!(
        shortcut_message(&ctrl(PressedKey::Enter)),
        Some(Message::RequestComposer(RequestComposerMessage::SendPressed))
    ));
    assert!(matches!(
        shortcut_message(&ctrl(chr("s"))),
        Some(Message::Keyboard(KeyboardMessage::SaveRequested))
    ));
    assert!(matches!(
        shortcut_message(&ctrl(chr("W"))),
        Some(Message::Keyboard(KeyboardMessage::CloseActiveTabShortcut))
    ));
    assert!(matches!(
        shortcut_message(&ctrl(chr("."))),
        Some(Message::Workspace(WorkspaceMessage::ToggleCollapsed))
    ));
    assert!(shortcut_message(&ctrl(chr("x"))).is_none());
    assert!(shortcut_message(&ctrl(chr("ss"))).is_none());
}

#[test]
fn alt_digits_go_to_tabs_one_to_nine() {
    assert!(matches!(
        shortcut_message(&alt(chr("1"))),
        Some(Message::Keyboard(KeyboardMessage::GoToTabShortcut { index: 0 }))
    ));
    assert!(matches!(
        shortcut_message(&alt(chr("9"))),
        Some(Message::Keyboard(KeyboardMessage::GoToTabShortcut { index: 8 }))
    ));
    assert!(matches!(
        shortcut_message(&alt(chr("+3"))),
        Some(Message::Keyboard(KeyboardMessage::GoToTabShortcut { index: 2 }))
    ));
    assert!(shortcut_message(&alt(chr("0"))).is_none());
    assert!(shortcut_message(&alt(chr("a"))).is_none());
    assert!(shortcut_message(&alt(chr("12"))).is_none());
    assert!(shortcut_message(&alt(chr("+"))).is_none());
}

#[test]
fn escape_without_modifiers_closes_the_top_overlay() {
    assert!(matches!(
        shortcut_message(&bare(PressedKey::Escape)),
        Some(Message::Keyboard(KeyboardMessage::EscapePressed))
    ));
    assert!(shortcut_message(&bare(chr("k"))).is_none());
    let shifted = KeyPress { key: PressedKey::Escape, command: false, shift: true, alt: false, no_modifiers: false };
    assert!(shortcut_message(&shifted).is_none());
    assert!(shortcut_message(&bare(PressedKey::Other)).is_none());
}
