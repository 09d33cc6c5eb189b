//! Which key presses are shortcuts, and the message each one sends.

use vstd::prelude::*;
use crate::app_update::Message;
use crate::composer_update::RequestComposerMessage;
use crate::keyboard::KeyboardMessage;
use crate::palette::PaletteMessage;
use crate::workspace_panel::WorkspaceMessage;

verus! {

/// The key of a key press, as far as the shortcuts tell keys apart.
#[derive(Debug)]
pub enum PressedKey {
    /// A key that types text: the text it types.
    Character(String),
    Enter,
    Escape,
    Other,
}

/// A key press and the modifiers held with it. `command` is Ctrl, or Cmd
/// on macOS; `no_modifiers` holds when no modifier at all is held.
#[derive(Debug)]
pub struct KeyPress {
    pub key: PressedKey,
    pub command: bool,
    pub shift: bool,
    pub alt: bool,
    pub no_modifiers: bool,
}

/// `s` is the one letter `lower`, in either case.
pub open spec fn is_letter(s: Seq<char>, lower: char, upper: char) -> bool {
    s.len() == 1 && (s[0] == lower || s[0] == upper)
}

/// The text after an optional leading `+`.
pub open spec fn unsigned_digits(s: Seq<char>) -> Seq<char> {
    if s.len() > 0 && s[0] == '+' {
        s.drop_first()
    } else {
        s
    }
}

/// The number from 1 to 9 that `s` reads as an unsigned decimal number
/// (an optional `+`, then digits), if it reads as one of them.
pub open spec fn tab_digit(s: Seq<char>) -> Option<nat> {
    let d = unsigned_digits(s);
    if d.len() > 0 && (forall|i: int| 0 <= i < d.len() - 1 ==> d[i] == '0') && '1' <= d.last()
        <= '9' {
        Some((d.last() as nat - '0' as nat) as nat)
    } else {
        None
    }
}

/// The message of each shortcut: Ctrl+K toggles the palette; Ctrl+Shift+N,
/// P and T open a blank tab, the preview and the last closed tab; Ctrl+Enter,
/// S, W and `.` send, save, close the tab and fold the side panel; Alt+1..9
/// go to a tab; Esc closes the topmost overlay.
pub open spec fn shortcut_spec(p: KeyPress) -> Option<Message> {
    if p.command && (p.key matches PressedKey::Character(c) && is_letter(c@, 'k', 'K')) {
        Some(Message::Palette(PaletteMessage::Toggled))
    } else if p.command && p.shift {
        match p.key {
            PressedKey::Character(c) => if is_letter(c@, 'n', 'N') {
                Some(Message::Keyboard(KeyboardMessage::NewBlankTabRequested))
            } else if is_letter(c@, 'p', 'P') {
                Some(Message::RequestComposer(RequestComposerMessage::SettingsPressed))
            } else if is_letter(c@, 't', 'T') {
                Some(Message::RequestComposer(RequestComposerMessage::ClosedTabReopened))
            } else {
                None
            },
            _ => None,
        }
    } else if p.command {
        match p.key {
            PressedKey::Enter => Some(Message::RequestComposer(RequestComposerMessage::SendPressed)),
            PressedKey::Character(c) => if is_letter(c@, 's', 'S') {
                Some(Message::Keyboard(KeyboardMessage::SaveRequested))
            } else if is_letter(c@, 'w', 'W') {
                Some(Message::Keyboard(KeyboardMessage::CloseActiveTabShortcut))
            } else if c@ == seq!['.'] {
                Some(Message::Workspace(WorkspaceMessage::ToggleCollapsed))
            } else {
                None
            },
            _ => None,
        }
    } else if p.alt {
        match p.key {
            PressedKey::Character(c) => match tab_digit(c@) {
                Some(d) => Some(
                    Message::Keyboard(KeyboardMessage::GoToTabShortcut { index: (d - 1) as usize }),
                ),
                None => None,
            },
            _ => None,
        }
    } else if p.no_modifiers {
        match p.key {
            PressedKey::Escape => Some(Message::Keyboard(KeyboardMessage::EscapePressed)),
            _ => None,
        }
    } else {
        None
    }
}

fn letter_is(s: &str, lower: char, upper: char) -> (r: bool)
    ensures
        r == is_letter(s@, lower, upper),
{
    if s.unicode_len() != 1 {
        return false;
    }
    let c = s.get_char(0);
    c == lower || c == upper
}

fn tab_digit_of(s: &str) -> (r: Option<usize>)
    ensures
        r == match tab_digit(s@) {
            Some(d) => Some(d as usize),
            None => None::<usize>,
        },
{
    let n = s.unicode_len();
    let mut start: usize = 0;
    if n > 0 && s.get_char(0) == '+' {
        start = 1;
    }
    let ghost d = unsigned_digits(s@);
    assert(d =~= s@.subrange(start as int, n as int));
    if start >= n {
        assert(d.len() == 0);
        assert(tab_digit(s@) is None);
        return None;
    }
    let mut i: usize = start;
    while i + 1 < n
        invariant
            start <= i < n,
            n == s@.len(),
            d == unsigned_digits(s@),
            d =~= s@.subrange(start as int, n as int),
            forall|k: int| 0 <= k < i - start ==> d[k] == '0',
        decreases n - i,
    {
        if s.get_char(i) != '0' {
            assert(d[i - start] != '0');
            return None;
        }
        i = i + 1;
    }
    let last = s.get_char(n - 1);
    assert(d.last() == last);
    if '1' <= last && last <= '9' {
        let value: u32 = (last as u32) - ('0' as u32);
        Some(value as usize)
    } else {
        None
    }
}

/// The message a key press sends, if it is a shortcut.
pub fn shortcut_message(press: &KeyPress) -> (r: Option<Message>)
    ensures
        r == shortcut_spec(*press),
{
    let is_k = match &press.key {
        PressedKey::Character(c) => letter_is(c.as_str(), 'k', 'K'),
        _ => false,
    };
    if press.command && is_k {
        return Some(Message::Palette(PaletteMessage::Toggled));
    }
    if press.command && press.shift {
        return match &press.key {
            PressedKey::Character(c) => if letter_is(c.as_str(), 'n', 'N') {
                Some(Message::Keyboard(KeyboardMessage::NewBlankTabRequested))
            } else if letter_is(c.as_str(), 'p', 'P') {
                Some(Message::RequestComposer(RequestComposerMessage::SettingsPressed))
            } else if letter_is(c.as_str(), 't', 'T') {
                Some(Message::RequestComposer(RequestComposerMessage::ClosedTabReopened))
            } else {
                None
            },
            _ => None,
        };
    }
    if press.command {
        return match &press.key {
            PressedKey::Enter => Some(Message::RequestComposer(RequestComposerMessage::SendPressed)),
            PressedKey::Character(c) => if letter_is(c.as_str(), 's', 'S') {
                Some(Message::Keyboard(KeyboardMessage::SaveRequested))
            } else if letter_is(c.as_str(), 'w', 'W') {
                Some(Message::Keyboard(KeyboardMessage::CloseActiveTabShortcut))
            } else if c.as_str().unicode_len() == 1 && c.as_str().get_char(0) == '.' {
                assert(c@ =~= seq!['.']);
                Some(Message::Workspace(WorkspaceMessage::ToggleCollapsed))
            } else {
                proof {
                    if c@ == seq!['.'] {
                        assert(c@.len() == 1);
                    }
                }
                None
            },
            _ => None,
        };
    }
    if press.alt {
        return match &press.key {
            PressedKey::Character(c) => match tab_digit_of(c.as_str()) {
                Some(d) => Some(Message::Keyboard(KeyboardMessage::GoToTabShortcut { index: d - 1 })),
                None => None,
            },
            _ => None,
        };
    }
    if press.no_modifiers {
        return match &press.key {
            PressedKey::Escape => Some(Message::Keyboard(KeyboardMessage::EscapePressed)),
            _ => None,
        };
    }
    None
}

} // verus!
