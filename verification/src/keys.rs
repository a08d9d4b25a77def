use vstd::prelude::*;

use crate::tab::TabKey;

verus! {

/// A key of the keyboard, as the terminal reports it.
#[derive(Clone, Copy, Debug, PartialEq, Eq, Structural)]
pub enum KeyCode {
    Backspace,
    Enter,
    Left,
    Right,
    Up,
    Down,
    Home,
    End,
    PageUp,
    PageDown,
    Tab,
    BackTab,
    Delete,
    Insert,
    F(u8),
    Char(char),
    Null,
    Esc,
    CapsLock,
    ScrollLock,
    NumLock,
    PrintScreen,
    Pause,
    Menu,
    KeypadBegin,
    /// A media key, by its position in the terminal's list of media keys.
    Media(u8),
    /// A modifier key pressed on its own, by its position in the terminal's
    /// list of modifier keys.
    Modifier(u8),
}

/// A key together with the modifiers held with it (as the terminal's
/// modifier bits).
#[derive(Clone, Copy, Debug, PartialEq, Eq, Structural)]
pub struct KeyStroke {
    pub code: KeyCode,
    pub modifiers: u8,
}

/// The key bindings of the worktree tab.
#[derive(Clone, Copy, Debug, PartialEq, Eq, Structural)]
pub struct TabBindings {
    pub move_up: KeyStroke,
    pub move_down: KeyStroke,
    pub page_up: KeyStroke,
    pub page_down: KeyStroke,
    pub home: KeyStroke,
    pub end: KeyStroke,
    pub enter: KeyStroke,
}

/// The tab key that a key stroke stands for: the first binding, in the order
/// move up, move down, page up, page down, home, end, enter, that it matches.
pub open spec fn tab_key_for(key: KeyStroke, b: TabBindings) -> TabKey {
    if key == b.move_up {
        TabKey::MoveUp
    } else if key == b.move_down {
        TabKey::MoveDown
    } else if key == b.page_up {
        TabKey::PageUp
    } else if key == b.page_down {
        TabKey::PageDown
    } else if key == b.home {
        TabKey::Home
    } else if key == b.end {
        TabKey::End
    } else if key == b.enter {
        TabKey::Enter
    } else {
        TabKey::Other
    }
}

/// Whether a key stroke is the bound one: same key, same modifiers.
pub fn key_match(key: &KeyStroke, binding: &KeyStroke) -> (r: bool)
    ensures
        r == (*key == *binding),
{
    *key == *binding
}

/// The tab key that a key stroke stands for under the given bindings.
pub fn tab_key(key: &KeyStroke, bindings: &TabBindings) -> (r: TabKey)
    ensures
        r == tab_key_for(*key, *bindings),
{
    if key_match(key, &bindings.move_up) {
        TabKey::MoveUp
    } else if key_match(key, &bindings.move_down) {
        TabKey::MoveDown
    } else if key_match(key, &bindings.page_up) {
        TabKey::PageUp
    } else if key_match(key, &bindings.page_down) {
        TabKey::PageDown
    } else if key_match(key, &bindings.home) {
        TabKey::Home
    } else if key_match(key, &bindings.end) {
        TabKey::End
    } else if key_match(key, &bindings.enter) {
        TabKey::Enter
    } else {
        TabKey::Other
    }
}

} // verus!
