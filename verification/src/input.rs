//! The input model: key codes, modifier sets and events as the terminal
//! surface reports them, and the table that maps a key press to an action.

use vstd::prelude::*;
use crate::selection::NavCommand;

verus! {

/// The key codes the dispatcher distinguishes. Everything else is `Other`.
#[derive(Clone, Copy, Debug, PartialEq, Eq)]
pub enum KeyCode {
    Esc,
    Char(char),
    Left,
    Right,
    Up,
    Down,
    PageUp,
    PageDown,
    Other,
}

/// The modifier keys held together with a key press.
#[derive(Clone, Copy, Debug, PartialEq, Eq)]
pub struct Modifiers {
    pub ctrl: bool,
    pub shift: bool,
    pub alt: bool,
}

impl Modifiers {
    /// No modifier key held.
    pub fn none() -> (m: Modifiers)
        ensures
            !m.ctrl && !m.shift && !m.alt,
    {
        Modifiers { ctrl: false, shift: false, alt: false }
    }

    /// Exactly the control key held.
    pub open spec fn is_control_only(self) -> bool {
        self.ctrl && !self.shift && !self.alt
    }
}

/// Whether a key event reports the key going down, repeating, or going up.
#[derive(Clone, Copy, Debug, PartialEq, Eq)]
pub enum KeyEventKind {
    Press,
    Release,
    Repeat,
}

/// One key event: code, modifier set and kind.
#[derive(Clone, Copy, Debug, PartialEq, Eq)]
pub struct KeyPress {
    pub code: KeyCode,
    pub modifiers: Modifiers,
    pub kind: KeyEventKind,
}

/// One input event from the terminal surface. Resize carries the new width
/// and height; the next redraw picks them up, so no state changes here.
#[derive(Clone, Copy, Debug, PartialEq, Eq)]
pub enum InputEvent {
    Key(KeyPress),
    Mouse,
    Resize(u16, u16),
    Other,
}

/// What a handled key press asks the application to do.
#[derive(Clone, Copy, Debug, PartialEq, Eq)]
pub enum AppAction {
    Quit,
    Nav(NavCommand),
    Ignore,
}

/// The key table. Escape and `q` quit with any modifier set; `c` quits only
/// under control alone. `h`/`l` and the horizontal arrows deselect, `k`/`j`
/// and the vertical arrows move, `g`/page-up jump to the top and `G`/page-down
/// to the bottom. Anything else is ignored.
pub open spec fn action_of_key(k: KeyPress) -> AppAction {
    if k.code is Esc {
        AppAction::Quit
    } else if k.code == KeyCode::Char('q') {
        AppAction::Quit
    } else if k.code == KeyCode::Char('c') && k.modifiers.is_control_only() {
        AppAction::Quit
    } else if k.code == KeyCode::Char('h') || k.code is Left {
        AppAction::Nav(NavCommand::Clear)
    } else if k.code == KeyCode::Char('l') || k.code is Right {
        AppAction::Nav(NavCommand::Clear)
    } else if k.code == KeyCode::Char('k') || k.code is Up {
        AppAction::Nav(NavCommand::Previous)
    } else if k.code == KeyCode::Char('j') || k.code is Down {
        AppAction::Nav(NavCommand::Next)
    } else if k.code == KeyCode::Char('g') || k.code is PageUp {
        AppAction::Nav(NavCommand::First)
    } else if k.code == KeyCode::Char('G') || k.code is PageDown {
        AppAction::Nav(NavCommand::Last)
    } else {
        AppAction::Ignore
    }
}

/// Looks a key press up in the key table.
pub fn classify_key(k: &KeyPress) -> (a: AppAction)
    ensures
        a == action_of_key(*k),
{
    match k.code {
        KeyCode::Esc => AppAction::Quit,
        KeyCode::Char('q') => AppAction::Quit,
        KeyCode::Char('c') if k.modifiers.ctrl && !k.modifiers.shift && !k.modifiers.alt
            => AppAction::Quit,
        KeyCode::Char('h') | KeyCode::Left => AppAction::Nav(NavCommand::Clear),
        KeyCode::Char('l') | KeyCode::Right => AppAction::Nav(NavCommand::Clear),
        KeyCode::Char('k') | KeyCode::Up => AppAction::Nav(NavCommand::Previous),
        KeyCode::Char('j') | KeyCode::Down => AppAction::Nav(NavCommand::Next),
        KeyCode::Char('g') | KeyCode::PageUp => AppAction::Nav(NavCommand::First),
        KeyCode::Char('G') | KeyCode::PageDown => AppAction::Nav(NavCommand::Last),
        _ => AppAction::Ignore,
    }
}

} // verus!
