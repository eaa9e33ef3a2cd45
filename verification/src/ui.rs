//! Decisions for keyboard input in view mode: which character moves the
//! cursor where under each control scheme, and what the other reserved
//! characters ask for. Reading events and carrying the decisions out is the
//! shell's work.
use vstd::prelude::*;

use crate::config::CursorControls;
use crate::display::CursorDirection;

verus! {

/// The input contexts: view mode navigates pages; insert mode types text
/// into widgets.
#[derive(Clone, Copy, Debug, PartialEq, Eq, Structural)]
pub enum UIMode {
    View,
    Insert,
}

/// What one view-mode character press asks for.
#[derive(Clone, Copy, Debug, PartialEq, Eq, Structural)]
pub enum CharAction {
    /// Move the cursor one step in a direction.
    MoveCursor(CursorDirection),
    /// Leave the application gracefully.
    Quit,
    /// Abort the process on purpose.
    Crash,
    /// Look the character up in the configured keymap.
    Keymap(char),
    /// Nothing to do.
    Idle,
}

/// The cursor direction a character steers under a control scheme, if any:
/// `wasd` under the first scheme, `hjkl` under the second.
pub open spec fn spec_cursor_direction(controls: CursorControls, ch: char) -> Option<
    CursorDirection,
> {
    match controls {
        CursorControls::WASD => {
            if ch == 'w' {
                Some(CursorDirection::Up)
            } else if ch == 'a' {
                Some(CursorDirection::Left)
            } else if ch == 's' {
                Some(CursorDirection::Down)
            } else if ch == 'd' {
                Some(CursorDirection::Right)
            } else {
                None
            }
        },
        CursorControls::HJKL => {
            if ch == 'h' {
                Some(CursorDirection::Left)
            } else if ch == 'j' {
                Some(CursorDirection::Down)
            } else if ch == 'k' {
                Some(CursorDirection::Up)
            } else if ch == 'l' {
                Some(CursorDirection::Right)
            } else {
                None
            }
        },
    }
}

/// The cursor direction a character steers under a control scheme, if any.
pub fn cursor_direction(controls: CursorControls, ch: char) -> (r: Option<CursorDirection>)
    ensures
        r == spec_cursor_direction(controls, ch),
{
    match controls {
        CursorControls::WASD => {
            if ch == 'w' {
                Some(CursorDirection::Up)
            } else if ch == 'a' {
                Some(CursorDirection::Left)
            } else if ch == 's' {
                Some(CursorDirection::Down)
            } else if ch == 'd' {
                Some(CursorDirection::Right)
            } else {
                None
            }
        },
        CursorControls::HJKL => {
            if ch == 'h' {
                Some(CursorDirection::Left)
            } else if ch == 'j' {
                Some(CursorDirection::Down)
            } else if ch == 'k' {
                Some(CursorDirection::Up)
            } else if ch == 'l' {
                Some(CursorDirection::Right)
            } else {
                None
            }
        },
    }
}

/// What a view-mode character press asks for: a cursor key of the active
/// scheme moves the cursor, the reserved quit and crash keys act as named,
/// and every other character goes to the keymap, a cursor key of the
/// inactive scheme among them.
pub open spec fn spec_char_press(controls: CursorControls, ch: char) -> CharAction {
    if ch == 'q' {
        CharAction::Quit
    } else if ch == 'p' {
        CharAction::Crash
    } else {
        match spec_cursor_direction(controls, ch) {
            Some(d) => CharAction::MoveCursor(d),
            None => CharAction::Keymap(ch),
        }
    }
}

/// Decide a view-mode character press.
pub fn char_press(controls: CursorControls, ch: char) -> (r: CharAction)
    ensures
        r == spec_char_press(controls, ch),
{
    if ch == 'q' {
        CharAction::Quit
    } else if ch == 'p' {
        CharAction::Crash
    } else {
        match cursor_direction(controls, ch) {
            Some(d) => CharAction::MoveCursor(d),
            None => CharAction::Keymap(ch),
        }
    }
}

/// What a held character repeats: only cursor movement repeats; every other
/// key does nothing while held.
pub open spec fn spec_char_hold(controls: CursorControls, ch: char) -> CharAction {
    match spec_cursor_direction(controls, ch) {
        Some(d) => CharAction::MoveCursor(d),
        None => CharAction::Idle,
    }
}

/// Decide a held view-mode character.
pub fn char_hold(controls: CursorControls, ch: char) -> (r: CharAction)
    ensures
        r == spec_char_hold(controls, ch),
{
    match cursor_direction(controls, ch) {
        Some(d) => CharAction::MoveCursor(d),
        None => CharAction::Idle,
    }
}

} // verus!
