//! Input handling: the discrete actions the frame loop reacts to, the
//! mapping from key presses to actions, and the help-visibility flag that
//! the help-toggle action flips.

use vstd::prelude::*;

verus! {

/// A discrete, debounced action read from the keyboard.
#[derive(Clone, Copy, Debug, PartialEq, Eq, Structural)]
pub enum InputAction {
    Quit,
    TogglePause,
    IncreaseSpeed,
    DecreaseSpeed,
    ZoomIn,
    ZoomOut,
    ToggleHelp,
    Idle,
}

/// A key press as the input layer reads it: a printable character, the
/// escape key, or anything else.
#[derive(Clone, Copy, Debug, PartialEq, Eq, Structural)]
pub enum Key {
    Char(char),
    Esc,
    Other,
}

/// The action a key press stands for.
pub open spec fn action_of_key(k: Key) -> InputAction {
    match k {
        Key::Esc => InputAction::Quit,
        Key::Other => InputAction::Idle,
        Key::Char(c) => if c == 'q' || c == 'Q' {
            InputAction::Quit
        } else if c == ' ' {
            InputAction::TogglePause
        } else if c == '+' || c == '=' {
            InputAction::IncreaseSpeed
        } else if c == '-' || c == '_' {
            InputAction::DecreaseSpeed
        } else if c == 'z' || c == 'Z' {
            InputAction::ZoomIn
        } else if c == 'x' || c == 'X' {
            InputAction::ZoomOut
        } else if c == 'h' || c == 'H' || c == '?' {
            InputAction::ToggleHelp
        } else {
            InputAction::Idle
        },
    }
}

/// Translates one key press to the action it stands for.
pub fn action_for_key(k: Key) -> (r: InputAction)
    ensures
        r == action_of_key(k),
{
    match k {
        Key::Esc => InputAction::Quit,
        Key::Other => InputAction::Idle,
        Key::Char(c) => {
            if c == 'q' || c == 'Q' {
                InputAction::Quit
            } else if c == ' ' {
                InputAction::TogglePause
            } else if c == '+' || c == '=' {
                InputAction::IncreaseSpeed
            } else if c == '-' || c == '_' {
                InputAction::DecreaseSpeed
            } else if c == 'z' || c == 'Z' {
                InputAction::ZoomIn
            } else if c == 'x' || c == 'X' {
                InputAction::ZoomOut
            } else if c == 'h' || c == 'H' || c == '?' {
                InputAction::ToggleHelp
            } else {
                InputAction::Idle
            }
        },
    }
}

/// Tracks the help-overlay visibility that the help-toggle action flips.
pub struct InputHandler {
    pub show_help: bool,
}

impl Default for InputHandler {
    /// Same as `InputHandler::new`: the help overlay hidden.
    fn default() -> (r: Self)
        ensures
            !r.show_help,
    {
        InputHandler::new()
    }
}

impl InputHandler {
    /// Starts with the help overlay hidden.
    pub fn new() -> (r: Self)
        ensures
            !r.show_help,
    {
        InputHandler { show_help: false }
    }

    /// Notes one polled action: the help-toggle action flips the help
    /// flag, every other action leaves it.
    pub fn record_action(&mut self, action: InputAction)
        ensures
            final(self).show_help == (if action == InputAction::ToggleHelp {
                !old(self).show_help
            } else {
                old(self).show_help
            }),
    {
        if action == InputAction::ToggleHelp {
            self.show_help = !self.show_help;
        }
    }

    /// Whether the help overlay is visible.
    pub fn is_help_visible(&self) -> (r: bool)
        ensures
            r == self.show_help,
    {
        self.show_help
    }
}

} // verus!
