//! Keys and the commands they stand for.

use vstd::prelude::*;

verus! {

/// A key as the game reads it.
#[derive(Clone, Copy, Debug, PartialEq, Eq, Structural)]
pub enum KeyPress {
    Char(char),
    Left,
    Right,
    /// Any other key.
    Other,
}

/// What the player asks of the game.
#[derive(Clone, Copy, Debug, PartialEq, Eq, Structural)]
pub enum Commands {
    /// Turn the direction of travel by this many quarter turns,
    /// counterclockwise for a positive count.
    RotatePlayer(i64),
    Extend,
    Shrink,
    Quit,
}

/// The command a key stands for, if any.
pub open spec fn key_command(key: KeyPress) -> Option<Commands> {
    match key {
        KeyPress::Char('q') => Some(Commands::Quit),
        KeyPress::Char('e') => Some(Commands::Extend),
        KeyPress::Char('r') => Some(Commands::Shrink),
        KeyPress::Right | KeyPress::Char('d') | KeyPress::Char('l') => Some(
            Commands::RotatePlayer(1i64),
        ),
        KeyPress::Left | KeyPress::Char('a') | KeyPress::Char('h') => Some(
            Commands::RotatePlayer(-1i64),
        ),
        _ => None,
    }
}

impl Commands {
    pub fn from_key(key: KeyPress) -> (r: Option<Commands>)
        ensures
            r == key_command(key),
    {
        match key {
            KeyPress::Char('q') => Some(Commands::Quit),
            KeyPress::Char('e') => Some(Commands::Extend),
            KeyPress::Char('r') => Some(Commands::Shrink),
            KeyPress::Right | KeyPress::Char('d') | KeyPress::Char('l') => Some(
                Commands::RotatePlayer(1),
            ),
            KeyPress::Left | KeyPress::Char('a') | KeyPress::Char('h') => Some(
                Commands::RotatePlayer(-1),
            ),
            _ => None,
        }
    }

    /// Whether the reader of keys stops after handing this command over: after
    /// a quit, or when the game no longer takes commands.
    pub fn ends_input(&self, delivered: bool) -> (r: bool)
        ensures
            r == (!delivered || *self == Commands::Quit),
    {
        !delivered || matches!(self, Commands::Quit)
    }
}

} // verus!
