//! The fixed key bindings.

use vstd::prelude::*;

verus! {

/// A key as the bindings tell keys apart.
#[derive(Clone, Copy, Debug, PartialEq, Eq, Structural)]
pub enum Key {
    /// A character key.
    Char(char),
    /// The up arrow.
    Up,
    /// The down arrow.
    Down,
    /// Any other key.
    Other,
}

/// What a key asks for.
#[derive(Clone, Copy, Debug, PartialEq, Eq, Structural)]
pub enum Command {
    /// Leave the loop.
    Quit,
    /// Move the selection one row down.
    SelectNext,
    /// Move the selection one row up.
    SelectPrevious,
    /// Terminate the selected process.
    Kill,
    /// Nothing.
    Ignore,
}

/// The command bound to a key: `q` quits, the down and up arrows move the
/// selection, `k` kills, and every other key is ignored.
pub open spec fn binding(key: Key) -> Command {
    match key {
        Key::Char(c) => if c == 'q' {
            Command::Quit
        } else if c == 'k' {
            Command::Kill
        } else {
            Command::Ignore
        },
        Key::Down => Command::SelectNext,
        Key::Up => Command::SelectPrevious,
        Key::Other => Command::Ignore,
    }
}

/// Looks a key up in the bindings.
pub fn command_for(key: Key) -> (command: Command)
    ensures
        command == binding(key),
{
    match key {
        Key::Char(c) => if c == 'q' {
            Command::Quit
        } else if c == 'k' {
            Command::Kill
        } else {
            Command::Ignore
        },
        Key::Down => Command::SelectNext,
        Key::Up => Command::SelectPrevious,
        Key::Other => Command::Ignore,
    }
}

} // verus!
