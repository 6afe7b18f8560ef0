use vstd::prelude::*;

verus! {

/// A key press, as far as the player's controls tell keys apart.
#[derive(Debug, Clone, Copy, PartialEq, Eq, Structural)]
pub enum Key {
    Esc,
    Char(char),
    Other,
}

/// What the user asks of the player.
#[derive(Debug, Clone, Copy, PartialEq, Eq, Structural)]
pub enum Command {
    Quit,
    TogglePlaying,
    Restart,
    Nothing,
}

/// Esc and `q` quit, space toggles play/pause, `r` restarts; other keys do nothing.
pub open spec fn command_spec(key: Key) -> Command {
    match key {
        Key::Esc => Command::Quit,
        Key::Char(c) => if c == 'q' {
            Command::Quit
        } else if c == ' ' {
            Command::TogglePlaying
        } else if c == 'r' {
            Command::Restart
        } else {
            Command::Nothing
        },
        Key::Other => Command::Nothing,
    }
}

pub fn command_for(key: Key) -> (r: Command)
    ensures
        r == command_spec(key),
{
    match key {
        Key::Esc | Key::Char('q') => Command::Quit,
        Key::Char(' ') => Command::TogglePlaying,
        Key::Char('r') => Command::Restart,
        _ => Command::Nothing,
    }
}

} // verus!
