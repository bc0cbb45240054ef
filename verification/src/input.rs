//! Keys and the commands bound to them.

use vstd::prelude::*;

verus! {

/// A key as the terminal reports it.
#[derive(Clone, Copy, Debug, PartialEq, Eq, Structural)]
pub enum Key {
    Char(char),
    Up,
    Down,
    Left,
    Right,
    /// Any key without a meaning here.
    Other,
}

/// What the operator can ask for.
#[derive(Clone, Copy, Debug, PartialEq, Eq, Structural)]
pub enum Command {
    Quit,
    ProcessUp,
    ProcessDown,
    TabLeft,
    TabRight,
    KillSelected,
    /// All devices in one view, line graphs.
    ShowCombined,
    /// One device per tab, line graphs.
    ShowTabbed,
    /// All devices in one view, bar charts.
    ShowBars,
    /// The key is not bound.
    Ignore,
}

/// The command bound to `key`: `q` quits, the arrows navigate, `x` kills
/// the selected process, `d`, `t` and `b` switch the display.
pub open spec fn command_for(key: Key) -> Command {
    match key {
        Key::Up => Command::ProcessUp,
        Key::Down => Command::ProcessDown,
        Key::Left => Command::TabLeft,
        Key::Right => Command::TabRight,
        Key::Char(c) => if c == 'q' {
            Command::Quit
        } else if c == 'x' {
            Command::KillSelected
        } else if c == 'd' {
            Command::ShowCombined
        } else if c == 't' {
            Command::ShowTabbed
        } else if c == 'b' {
            Command::ShowBars
        } else {
            Command::Ignore
        },
        Key::Other => Command::Ignore,
    }
}

/// Looks up the command bound to `key`.
pub fn bound_command(key: Key) -> (command: Command)
    ensures
        command == command_for(key),
{
    match key {
        Key::Up => Command::ProcessUp,
        Key::Down => Command::ProcessDown,
        Key::Left => Command::TabLeft,
        Key::Right => Command::TabRight,
        Key::Char(c) => if c == 'q' {
            Command::Quit
        } else if c == 'x' {
            Command::KillSelected
        } else if c == 'd' {
            Command::ShowCombined
        } else if c == 't' {
            Command::ShowTabbed
        } else if c == 'b' {
            Command::ShowBars
        } else {
            Command::Ignore
        },
        Key::Other => Command::Ignore,
    }
}

} // verus!
