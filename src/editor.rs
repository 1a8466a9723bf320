//! The input step: what a key press does to the viewer.
use vstd::prelude::*;
use crate::cursor::Direction;
use crate::output::Output;

verus! {

/// A key, as far as the viewer tells keys apart.
#[derive(Clone, Copy, Debug, PartialEq, Eq, Structural)]
pub enum Key {
    Up,
    Down,
    Left,
    Right,
    Home,
    End,
    Char(char),
    Other,
}

/// The modifier keys held with a key.
#[derive(Clone, Copy, Debug, PartialEq, Eq, Structural)]
pub enum Modifiers {
    /// No modifier at all.
    Plain,
    /// Control and nothing else.
    ControlOnly,
    /// Any other combination.
    Mixed,
}

/// One key press.
#[derive(Clone, Copy, Debug, PartialEq, Eq, Structural)]
pub struct KeyPress {
    pub code: Key,
    pub modifiers: Modifiers,
}

/// What a key press asks for.
#[derive(Clone, Copy, Debug, PartialEq, Eq, Structural)]
pub enum Command {
    Quit,
    Move(Direction),
    Ignore,
}

/// Control-q quits; an unmodified arrow, Home or End key moves the cursor;
/// every other key is ignored.
pub open spec fn command_of(k: KeyPress) -> Command {
    if k.code == Key::Char('q') && k.modifiers == Modifiers::ControlOnly {
        Command::Quit
    } else if k.modifiers == Modifiers::Plain {
        match k.code {
            Key::Up => Command::Move(Direction::Up),
            Key::Down => Command::Move(Direction::Down),
            Key::Left => Command::Move(Direction::Left),
            Key::Right => Command::Move(Direction::Right),
            Key::Home => Command::Move(Direction::Home),
            Key::End => Command::Move(Direction::End),
            _ => Command::Ignore,
        }
    } else {
        Command::Ignore
    }
}

/// Tells what a key press asks for.
pub fn classify(key: KeyPress) -> (r: Command)
    ensures
        r == command_of(key),
{
    match (key.code, key.modifiers) {
        (Key::Char(c), Modifiers::ControlOnly) if c == 'q' => Command::Quit,
        (Key::Up, Modifiers::Plain) => Command::Move(Direction::Up),
        (Key::Down, Modifiers::Plain) => Command::Move(Direction::Down),
        (Key::Left, Modifiers::Plain) => Command::Move(Direction::Left),
        (Key::Right, Modifiers::Plain) => Command::Move(Direction::Right),
        (Key::Home, Modifiers::Plain) => Command::Move(Direction::Home),
        (Key::End, Modifiers::Plain) => Command::Move(Direction::End),
        _ => Command::Ignore,
    }
}

/// The viewer: the screen with its document and cursor.
pub struct Editor {
    pub output: Output,
}

impl Editor {
    pub fn new(output: Output) -> (r: Editor)
        ensures
            r.output == output,
    {
        Editor { output }
    }

    /// Applies one key press. Returns `false` when the key asks to quit and
    /// `true` when the viewer goes on; a navigation key moves the cursor,
    /// and anything else changes nothing.
    pub fn process_keypress(&mut self, key: KeyPress) -> (running: bool)
        requires
            old(self).output.wf(),
        ensures
            final(self).output.wf(),
            running == (command_of(key) != Command::Quit),
            final(self).output.editor_rows@ == old(self).output.editor_rows@,
            final(self).output.editor_contents@ == old(self).output.editor_contents@,
            final(self).output.window_size == old(self).output.window_size,
            match command_of(key) {
                Command::Move(d) => final(self).output.cursor_controller@
                    == old(self).output.cursor_controller@.moved(
                    old(self).output.editor_rows@,
                    d,
                ),
                _ => final(self).output.cursor_controller@
                    == old(self).output.cursor_controller@,
            },
    {
        match classify(key) {
            Command::Quit => false,
            Command::Move(direction) => {
                self.output.move_cursor(direction);
                true
            },
            Command::Ignore => true,
        }
    }
}

} // verus!
