use crate::geometry::Size;
use vstd::prelude::*;

verus! {

/// Where a move sends the cursor.
#[derive(Clone, Copy, Debug, PartialEq, Eq, Structural)]
pub enum Direction {
    Up,
    Down,
    Left,
    Right,
    PageUp,
    PageDown,
    Home,
    End,
}

/// What the user asked for.
#[derive(Clone, Copy, Debug, PartialEq, Eq, Structural)]
pub enum Command {
    Move(Direction),
    Insert(char),
    Resize(Size),
    Quit,
}

/// A key of the keyboard, as far as commands tell keys apart.
#[derive(Clone, Copy, Debug, PartialEq, Eq, Structural)]
pub enum Key {
    Char(char),
    Up,
    Down,
    Left,
    Right,
    PageUp,
    PageDown,
    Home,
    End,
    Other,
}

/// The modifier keys held down with a key.
#[derive(Clone, Copy, Debug, Default, PartialEq, Eq, Structural)]
pub struct Modifiers {
    pub shift: bool,
    pub control: bool,
    pub alt: bool,
    pub super_key: bool,
    pub hyper: bool,
    pub meta: bool,
}

impl Modifiers {
    /// Control and nothing else.
    pub open spec fn is_control_only(self) -> bool {
        self == Modifiers {
            shift: false,
            control: true,
            alt: false,
            super_key: false,
            hyper: false,
            meta: false,
        }
    }
}

/// An input event from the terminal.
#[derive(Clone, Copy, Debug, PartialEq, Eq, Structural)]
pub enum InputEvent {
    Key { key: Key, modifiers: Modifiers },
    /// The terminal's new width and height, in cells.
    Resize(u16, u16),
    Other,
}

/// Why an event gives no command.
#[derive(Clone, Copy, Debug, PartialEq, Eq, Structural)]
pub enum DecodeError {
    UnsupportedKey,
    UnsupportedEvent,
}

/// The command an event stands for.
pub open spec fn command_of(event: InputEvent) -> Result<Command, DecodeError> {
    match event {
        InputEvent::Key { key, modifiers } => match key {
            Key::Char(c) => if c == 'q' && modifiers.is_control_only() {
                Ok(Command::Quit)
            } else {
                Err(DecodeError::UnsupportedKey)
            },
            Key::Up => Ok(Command::Move(Direction::Up)),
            Key::Down => Ok(Command::Move(Direction::Down)),
            Key::Left => Ok(Command::Move(Direction::Left)),
            Key::Right => Ok(Command::Move(Direction::Right)),
            Key::PageUp => Ok(Command::Move(Direction::PageUp)),
            Key::PageDown => Ok(Command::Move(Direction::PageDown)),
            Key::Home => Ok(Command::Move(Direction::Home)),
            Key::End => Ok(Command::Move(Direction::End)),
            Key::Other => Err(DecodeError::UnsupportedKey),
        },
        InputEvent::Resize(width, height) => Ok(
            Command::Resize(Size { width: width as usize, height: height as usize }),
        ),
        InputEvent::Other => Err(DecodeError::UnsupportedEvent),
    }
}

impl TryFrom<InputEvent> for Command {
    type Error = DecodeError;

    fn try_from(event: InputEvent) -> (r: Result<Command, DecodeError>) {
        match event {
            InputEvent::Key { key, modifiers } => match key {
                Key::Char(c) => {
                    let control_only = modifiers.control && !modifiers.shift && !modifiers.alt
                        && !modifiers.super_key && !modifiers.hyper && !modifiers.meta;
                    if c == 'q' && control_only {
                        Ok(Command::Quit)
                    } else {
                        Err(DecodeError::UnsupportedKey)
                    }
                },
                Key::Up => Ok(Command::Move(Direction::Up)),
                Key::Down => Ok(Command::Move(Direction::Down)),
                Key::Left => Ok(Command::Move(Direction::Left)),
                Key::Right => Ok(Command::Move(Direction::Right)),
                Key::PageUp => Ok(Command::Move(Direction::PageUp)),
                Key::PageDown => Ok(Command::Move(Direction::PageDown)),
                Key::Home => Ok(Command::Move(Direction::Home)),
                Key::End => Ok(Command::Move(Direction::End)),
                Key::Other => Err(DecodeError::UnsupportedKey),
            },
            InputEvent::Resize(width, height) => Ok(
                Command::Resize(Size { width: width as usize, height: height as usize }),
            ),
            InputEvent::Other => Err(DecodeError::UnsupportedEvent),
        }
    }
}

impl vstd::std_specs::convert::TryFromSpecImpl<InputEvent> for Command {
    open spec fn obeys_try_from_spec() -> bool {
        true
    }

    open spec fn try_from_spec(event: InputEvent) -> Result<Command, DecodeError> {
        command_of(event)
    }
}

} // verus!
