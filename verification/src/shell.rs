//! What the messages to the program's window mean.
//!
//! The window procedure gets each message as a number and two machine words.
//! A menu choice comes as one word: its high half tells where the command
//! came from, its low half is the number of the menu entry that was chosen.

use vstd::prelude::*;

verus! {

/// An entry of the tray menu.
#[derive(Debug, Clone, Copy, PartialEq, Eq, Structural)]
pub enum TrayButton {
    /// Show the working directory in the file browser.
    OpenDir,
    /// Leave the program.
    Exit,
}

impl TrayButton {
    /// The number under which the entry stands in the menu.
    pub open spec fn spec_id(self) -> u16 {
        match self {
            TrayButton::OpenDir => 0,
            TrayButton::Exit => 1,
        }
    }

    /// The number under which the entry stands in the menu.
    #[verifier::when_used_as_spec(spec_id)]
    pub fn id(self) -> (id: u16)
        ensures
            id == self.spec_id(),
    {
        match self {
            TrayButton::OpenDir => 0,
            TrayButton::Exit => 1,
        }
    }

    /// The entry that stands under the number `value`, if there is one.
    pub fn try_from(value: u16) -> (button: Result<TrayButton, ()>)
        ensures
            match button {
                Ok(b) => b.spec_id() == value,
                Err(_) => value >= 2,
            },
    {
        match value {
            0 => Ok(TrayButton::OpenDir),
            1 => Ok(TrayButton::Exit),
            _ => Err(()),
        }
    }
}

/// Bits 16 to 31 of `value`.
pub fn high_word(value: usize) -> (word: u16)
    ensures
        word == (value / 0x1_0000) % 0x1_0000,
{
    assert((value >> 16) & 0xFFFF == (value / 0x1_0000) % 0x1_0000) by (bit_vector);
    ((value >> 16) & 0xFFFF) as u16
}

/// Bits 0 to 15 of `value`.
pub fn low_word(value: usize) -> (word: u16)
    ensures
        word == value % 0x1_0000,
{
    assert(value & 0xFFFF == value % 0x1_0000) by (bit_vector);
    (value & 0xFFFF) as u16
}

/// The message that the window has been created.
pub const WM_CREATE: u32 = 0x0001;

/// The message that the window is being destroyed.
pub const WM_DESTROY: u32 = 0x0002;

/// The notification that the user asks for a context menu.
pub const WM_CONTEXTMENU: u32 = 0x007B;

/// The message that a command was given, by a menu among others.
pub const WM_COMMAND: u32 = 0x0111;

/// The message that the content of the clipboard has changed.
pub const WM_CLIPBOARDUPDATE: u32 = 0x031D;

/// The message by which the tray icon reports what is done to it.
pub const WM_TRAYICON: u32 = 0x0401;

/// What a message to the window asks for.
#[derive(Debug, Clone, Copy, PartialEq, Eq, Structural)]
pub enum Event {
    /// The window exists: start to listen for changes of the clipboard.
    Created,
    /// The window goes: stop listening and end the message loop.
    Destroyed,
    /// The clipboard has changed: react to it.
    ClipboardChanged,
    /// The tray icon was asked for its menu: show it.
    MenuRequested,
    /// The menu entry with this number was chosen.
    Chosen(u16),
    /// Nothing that concerns the program.
    Other,
}

/// What the message `message` with the words `wparam` and `lparam` asks for.
pub open spec fn meaning(message: u32, wparam: usize, lparam: isize) -> Event {
    if message == WM_CREATE {
        Event::Created
    } else if message == WM_DESTROY {
        Event::Destroyed
    } else if message == WM_CLIPBOARDUPDATE {
        Event::ClipboardChanged
    } else if message == WM_TRAYICON && lparam & 0xFFFF == 0x007B {
        Event::MenuRequested
    } else if message == WM_COMMAND && (wparam / 0x1_0000) % 0x1_0000 == 0 {
        Event::Chosen((wparam % 0x1_0000) as u16)
    } else {
        Event::Other
    }
}

/// Reads a message to the window: see [`meaning`].
pub fn classify(message: u32, wparam: usize, lparam: isize) -> (event: Event)
    ensures
        event == meaning(message, wparam, lparam),
{
    if message == WM_CREATE {
        Event::Created
    } else if message == WM_DESTROY {
        Event::Destroyed
    } else if message == WM_CLIPBOARDUPDATE {
        Event::ClipboardChanged
    } else if message == WM_TRAYICON && lparam & 0xFFFF == 0x007B {
        Event::MenuRequested
    } else if message == WM_COMMAND && high_word(wparam) == 0 {
        Event::Chosen(low_word(wparam))
    } else {
        Event::Other
    }
}

} // verus!
