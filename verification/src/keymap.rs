//! From raw keyboard, pointer and surface events to what they mean to the
//! launcher.

use vstd::prelude::*;
use vstd::string::StrSliceExecFns;

use crate::message::{KeyboardNav, LayerEvent, Message};

verus! {

/// A key of the keyboard, as far as the launcher tells keys apart.
#[derive(Clone, Debug, PartialEq, Eq)]
pub enum Key {
    /// A key that types this text.
    Character(String),
    /// Alt.
    Alt,
    /// Super.
    Super,
    /// The up arrow.
    ArrowUp,
    /// The down arrow.
    ArrowDown,
    /// Escape.
    Escape,
    /// Tab.
    Tab,
    /// Backspace.
    Backspace,
    /// Any other key.
    Other,
}

/// The modifier keys held down while a key is pressed.
#[derive(Clone, Copy, Debug, PartialEq, Eq, Structural)]
pub struct Modifiers {
    pub shift: bool,
    pub control: bool,
    pub alt: bool,
    pub logo: bool,
}

impl Modifiers {
    /// Whether no modifier is held down.
    pub open spec fn none_held(self) -> bool {
        !self.shift && !self.control && !self.alt && !self.logo
    }

    /// Whether no modifier is held down.
    pub fn is_empty(&self) -> (empty: bool)
        ensures
            empty == self.none_held(),
    {
        !self.shift && !self.control && !self.alt && !self.logo
    }
}

/// Whether a widget made use of an event before the launcher saw it.
#[derive(Clone, Copy, Debug, PartialEq, Eq, Structural)]
pub enum Status {
    /// No widget did.
    Ignored,
    /// A widget did.
    Captured,
}

/// A raw event, as far as the launcher tells events apart.
#[derive(Clone, Debug, PartialEq, Eq)]
pub enum Event {
    /// The main surface has news.
    Layer(LayerEvent),
    /// A key was released.
    KeyReleased(Key),
    /// A key was pressed while these modifiers were held down.
    KeyPressed(Key, Modifiers),
    /// The pointer moved to this point, in whole pixels.
    CursorMoved(i32, i32),
    /// Any other event.
    Other,
}

/// The position of the result that a digit key activates: the keys 1 to 9
/// stand for the first nine results, 0 for the tenth.
pub open spec fn digit_position(c: char) -> Option<usize> {
    if '0' <= c <= '9' {
        Some((((c as int) - ('0' as int) + 9) % 10) as usize)
    } else {
        None
    }
}

/// What a key that types `text` means while Control is held down: p and k
/// select the previous result, n and j the next, and a digit activates the
/// result at its position.
pub open spec fn control_intent(text: Seq<char>) -> Option<Message> {
    if text.len() != 1 {
        None
    } else if text[0] == 'p' || text[0] == 'k' {
        Some(Message::KeyboardNav(KeyboardNav::FocusPrevious))
    } else if text[0] == 'n' || text[0] == 'j' {
        Some(Message::KeyboardNav(KeyboardNav::FocusNext))
    } else {
        match digit_position(text[0]) {
            Some(position) => Some(Message::Activate(Some(position))),
            None => None,
        }
    }
}

/// What a raw event means to the launcher, if anything.
pub open spec fn intent(event: Event, status: Status) -> Option<Message> {
    match event {
        Event::Layer(e) => Some(Message::Layer(e)),
        Event::KeyReleased(key) => match key {
            Key::Alt | Key::Super => Some(Message::AltRelease),
            _ => None,
        },
        Event::KeyPressed(key, modifiers) => match key {
            Key::Character(text) => if modifiers.control {
                control_intent(text@)
            } else {
                None
            },
            Key::ArrowUp => Some(Message::KeyboardNav(KeyboardNav::FocusPrevious)),
            Key::ArrowDown => Some(Message::KeyboardNav(KeyboardNav::FocusNext)),
            Key::Escape => Some(Message::Hide),
            Key::Tab => Some(Message::TabPress),
            Key::Backspace => if status == Status::Ignored && modifiers.none_held() {
                Some(Message::Backspace)
            } else {
                None
            },
            Key::Alt | Key::Super | Key::Other => None,
        },
        Event::CursorMoved(x, y) => Some(Message::CursorMoved(x, y)),
        Event::Other => None,
    }
}

/// The position of the result that a digit key activates.
fn position_of_digit(c: char) -> (position: Option<usize>)
    ensures
        position == digit_position(c),
{
    match c {
        '1' => Some(0),
        '2' => Some(1),
        '3' => Some(2),
        '4' => Some(3),
        '5' => Some(4),
        '6' => Some(5),
        '7' => Some(6),
        '8' => Some(7),
        '9' => Some(8),
        '0' => Some(9),
        _ => None,
    }
}

/// What a key that types `text` means while Control is held down.
fn control_key(text: &str) -> (message: Option<Message>)
    ensures
        message == control_intent(text@),
{
    if text.unicode_len() != 1 {
        return None;
    }
    let c = text.get_char(0);
    if c == 'p' || c == 'k' {
        Some(Message::KeyboardNav(KeyboardNav::FocusPrevious))
    } else if c == 'n' || c == 'j' {
        Some(Message::KeyboardNav(KeyboardNav::FocusNext))
    } else {
        match position_of_digit(c) {
            Some(position) => Some(Message::Activate(Some(position))),
            None => None,
        }
    }
}

/// Maps a raw event to the message it stands for, if any.
pub fn map_event(event: Event, status: Status) -> (message: Option<Message>)
    ensures
        message == intent(event, status),
{
    match event {
        Event::Layer(e) => Some(Message::Layer(e)),
        Event::KeyReleased(key) => match key {
            Key::Alt | Key::Super => Some(Message::AltRelease),
            _ => None,
        },
        Event::KeyPressed(key, modifiers) => match key {
            Key::Character(text) => {
                if modifiers.control {
                    control_key(text.as_str())
                } else {
                    None
                }
            },
            Key::ArrowUp => Some(Message::KeyboardNav(KeyboardNav::FocusPrevious)),
            Key::ArrowDown => Some(Message::KeyboardNav(KeyboardNav::FocusNext)),
            Key::Escape => Some(Message::Hide),
            Key::Tab => Some(Message::TabPress),
            Key::Backspace => {
                if status == Status::Ignored && modifiers.is_empty() {
                    Some(Message::Backspace)
                } else {
                    None
                }
            },
            Key::Alt | Key::Super | Key::Other => None,
        },
        Event::CursorMoved(x, y) => Some(Message::CursorMoved(x, y)),
        Event::Other => None,
    }
}

} // verus!
