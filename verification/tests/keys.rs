use cosmic_launcher::keymap::{map_event, Event, Key, Modifiers, Status};
use cosmic_launcher::message::{KeyboardNav, LayerEvent, Message};

const NONE: Modifiers = Modifiers { shift: false, control: false, alt: false, logo: false };
const CONTROL: Modifiers = Modifiers { shift: false, control: true, alt: false, logo: false };

fn typed(text: &str, modifiers: Modifiers) -> Event {
    Event::KeyPressed(Key::Character(text.to_string()), modifiers)
}

#[test]
fn control_letters_move_the_focus() {
    let previous = Some(Message::KeyboardNav(KeyboardNav::FocusPrevious));
    let next = Some(Message::KeyboardNav(KeyboardNav::FocusNext));
    assert_eq!(map_event(typed("p", CONTROL), Status::Ignored), previous);
    assert_eq!(map_event(typed("k", CONTROL), Status::Captured), previous);
    assert_eq!(map_event(typed("n", CONTROL), Status::Ignored), next);
    assert_eq!(map_event(typed("j", CONTROL), Status::Captured), next);
    assert_eq!(map_event(typed("x", CONTROL), Status::Ignored), None);
    assert_eq!(map_event(typed("pp", CONTROL), Status::Ignored), None);
    assert_eq!(map_event(typed("", CONTROL), Status::Ignored), None);
    assert_eq!(map_event(typed("p", NONE), Status::Ignored), None);
}

#[test]
fn control_digits_activate_by_position() {
    for digit in 1..10usize {
        assert_eq!(
            map_event(typed(&digit.to_string(), CONTROL), Status::Ignored),
            Some(Message::Activate(Some(digit - 1)))
        );
    }
    assert_eq!(map_event(typed("0", CONTROL), Status::Ignored), Some(Message::Activate(Some(9))));
    assert_eq!(map_event(typed("10", CONTROL), Status::Ignored), None);
    assert_eq!(map_event(typed("1", NONE), Status::Ignored), None);
    assert_eq!(map_event(typed("\u{661}", CONTROL), Status::Ignored), None);
}

#[test]
fn named_keys() {
    let press = |key: Key| map_event(Event::KeyPressed(key, NONE), Status::Captured);
    assert_eq!(press(Key::ArrowUp), Some(Message::KeyboardNav(KeyboardNav::FocusPrevious)));
    assert_eq!(press(Key::ArrowDown), Some(Message::KeyboardNav(KeyboardNav::FocusNext)));
    assert_eq!(press(Key::Escape), Some(Message::Hide));
    assert_eq!(press(Key::Tab), Some(Message::TabPress));
    assert_eq!(press(Key::Alt), None);
    assert_eq!(press(Key::Super), None);
    assert_eq!(press(Key::Other), None);
    assert_eq!(
        map_event(Event::KeyPressed(Key::Escape, CONTROL), Status::Ignored),
        Some(Message::Hide)
    );
}

#[test]
fn backspace_counts_only_when_nothing_took_it() {
    let backspace = |modifiers, status| map_event(Event::KeyPressed(Key::Backspace, modifiers), status);
    assert_eq!(backspace(NONE, Status::Ignored), Some(Message::Backspace));
    assert_eq!(backspace(NONE, Status::Captured), None);
    assert_eq!(backspace(CONTROL, Status::Ignored), None);
    let shift = Modifiers { shift: true, ..NONE };
    assert_eq!(backspace(shift, Status::Ignored), None);
    assert!(NONE.is_empty());
    assert!(!shift.is_empty());
    assert!(!Modifiers { alt: true, ..NONE }.is_empty());
    assert!(!Modifiers { logo: true, ..NONE }.is_empty());
}

#[test]
fn releasing_the_cycling_modifier() {
    let release = |key: Key| map_event(Event::KeyReleased(key), Status::Ignored);
    assert_eq!(release(Key::Alt), Some(Message::AltRelease));
    assert_eq!(release(Key::Super), Some(Message::AltRelease));
    assert_eq!(release(Key::Tab), None);
    assert_eq!(release(Key::Character("a".to_string())), None);
}

#[test]
fn surface_and_pointer_events_pass_through() {
    assert_eq!(
        map_event(Event::Layer(LayerEvent::Unfocused), Status::Ignored),
        Some(Message::Layer(LayerEvent::Unfocused))
    );
    assert_eq!(
        map_event(Event::CursorMoved(4, -2), Status::Captured),
        Some(Message::CursorMoved(4, -2))
    );
    assert_eq!(map_event(Event::Other, Status::Ignored), None);
}
