use watch_party::keys::{Key, TouchEvent};

#[test]
fn symbols_of_letters_and_arrows() {
    assert_eq!(Key::A.get_symbol(), "A");
    assert_eq!(Key::Z.get_symbol(), "Z");
    assert_eq!(Key::UpArrow.get_symbol(), "\u{2b06}\u{fe0f}");
    assert_eq!(Key::RightArrow.get_symbol(), "\u{27a1}\u{fe0f}");
    assert_eq!(Key::Space.get_symbol(), "");
    assert_eq!(Key::CtrlLeft.get_symbol(), "Ctrl");
    assert_eq!(Key::CtrlRight.get_symbol(), "Ctrl");
}

#[test]
fn key_codes_map_to_keys() {
    assert_eq!(Key::from_code("KeyA"), Some(Key::A));
    assert_eq!(Key::from_code("KeyQ"), Some(Key::Q));
    assert_eq!(Key::from_code("ArrowUp"), Some(Key::UpArrow));
    assert_eq!(Key::from_code("ArrowDown"), Some(Key::DownArrow));
    assert_eq!(Key::from_code("ArrowLeft"), Some(Key::LeftArrow));
    assert_eq!(Key::from_code("ArrowRight"), Some(Key::RightArrow));
    assert_eq!(Key::from_code("ControlLeft"), Some(Key::CtrlLeft));
    assert_eq!(Key::from_code("ControlRight"), Some(Key::CtrlRight));
    assert_eq!(Key::from_code("SPace"), Some(Key::Space));
}

#[test]
fn unknown_key_codes_are_refused() {
    assert_eq!(Key::from_code("Keya"), None);
    assert_eq!(Key::from_code("Key1"), None);
    assert_eq!(Key::from_code("KeyAB"), None);
    assert_eq!(Key::from_code("Enter"), None);
    assert_eq!(Key::from_code(""), None);
}

#[test]
fn touch_events_compare() {
    assert_ne!(TouchEvent::TouchEnter, TouchEvent::TouchLeave);
}
