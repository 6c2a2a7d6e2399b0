use imui::key::Key;
use winit::event::VirtualKeyCode;

#[test]
fn every_named_key_code_maps_to_its_key() {
    let pairs = [
        (VirtualKeyCode::A, Key::A),
        (VirtualKeyCode::B, Key::B),
        (VirtualKeyCode::C, Key::C),
        (VirtualKeyCode::D, Key::D),
        (VirtualKeyCode::E, Key::E),
        (VirtualKeyCode::F, Key::F),
        (VirtualKeyCode::G, Key::G),
        (VirtualKeyCode::H, Key::H),
        (VirtualKeyCode::I, Key::I),
        (VirtualKeyCode::J, Key::J),
        (VirtualKeyCode::K, Key::K),
        (VirtualKeyCode::L, Key::L),
        (VirtualKeyCode::M, Key::M),
        (VirtualKeyCode::N, Key::N),
        (VirtualKeyCode::O, Key::O),
        (VirtualKeyCode::P, Key::P),
        (VirtualKeyCode::Q, Key::Q),
        (VirtualKeyCode::R, Key::R),
        (VirtualKeyCode::S, Key::S),
        (VirtualKeyCode::T, Key::T),
        (VirtualKeyCode::U, Key::U),
        (VirtualKeyCode::V, Key::V),
        (VirtualKeyCode::W, Key::W),
        (VirtualKeyCode::X, Key::X),
        (VirtualKeyCode::Y, Key::Y),
        (VirtualKeyCode::Z, Key::Z),
        (VirtualKeyCode::Key1, Key::One),
        (VirtualKeyCode::Key2, Key::Two),
        (VirtualKeyCode::Key3, Key::Three),
        (VirtualKeyCode::Key4, Key::Four),
        (VirtualKeyCode::Key5, Key::Five),
        (VirtualKeyCode::Key6, Key::Six),
        (VirtualKeyCode::Key7, Key::Seven),
        (VirtualKeyCode::Key8, Key::Eight),
        (VirtualKeyCode::Key9, Key::Nine),
        (VirtualKeyCode::Key0, Key::Zero),
        (VirtualKeyCode::F1, Key::F1),
        (VirtualKeyCode::F2, Key::F2),
        (VirtualKeyCode::F3, Key::F3),
        (VirtualKeyCode::F4, Key::F4),
        (VirtualKeyCode::F5, Key::F5),
        (VirtualKeyCode::F6, Key::F6),
        (VirtualKeyCode::F7, Key::F7),
        (VirtualKeyCode::F8, Key::F8),
        (VirtualKeyCode::F9, Key::F9),
        (VirtualKeyCode::F10, Key::F10),
        (VirtualKeyCode::F11, Key::F11),
        (VirtualKeyCode::F12, Key::F12),
        (VirtualKeyCode::Back, Key::Backspace),
        (VirtualKeyCode::Return, Key::Enter),
        (VirtualKeyCode::Escape, Key::Escape),
        (VirtualKeyCode::Tab, Key::Tab),
        (VirtualKeyCode::Space, Key::Space),
        (VirtualKeyCode::Equals, Key::Equals),
        (VirtualKeyCode::Minus, Key::Minus),
        (VirtualKeyCode::LControl, Key::LControl),
        (VirtualKeyCode::LAlt, Key::LAlt),
        (VirtualKeyCode::LShift, Key::LShift),
        (VirtualKeyCode::LWin, Key::LWin),
        (VirtualKeyCode::RControl, Key::RControl),
        (VirtualKeyCode::RAlt, Key::RAlt),
        (VirtualKeyCode::RShift, Key::RShift),
        (VirtualKeyCode::RWin, Key::RWin),
    ];
    assert_eq!(pairs.len(), 63);
    for (code, key) in pairs {
        assert_eq!(Key::from_virtual(code), Some(key), "{:?}", code);
        assert_eq!(Key::from_number(code as u32), Some(key), "{:?}", code);
    }
}

#[test]
fn key_codes_without_a_logical_key_map_to_none() {
    for code in [
        VirtualKeyCode::F13,
        VirtualKeyCode::F24,
        VirtualKeyCode::Left,
        VirtualKeyCode::Up,
        VirtualKeyCode::Delete,
        VirtualKeyCode::Numpad0,
        VirtualKeyCode::NumpadEnter,
        VirtualKeyCode::NumpadEquals,
        VirtualKeyCode::Comma,
        VirtualKeyCode::Period,
        VirtualKeyCode::Semicolon,
        VirtualKeyCode::Cut,
    ] {
        assert_eq!(Key::from_virtual(code), None, "{:?}", code);
    }
}

#[test]
fn key_numbers_follow_the_declaration_order() {
    assert_eq!(Key::from_number(0), Some(Key::One));
    assert_eq!(Key::from_number(9), Some(Key::Zero));
    assert_eq!(Key::from_number(10), Some(Key::A));
    assert_eq!(Key::from_number(35), Some(Key::Z));
    assert_eq!(Key::from_number(36), Some(Key::Escape));
    assert_eq!(Key::from_number(37), Some(Key::F1));
    assert_eq!(Key::from_number(48), Some(Key::F12));
    assert_eq!(Key::from_number(49), None);
    assert_eq!(Key::from_number(1000), None);
    assert_eq!(Key::from_number(u32::MAX), None);
}

#[test]
fn a_pressed_key_code_prints_its_character() {
    let key = Key::from_virtual(VirtualKeyCode::Key7).unwrap();
    assert_eq!(key.to_char(), '7');
    let key = Key::from_virtual(VirtualKeyCode::Return).unwrap();
    assert_eq!(key.to_char(), '\n');
}
