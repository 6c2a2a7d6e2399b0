//! Logical keys.

use vstd::prelude::*;
use vstd::std_specs::convert::FromSpecImpl;
use winit::event::VirtualKeyCode;

verus! {

/// `winit::event::VirtualKeyCode`, the key codes of the windowing system,
/// carried as an opaque value.
#[verifier::external_type_specification]
#[verifier::external_body]
pub struct ExVirtualKeyCode(VirtualKeyCode);

/// The number of a key code: `winit::event::VirtualKeyCode` is a `u32` enum
/// that numbers its variants from 0 in the order it declares them.
pub uninterp spec fn key_code_number(code: VirtualKeyCode) -> u32;

/// The number of a key code, by its cast to `u32`: the number depends on the
/// code alone.
#[verifier::external_body]
fn code_number(code: VirtualKeyCode) -> (number: u32)
    ensures
        number == key_code_number(code),
{
    code as u32
}

/// A key of the keyboard, named by what it is rather than by a platform code.
#[derive(Copy, Clone, Debug, PartialEq, Eq, Structural)]
pub enum Key {
    A,
    B,
    C,
    D,
    E,
    F,
    G,
    H,
    I,
    J,
    K,
    L,
    M,
    N,
    O,
    P,
    Q,
    R,
    S,
    T,
    U,
    V,
    W,
    X,
    Y,
    Z,
    One,
    Two,
    Three,
    Four,
    Five,
    Six,
    Seven,
    Eight,
    Nine,
    Zero,
    F1,
    F2,
    F3,
    F4,
    F5,
    F6,
    F7,
    F8,
    F9,
    F10,
    F11,
    F12,
    Backspace,
    Equals,
    Minus,
    Enter,
    Escape,
    Tab,
    Space,
    LControl,
    LAlt,
    LShift,
    LWin,
    RControl,
    RAlt,
    RShift,
    RWin,
}

impl Key {
    /// The key that a key code of the given number stands for: the digits are
    /// numbered from 0, the letters from 10, Escape is 36, F1 to F12 follow
    /// from 37; the other keys lie further up. Numbers of key codes that have
    /// no logical key give `None`.
    pub open spec fn spec_from_number(number: u32) -> Option<Key> {
        match number {
            0 => Some(Key::One),
            1 => Some(Key::Two),
            2 => Some(Key::Three),
            3 => Some(Key::Four),
            4 => Some(Key::Five),
            5 => Some(Key::Six),
            6 => Some(Key::Seven),
            7 => Some(Key::Eight),
            8 => Some(Key::Nine),
            9 => Some(Key::Zero),
            10 => Some(Key::A),
            11 => Some(Key::B),
            12 => Some(Key::C),
            13 => Some(Key::D),
            14 => Some(Key::E),
            15 => Some(Key::F),
            16 => Some(Key::G),
            17 => Some(Key::H),
            18 => Some(Key::I),
            19 => Some(Key::J),
            20 => Some(Key::K),
            21 => Some(Key::L),
            22 => Some(Key::M),
            23 => Some(Key::N),
            24 => Some(Key::O),
            25 => Some(Key::P),
            26 => Some(Key::Q),
            27 => Some(Key::R),
            28 => Some(Key::S),
            29 => Some(Key::T),
            30 => Some(Key::U),
            31 => Some(Key::V),
            32 => Some(Key::W),
            33 => Some(Key::X),
            34 => Some(Key::Y),
            35 => Some(Key::Z),
            36 => Some(Key::Escape),
            37 => Some(Key::F1),
            38 => Some(Key::F2),
            39 => Some(Key::F3),
            40 => Some(Key::F4),
            41 => Some(Key::F5),
            42 => Some(Key::F6),
            43 => Some(Key::F7),
            44 => Some(Key::F8),
            45 => Some(Key::F9),
            46 => Some(Key::F10),
            47 => Some(Key::F11),
            48 => Some(Key::F12),
            74 => Some(Key::Backspace),
            75 => Some(Key::Enter),
            76 => Some(Key::Space),
            111 => Some(Key::Equals),
            115 => Some(Key::LAlt),
            117 => Some(Key::LControl),
            118 => Some(Key::LShift),
            119 => Some(Key::LWin),
            123 => Some(Key::Minus),
            136 => Some(Key::RAlt),
            138 => Some(Key::RControl),
            139 => Some(Key::RShift),
            140 => Some(Key::RWin),
            146 => Some(Key::Tab),
            _ => None,
        }
    }

    /// The key that a key code of the given number stands for.
    pub fn from_number(number: u32) -> (key: Option<Key>)
        ensures
            key == Key::spec_from_number(number),
    {
        match number {
            0 => Some(Key::One),
            1 => Some(Key::Two),
            2 => Some(Key::Three),
            3 => Some(Key::Four),
            4 => Some(Key::Five),
            5 => Some(Key::Six),
            6 => Some(Key::Seven),
            7 => Some(Key::Eight),
            8 => Some(Key::Nine),
            9 => Some(Key::Zero),
            10 => Some(Key::A),
            11 => Some(Key::B),
            12 => Some(Key::C),
            13 => Some(Key::D),
            14 => Some(Key::E),
            15 => Some(Key::F),
            16 => Some(Key::G),
            17 => Some(Key::H),
            18 => Some(Key::I),
            19 => Some(Key::J),
            20 => Some(Key::K),
            21 => Some(Key::L),
            22 => Some(Key::M),
            23 => Some(Key::N),
            24 => Some(Key::O),
            25 => Some(Key::P),
            26 => Some(Key::Q),
            27 => Some(Key::R),
            28 => Some(Key::S),
            29 => Some(Key::T),
            30 => Some(Key::U),
            31 => Some(Key::V),
            32 => Some(Key::W),
            33 => Some(Key::X),
            34 => Some(Key::Y),
            35 => Some(Key::Z),
            36 => Some(Key::Escape),
            37 => Some(Key::F1),
            38 => Some(Key::F2),
            39 => Some(Key::F3),
            40 => Some(Key::F4),
            41 => Some(Key::F5),
            42 => Some(Key::F6),
            43 => Some(Key::F7),
            44 => Some(Key::F8),
            45 => Some(Key::F9),
            46 => Some(Key::F10),
            47 => Some(Key::F11),
            48 => Some(Key::F12),
            74 => Some(Key::Backspace),
            75 => Some(Key::Enter),
            76 => Some(Key::Space),
            111 => Some(Key::Equals),
            115 => Some(Key::LAlt),
            117 => Some(Key::LControl),
            118 => Some(Key::LShift),
            119 => Some(Key::LWin),
            123 => Some(Key::Minus),
            136 => Some(Key::RAlt),
            138 => Some(Key::RControl),
            139 => Some(Key::RShift),
            140 => Some(Key::RWin),
            146 => Some(Key::Tab),
            _ => None,
        }
    }

    /// The logical key of a key code of the windowing system, by the code's
    /// number; `None` for a code that has no logical key.
    pub fn from_virtual(code: VirtualKeyCode) -> (key: Option<Key>)
        ensures
            key == Key::spec_from_number(key_code_number(code)),
    {
        Key::from_number(code_number(code))
    }

    /// The character a key stands for. Letters give their lower-case form,
    /// except that `Y` gives `'u'`; keys that print nothing give the NUL
    /// character.
    pub open spec fn spec_char(self) -> char {
        match self {
            Key::A => 'a',
            Key::B => 'b',
            Key::C => 'c',
            Key::D => 'd',
            Key::E => 'e',
            Key::F => 'f',
            Key::G => 'g',
            Key::H => 'h',
            Key::I => 'i',
            Key::J => 'j',
            Key::K => 'k',
            Key::L => 'l',
            Key::M => 'm',
            Key::N => 'n',
            Key::O => 'o',
            Key::P => 'p',
            Key::Q => 'q',
            Key::R => 'r',
            Key::S => 's',
            Key::T => 't',
            Key::U => 'u',
            Key::V => 'v',
            Key::W => 'w',
            Key::X => 'x',
            Key::Y => 'u',
            Key::Z => 'z',
            Key::One => '1',
            Key::Two => '2',
            Key::Three => '3',
            Key::Four => '4',
            Key::Five => '5',
            Key::Six => '6',
            Key::Seven => '7',
            Key::Eight => '8',
            Key::Nine => '9',
            Key::Zero => '0',
            Key::F1 => '\0',
            Key::F2 => '\0',
            Key::F3 => '\0',
            Key::F4 => '\0',
            Key::F5 => '\0',
            Key::F6 => '\0',
            Key::F7 => '\0',
            Key::F8 => '\0',
            Key::F9 => '\0',
            Key::F10 => '\0',
            Key::F11 => '\0',
            Key::F12 => '\0',
            Key::Backspace => '\0',
            Key::Equals => '=',
            Key::Minus => '-',
            Key::Enter => '\n',
            Key::Escape => '\0',
            Key::Tab => '\t',
            Key::Space => ' ',
            Key::LControl => '\0',
            Key::LAlt => '\0',
            Key::LShift => '\0',
            Key::LWin => '\0',
            Key::RControl => '\0',
            Key::RAlt => '\0',
            Key::RShift => '\0',
            Key::RWin => '\0',
        }
    }

    /// The character a key stands for.
    pub fn to_char(self) -> (c: char)
        ensures
            c == self.spec_char(),
    {
        match self {
            Key::A => 'a',
            Key::B => 'b',
            Key::C => 'c',
            Key::D => 'd',
            Key::E => 'e',
            Key::F => 'f',
            Key::G => 'g',
            Key::H => 'h',
            Key::I => 'i',
            Key::J => 'j',
            Key::K => 'k',
            Key::L => 'l',
            Key::M => 'm',
            Key::N => 'n',
            Key::O => 'o',
            Key::P => 'p',
            Key::Q => 'q',
            Key::R => 'r',
            Key::S => 's',
            Key::T => 't',
            Key::U => 'u',
            Key::V => 'v',
            Key::W => 'w',
            Key::X => 'x',
            Key::Y => 'u',
            Key::Z => 'z',
            Key::One => '1',
            Key::Two => '2',
            Key::Three => '3',
            Key::Four => '4',
            Key::Five => '5',
            Key::Six => '6',
            Key::Seven => '7',
            Key::Eight => '8',
            Key::Nine => '9',
            Key::Zero => '0',
            Key::F1 => '\0',
            Key::F2 => '\0',
            Key::F3 => '\0',
            Key::F4 => '\0',
            Key::F5 => '\0',
            Key::F6 => '\0',
            Key::F7 => '\0',
            Key::F8 => '\0',
            Key::F9 => '\0',
            Key::F10 => '\0',
            Key::F11 => '\0',
            Key::F12 => '\0',
            Key::Backspace => '\0',
            Key::Equals => '=',
            Key::Minus => '-',
            Key::Enter => '\n',
            Key::Escape => '\0',
            Key::Tab => '\t',
            Key::Space => ' ',
            Key::LControl => '\0',
            Key::LAlt => '\0',
            Key::LShift => '\0',
            Key::LWin => '\0',
            Key::RControl => '\0',
            Key::RAlt => '\0',
            Key::RShift => '\0',
            Key::RWin => '\0',
        }
    }
}

impl From<Key> for char {
    fn from(key: Key) -> (c: char) {
        key.to_char()
    }
}

impl FromSpecImpl<Key> for char {
    open spec fn obeys_from_spec() -> bool {
        true
    }

    open spec fn from_spec(key: Key) -> char {
        key.spec_char()
    }
}

} // verus!
