use vstd::prelude::*;
use winit::event::VirtualKeyCode;

verus! {

/// A key on a keyboard.
///
/// Only the keys listed here are recognized. A raw key code that names none
/// of them has no `Key`: it is dropped, and no key callback runs for it.
#[derive(Debug, Clone, Copy, PartialEq, Eq, Hash, Structural)]
pub enum Key {
    Key1,
    Key2,
    Key3,
    Key4,
    Key5,
    Key6,
    Key7,
    Key8,
    Key9,
    Key0,
    A,
    B,
    C,
    D,
    E,
    F,
    G,
    H,
    I,
    J,
    K,
    L,
    M,
    N,
    O,
    P,
    Q,
    R,
    S,
    T,
    U,
    V,
    W,
    X,
    Y,
    Z,
    Escape,
    F1,
    F2,
    F3,
    F4,
    F5,
    F6,
    F7,
    F8,
    F9,
    F10,
    F11,
    F12,
    Insert,
    Home,
    Delete,
    End,
    PageDown,
    PageUp,
    Left,
    Up,
    Right,
    Down,
    Backspace,
    Return,
    Space,
    LAlt,
    LControl,
    LShift,
    RAlt,
    RControl,
    RShift,
    Tab,
}

/// The windowing system's symbolic key name, held as it comes.
#[verifier::external_type_specification]
#[verifier::external_body]
pub struct ExVirtualKeyCode(VirtualKeyCode);

/// The number of the raw key codes that the windowing system can report:
/// they are the codes below this bound.
pub const RAW_KEY_CODES: u32 = 161;

/// The raw code of a key name of the windowing system: the position of the
/// name in winit's list of key names, counted from 0.
pub uninterp spec fn raw_key_code(keycode: VirtualKeyCode) -> u32;

/// Reads the raw code of a `winit::event::VirtualKeyCode`, which is the
/// position of the name in winit's list of key names. The list has
/// `RAW_KEY_CODES` entries, counted from 0, so the code lies below that bound.
#[verifier::external_body]
fn virtual_key_code(keycode: VirtualKeyCode) -> (code: u32)
    ensures
        code == raw_key_code(keycode),
        code < RAW_KEY_CODES,
{
    keycode as u32
}

impl Key {
    /// The raw code under which the windowing system reports this key.
    pub open spec fn raw(self) -> u32 {
        match self {
            Key::Key1 => 0,
            Key::Key2 => 1,
            Key::Key3 => 2,
            Key::Key4 => 3,
            Key::Key5 => 4,
            Key::Key6 => 5,
            Key::Key7 => 6,
            Key::Key8 => 7,
            Key::Key9 => 8,
            Key::Key0 => 9,
            Key::A => 10,
            Key::B => 11,
            Key::C => 12,
            Key::D => 13,
            Key::E => 14,
            Key::F => 15,
            Key::G => 16,
            Key::H => 17,
            Key::I => 18,
            Key::J => 19,
            Key::K => 20,
            Key::L => 21,
            Key::M => 22,
            Key::N => 23,
            Key::O => 24,
            Key::P => 25,
            Key::Q => 26,
            Key::R => 27,
            Key::S => 28,
            Key::T => 29,
            Key::U => 30,
            Key::V => 31,
            Key::W => 32,
            Key::X => 33,
            Key::Y => 34,
            Key::Z => 35,
            Key::Escape => 36,
            Key::F1 => 37,
            Key::F2 => 38,
            Key::F3 => 39,
            Key::F4 => 40,
            Key::F5 => 41,
            Key::F6 => 42,
            Key::F7 => 43,
            Key::F8 => 44,
            Key::F9 => 45,
            Key::F10 => 46,
            Key::F11 => 47,
            Key::F12 => 48,
            Key::Insert => 64,
            Key::Home => 65,
            Key::Delete => 66,
            Key::End => 67,
            Key::PageDown => 68,
            Key::PageUp => 69,
            Key::Left => 70,
            Key::Up => 71,
            Key::Right => 72,
            Key::Down => 73,
            Key::Backspace => 74,
            Key::Return => 75,
            Key::Space => 76,
            Key::LAlt => 109,
            Key::LControl => 111,
            Key::LShift => 112,
            Key::RAlt => 133,
            Key::RControl => 135,
            Key::RShift => 136,
            Key::Tab => 144,
        }
    }

    /// Whether some key carries the raw code `code`.
    pub open spec fn recognized(code: u32) -> bool {
        exists|k: Key| k.raw() == code
    }

    /// The key that a raw code stands for, if there is one.
    pub open spec fn of_raw(code: u32) -> Option<Key> {
        if Self::recognized(code) {
            Some(choose|k: Key| k.raw() == code)
        } else {
            None
        }
    }

    /// The raw code of this key.
    pub fn code(self) -> (code: u32)
        ensures
            code == self.raw(),
            code < RAW_KEY_CODES,
    {
        match self {
            Key::Key1 => 0,
            Key::Key2 => 1,
            Key::Key3 => 2,
            Key::Key4 => 3,
            Key::Key5 => 4,
            Key::Key6 => 5,
            Key::Key7 => 6,
            Key::Key8 => 7,
            Key::Key9 => 8,
            Key::Key0 => 9,
            Key::A => 10,
            Key::B => 11,
            Key::C => 12,
            Key::D => 13,
            Key::E => 14,
            Key::F => 15,
            Key::G => 16,
            Key::H => 17,
            Key::I => 18,
            Key::J => 19,
            Key::K => 20,
            Key::L => 21,
            Key::M => 22,
            Key::N => 23,
            Key::O => 24,
            Key::P => 25,
            Key::Q => 26,
            Key::R => 27,
            Key::S => 28,
            Key::T => 29,
            Key::U => 30,
            Key::V => 31,
            Key::W => 32,
            Key::X => 33,
            Key::Y => 34,
            Key::Z => 35,
            Key::Escape => 36,
            Key::F1 => 37,
            Key::F2 => 38,
            Key::F3 => 39,
            Key::F4 => 40,
            Key::F5 => 41,
            Key::F6 => 42,
            Key::F7 => 43,
            Key::F8 => 44,
            Key::F9 => 45,
            Key::F10 => 46,
            Key::F11 => 47,
            Key::F12 => 48,
            Key::Insert => 64,
            Key::Home => 65,
            Key::Delete => 66,
            Key::End => 67,
            Key::PageDown => 68,
            Key::PageUp => 69,
            Key::Left => 70,
            Key::Up => 71,
            Key::Right => 72,
            Key::Down => 73,
            Key::Backspace => 74,
            Key::Return => 75,
            Key::Space => 76,
            Key::LAlt => 109,
            Key::LControl => 111,
            Key::LShift => 112,
            Key::RAlt => 133,
            Key::RControl => 135,
            Key::RShift => 136,
            Key::Tab => 144,
        }
    }

    /// Normalizes a raw key code.
    ///
    /// This mapping is partial: a code that no key carries gives `None`,
    /// and the caller drops the event.
    pub fn from_code(code: u32) -> (key: Option<Key>)
        ensures
            key == Self::of_raw(code),
            key matches Some(k) ==> k.raw() == code,
            forall|k: Key| #[trigger] k.raw() == code ==> key == Some(k),
    {
        let key = match code {
            0 => Some(Key::Key1),
            1 => Some(Key::Key2),
            2 => Some(Key::Key3),
            3 => Some(Key::Key4),
            4 => Some(Key::Key5),
            5 => Some(Key::Key6),
            6 => Some(Key::Key7),
            7 => Some(Key::Key8),
            8 => Some(Key::Key9),
            9 => Some(Key::Key0),
            10 => Some(Key::A),
            11 => Some(Key::B),
            12 => Some(Key::C),
            13 => Some(Key::D),
            14 => Some(Key::E),
            15 => Some(Key::F),
            16 => Some(Key::G),
            17 => Some(Key::H),
            18 => Some(Key::I),
            19 => Some(Key::J),
            20 => Some(Key::K),
            21 => Some(Key::L),
            22 => Some(Key::M),
            23 => Some(Key::N),
            24 => Some(Key::O),
            25 => Some(Key::P),
            26 => Some(Key::Q),
            27 => Some(Key::R),
            28 => Some(Key::S),
            29 => Some(Key::T),
            30 => Some(Key::U),
            31 => Some(Key::V),
            32 => Some(Key::W),
            33 => Some(Key::X),
            34 => Some(Key::Y),
            35 => Some(Key::Z),
            36 => Some(Key::Escape),
            37 => Some(Key::F1),
            38 => Some(Key::F2),
            39 => Some(Key::F3),
            40 => Some(Key::F4),
            41 => Some(Key::F5),
            42 => Some(Key::F6),
            43 => Some(Key::F7),
            44 => Some(Key::F8),
            45 => Some(Key::F9),
            46 => Some(Key::F10),
            47 => Some(Key::F11),
            48 => Some(Key::F12),
            64 => Some(Key::Insert),
            65 => Some(Key::Home),
            66 => Some(Key::Delete),
            67 => Some(Key::End),
            68 => Some(Key::PageDown),
            69 => Some(Key::PageUp),
            70 => Some(Key::Left),
            71 => Some(Key::Up),
            72 => Some(Key::Right),
            73 => Some(Key::Down),
            74 => Some(Key::Backspace),
            75 => Some(Key::Return),
            76 => Some(Key::Space),
            109 => Some(Key::LAlt),
            111 => Some(Key::LControl),
            112 => Some(Key::LShift),
            133 => Some(Key::RAlt),
            135 => Some(Key::RControl),
            136 => Some(Key::RShift),
            144 => Some(Key::Tab),
            _ => None,
        };
        proof {
            match key {
                Some(k) => {
                    assert(k.raw() == code);
                    Self::lemma_raw_injective(k, choose|k: Key| k.raw() == code);
                    assert forall|j: Key| #[trigger] j.raw() == code implies key == Some(j) by {
                        Self::lemma_raw_injective(k, j);
                    }
                },
                None => {
                    Self::lemma_unlisted(code);
                },
            }
        }
        key
    }

    /// The raw code of a key name of the windowing system.
    pub fn code_of(keycode: VirtualKeyCode) -> (code: u32)
        ensures
            code == raw_key_code(keycode),
            code < RAW_KEY_CODES,
    {
        virtual_key_code(keycode)
    }

    /// Normalizes the windowing system's key name: the key that carries the
    /// name's raw code, if there is one.
    pub fn from_winit(keycode: VirtualKeyCode) -> (key: Option<Key>)
        ensures
            key == Self::of_raw(raw_key_code(keycode)),
            raw_key_code(keycode) < RAW_KEY_CODES,
    {
        let code: u32 = Self::code_of(keycode);
        Self::from_code(code)
    }

    /// No two keys share a raw code.
    pub proof fn lemma_raw_injective(a: Key, b: Key)
        ensures
            a.raw() == b.raw() <==> a == b,
    {
    }

    /// Reading a key's own code back gives the key again.
    pub proof fn lemma_of_raw_inverts(k: Key)
        ensures
            Self::of_raw(k.raw()) == Some(k),
    {
        Self::lemma_raw_injective(k, choose|j: Key| j.raw() == k.raw());
    }

    /// A code outside the table belongs to no key.
    proof fn lemma_unlisted(code: u32)
        requires
            !(0 <= code <= 48),
            !(64 <= code <= 76),
            code != 109,
            !(111 <= code <= 112),
            code != 133,
            !(135 <= code <= 136),
            code != 144,
        ensures
            forall|k: Key| k.raw() != code,
    {
    }
}

} // verus!
