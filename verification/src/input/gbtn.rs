use vstd::prelude::*;

verus! {

/// A button on a gamepad.
///
/// The variants follow the layout that gamepad drivers report: an action pad,
/// two pairs of triggers, a menu pad, two stick buttons and a d-pad.
/// `Unknown` stands for every raw code that names none of them.
#[derive(Debug, Clone, Copy, PartialEq, Eq, Hash, Structural)]
pub enum GamepadButton {
    // Action Pad
    South,
    East,
    North,
    West,
    C,
    Z,
    // Triggers
    LeftTrigger,
    LeftTrigger2,
    RightTrigger,
    RightTrigger2,
    // Menu Pad
    Select,
    Start,
    Mode,
    // Sticks
    LeftThumb,
    RightThumb,
    // D-Pad
    DPadUp,
    DPadDown,
    DPadLeft,
    DPadRight,
    Unknown,
}

/// The short name that older callers use for [`GamepadButton`].
pub type Button = GamepadButton;

impl GamepadButton {
    /// The raw code under which the gamepad driver reports this button.
    /// `Unknown` has the code 0, which the driver uses for a button it
    /// cannot name.
    pub open spec fn raw(self) -> u16 {
        match self {
            GamepadButton::Unknown => 0,
            GamepadButton::South => 1,
            GamepadButton::East => 2,
            GamepadButton::C => 3,
            GamepadButton::North => 4,
            GamepadButton::West => 5,
            GamepadButton::Z => 6,
            GamepadButton::LeftTrigger => 7,
            GamepadButton::RightTrigger => 8,
            GamepadButton::LeftTrigger2 => 9,
            GamepadButton::RightTrigger2 => 10,
            GamepadButton::Select => 11,
            GamepadButton::Start => 12,
            GamepadButton::Mode => 13,
            GamepadButton::LeftThumb => 14,
            GamepadButton::RightThumb => 15,
            GamepadButton::DPadUp => 16,
            GamepadButton::DPadDown => 17,
            GamepadButton::DPadLeft => 18,
            GamepadButton::DPadRight => 19,
        }
    }

    /// Whether `code` names one of the buttons other than `Unknown`.
    pub open spec fn recognized(code: u16) -> bool {
        1 <= code <= 19
    }

    /// The button that a raw code stands for: the one with that code where
    /// the code is recognized, `Unknown` otherwise.
    pub open spec fn of_raw(code: u16) -> GamepadButton {
        if Self::recognized(code) {
            choose|b: GamepadButton| b.raw() == code
        } else {
            GamepadButton::Unknown
        }
    }

    /// The raw code of this button.
    pub fn code(self) -> (code: u16)
        ensures
            code == self.raw(),
    {
        match self {
            GamepadButton::Unknown => 0,
            GamepadButton::South => 1,
            GamepadButton::East => 2,
            GamepadButton::C => 3,
            GamepadButton::North => 4,
            GamepadButton::West => 5,
            GamepadButton::Z => 6,
            GamepadButton::LeftTrigger => 7,
            GamepadButton::RightTrigger => 8,
            GamepadButton::LeftTrigger2 => 9,
            GamepadButton::RightTrigger2 => 10,
            GamepadButton::Select => 11,
            GamepadButton::Start => 12,
            GamepadButton::Mode => 13,
            GamepadButton::LeftThumb => 14,
            GamepadButton::RightThumb => 15,
            GamepadButton::DPadUp => 16,
            GamepadButton::DPadDown => 17,
            GamepadButton::DPadLeft => 18,
            GamepadButton::DPadRight => 19,
        }
    }

    /// Normalizes a raw gamepad button code.
    ///
    /// The mapping never fails: a recognized code gives the button that
    /// carries it, and every other code degrades to `Unknown`.
    pub fn from_gilrs(code: u16) -> (button: Option<GamepadButton>)
        ensures
            button == Some(Self::of_raw(code)),
            Self::recognized(code) ==> button.unwrap().raw() == code
                && button.unwrap() != GamepadButton::Unknown,
            !Self::recognized(code) ==> button == Some(GamepadButton::Unknown),
    {
        let button = match code {
            1 => GamepadButton::South,
            2 => GamepadButton::East,
            3 => GamepadButton::C,
            4 => GamepadButton::North,
            5 => GamepadButton::West,
            6 => GamepadButton::Z,
            7 => GamepadButton::LeftTrigger,
            8 => GamepadButton::RightTrigger,
            9 => GamepadButton::LeftTrigger2,
            10 => GamepadButton::RightTrigger2,
            11 => GamepadButton::Select,
            12 => GamepadButton::Start,
            13 => GamepadButton::Mode,
            14 => GamepadButton::LeftThumb,
            15 => GamepadButton::RightThumb,
            16 => GamepadButton::DPadUp,
            17 => GamepadButton::DPadDown,
            18 => GamepadButton::DPadLeft,
            19 => GamepadButton::DPadRight,
            _ => GamepadButton::Unknown,
        };
        proof {
            Self::lemma_of_raw(code);
            Self::lemma_raw_injective(button, Self::of_raw(code));
        }
        Some(button)
    }

    /// No two buttons share a raw code.
    pub proof fn lemma_raw_injective(a: GamepadButton, b: GamepadButton)
        ensures
            a.raw() == b.raw() <==> a == b,
    {
    }

    /// A recognized code stands for the button that carries it, which is
    /// not `Unknown`; every other code stands for `Unknown`.
    pub proof fn lemma_of_raw(code: u16)
        ensures
            Self::recognized(code) ==> Self::of_raw(code).raw() == code && Self::of_raw(code)
                != GamepadButton::Unknown,
            !Self::recognized(code) ==> Self::of_raw(code) == GamepadButton::Unknown,
    {
        if Self::recognized(code) {
            assert(GamepadButton::South.raw() == 1);
            assert(GamepadButton::East.raw() == 2);
            assert(GamepadButton::C.raw() == 3);
            assert(GamepadButton::North.raw() == 4);
            assert(GamepadButton::West.raw() == 5);
            assert(GamepadButton::Z.raw() == 6);
            assert(GamepadButton::LeftTrigger.raw() == 7);
            assert(GamepadButton::RightTrigger.raw() == 8);
            assert(GamepadButton::LeftTrigger2.raw() == 9);
            assert(GamepadButton::RightTrigger2.raw() == 10);
            assert(GamepadButton::Select.raw() == 11);
            assert(GamepadButton::Start.raw() == 12);
            assert(GamepadButton::Mode.raw() == 13);
            assert(GamepadButton::LeftThumb.raw() == 14);
            assert(GamepadButton::RightThumb.raw() == 15);
            assert(GamepadButton::DPadUp.raw() == 16);
            assert(GamepadButton::DPadDown.raw() == 17);
            assert(GamepadButton::DPadLeft.raw() == 18);
            assert(GamepadButton::DPadRight.raw() == 19);
            assert(exists|b: GamepadButton| b.raw() == code);
        }
    }

    /// Reading a button's own code back gives the button again.
    pub proof fn lemma_of_raw_inverts(b: GamepadButton)
        ensures
            Self::of_raw(b.raw()) == b,
    {
        Self::lemma_raw_injective(b, Self::of_raw(b.raw()));
    }
}

} // verus!
