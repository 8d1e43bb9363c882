use vstd::prelude::*;

verus! {

/// An axis on a gamepad.
///
/// `Unknown` stands for every raw code that names no axis.
#[derive(Debug, Clone, Copy, PartialEq, Eq, Hash, Structural)]
pub enum Axis {
    LeftStickX,
    LeftStickY,
    LeftZ,
    RightStickX,
    RightStickY,
    RightZ,
    DPadX,
    DPadY,
    Unknown,
}

impl Axis {
    /// The raw code under which the gamepad driver reports this axis.
    /// `Unknown` has the code 0.
    pub open spec fn raw(self) -> u16 {
        match self {
            Axis::Unknown => 0,
            Axis::LeftStickX => 1,
            Axis::LeftStickY => 2,
            Axis::LeftZ => 3,
            Axis::RightStickX => 4,
            Axis::RightStickY => 5,
            Axis::RightZ => 6,
            Axis::DPadX => 7,
            Axis::DPadY => 8,
        }
    }

    /// Whether `code` names one of the axes other than `Unknown`.
    pub open spec fn recognized(code: u16) -> bool {
        1 <= code <= 8
    }

    /// The axis that a raw code stands for: the one with that code where the
    /// code is recognized, `Unknown` otherwise.
    pub open spec fn of_raw(code: u16) -> Axis {
        if Self::recognized(code) {
            choose|a: Axis| a.raw() == code
        } else {
            Axis::Unknown
        }
    }

    /// The raw code of this axis.
    pub fn code(self) -> (code: u16)
        ensures
            code == self.raw(),
    {
        match self {
            Axis::Unknown => 0,
            Axis::LeftStickX => 1,
            Axis::LeftStickY => 2,
            Axis::LeftZ => 3,
            Axis::RightStickX => 4,
            Axis::RightStickY => 5,
            Axis::RightZ => 6,
            Axis::DPadX => 7,
            Axis::DPadY => 8,
        }
    }

    /// Normalizes a raw gamepad axis code.
    ///
    /// The mapping is total: a recognized code gives the axis that
    /// carries it, and every other code gives `Unknown`.
    pub fn from_gilrs(code: u16) -> (axis: Axis)
        ensures
            axis == Self::of_raw(code),
            Self::recognized(code) ==> axis.raw() == code && axis != Axis::Unknown,
            !Self::recognized(code) ==> axis == Axis::Unknown,
    {
        let axis = match code {
            1 => Axis::LeftStickX,
            2 => Axis::LeftStickY,
            3 => Axis::LeftZ,
            4 => Axis::RightStickX,
            5 => Axis::RightStickY,
            6 => Axis::RightZ,
            7 => Axis::DPadX,
            8 => Axis::DPadY,
            _ => Axis::Unknown,
        };
        proof {
            Self::lemma_of_raw(code);
            Self::lemma_raw_injective(axis, Self::of_raw(code));
        }
        axis
    }

    /// No two axes share a raw code.
    pub proof fn lemma_raw_injective(a: Axis, b: Axis)
        ensures
            a.raw() == b.raw() <==> a == b,
    {
    }

    /// A recognized code stands for the axis that carries it, which is not
    /// `Unknown`; every other code stands for `Unknown`.
    pub proof fn lemma_of_raw(code: u16)
        ensures
            Self::recognized(code) ==> Self::of_raw(code).raw() == code && Self::of_raw(code)
                != Axis::Unknown,
            !Self::recognized(code) ==> Self::of_raw(code) == Axis::Unknown,
    {
        if Self::recognized(code) {
            assert(Axis::LeftStickX.raw() == 1);
            assert(Axis::LeftStickY.raw() == 2);
            assert(Axis::LeftZ.raw() == 3);
            assert(Axis::RightStickX.raw() == 4);
            assert(Axis::RightStickY.raw() == 5);
            assert(Axis::RightZ.raw() == 6);
            assert(Axis::DPadX.raw() == 7);
            assert(Axis::DPadY.raw() == 8);
            assert(exists|a: Axis| a.raw() == code);
        }
    }

    /// Reading an axis' own code back gives the axis again.
    pub proof fn lemma_of_raw_inverts(a: Axis)
        ensures
            Self::of_raw(a.raw()) == a,
    {
        Self::lemma_raw_injective(a, Self::of_raw(a.raw()));
    }
}

} // verus!
