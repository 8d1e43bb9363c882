use vstd::prelude::*;

pub mod axis;
pub mod gbtn;
pub mod key;
pub mod mbtn;

pub use axis::Axis;
pub use gbtn::Button;
pub use gbtn::GamepadButton;
pub use key::Key;
pub use mbtn::MouseButton;

verus! {

/// An ID that identifies an external device.
///
/// Used for telling apart the devices that provide input. Two kinds of
/// device exist, those that the windowing system reports and the gamepads
/// that the gamepad driver reports, and each kind numbers its devices on its
/// own. An id therefore holds the kind beside the number, so that a window
/// device and a gamepad with the same number are still two devices.
#[derive(Debug, Copy, Clone, PartialEq, Eq, Hash, Structural)]
pub struct DeviceId(Enum);

#[derive(Debug, Copy, Clone, PartialEq, Eq, Hash, Structural)]
enum Enum {
    Winit(u64),
    Gilrs(usize),
}

impl DeviceId {
    /// Whether the device is a gamepad.
    pub closed spec fn is_gamepad(self) -> bool {
        self.0 is Gilrs
    }

    /// The number of the device among those of its kind.
    pub closed spec fn number(self) -> nat {
        match self.0 {
            Enum::Winit(n) => n as nat,
            Enum::Gilrs(n) => n as nat,
        }
    }

    /// The id of the window device with the number `raw`.
    pub closed spec fn of_window(raw: u64) -> DeviceId {
        DeviceId(Enum::Winit(raw))
    }

    /// The id of the gamepad with the number `raw`.
    pub closed spec fn of_gamepad(raw: usize) -> DeviceId {
        DeviceId(Enum::Gilrs(raw))
    }

    /// The id of the window device with the number `raw`.
    pub fn from_winit(raw: u64) -> (id: DeviceId)
        ensures
            id == Self::of_window(raw),
            !id.is_gamepad(),
            id.number() == raw,
    {
        DeviceId(Enum::Winit(raw))
    }

    /// The id of the gamepad with the number `raw`.
    pub fn from_gilrs(raw: usize) -> (id: DeviceId)
        ensures
            id == Self::of_gamepad(raw),
            id.is_gamepad(),
            id.number() == raw,
    {
        DeviceId(Enum::Gilrs(raw))
    }

    /// Whether the device is a gamepad.
    pub fn gamepad(self) -> (b: bool)
        ensures
            b == self.is_gamepad(),
    {
        match self.0 {
            Enum::Winit(_) => false,
            Enum::Gilrs(_) => true,
        }
    }

    /// What the two ways of making an id give: the kind they are named
    /// after, and the number they were given.
    pub proof fn lemma_made(window: u64, gamepad: usize)
        ensures
            !Self::of_window(window).is_gamepad(),
            Self::of_window(window).number() == window,
            Self::of_gamepad(gamepad).is_gamepad(),
            Self::of_gamepad(gamepad).number() == gamepad,
            Self::of_window(window) != Self::of_gamepad(gamepad),
    {
    }

    /// Two ids are equal exactly when they are of the same kind and hold the
    /// same number: ids of different kinds differ whatever their numbers.
    pub proof fn lemma_equality(a: DeviceId, b: DeviceId)
        ensures
            a == b <==> (a.is_gamepad() == b.is_gamepad() && a.number() == b.number()),
    {
    }
}

} // verus!
