use vstd::prelude::*;

verus! {

/// A button on a mouse.
///
/// The three common buttons have a name of their own; any further button is
/// `Other` with the number that the windowing system gives it.
#[derive(Debug, Clone, Copy, PartialEq, Eq, Hash, Structural)]
pub enum MouseButton {
    Left,
    Right,
    Middle,
    Other(u8),
}

} // verus!
