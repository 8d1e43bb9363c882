use vstd::prelude::*;
use crate::context::{AppContext, AppContextView, ControlFlow, RenderContext};
use crate::input::{Axis, DeviceId, GamepadButton, Key, MouseButton};
use crate::scalar::{Point, Scalar};
use crate::window::Callback;

verus! {

/// The failure of a game callback.
///
/// The loop does not recover from it: a callback that fails ends the run.
#[derive(Debug)]
pub struct GameError {
    pub message: String,
}

/// What a game asks of the loop once, on start.
#[derive(Debug, Clone, Copy)]
pub struct Options {
    /// Enable gamepad support.
    ///
    /// Gamepads are not reported by the windowing system, so there is a bit
    /// of overhead in doing so: a second thread polls them.
    ///
    /// Enabled by default, but may be disabled if doing so is not desired.
    pub enable_gamepad: bool,
}

impl Default for Options {
    fn default() -> (options: Options)
        ensures
            options.enable_gamepad,
    {
        Options { enable_gamepad: true }
    }
}

/// What a game does on a key press unless it decides otherwise: it asks for
/// the exit when the key is Escape, and nothing else.
pub fn default_key_pressed(actx: &mut AppContext, key: Key)
    ensures
        final(actx)@ == (if key == Key::Escape {
            AppContextView { control_flow: ControlFlow::Exit, ..old(actx)@ }
        } else {
            old(actx)@
        }),
{
    if let Key::Escape = key {
        actx.exit();
    }
}

/// What a callback does by default, where it has a default: it succeeds,
/// and it leaves the context as it is, but for a press of Escape, on which
/// it asks for the exit. The callbacks `update` and `render` have no
/// default.
pub open spec fn by_default(
    callback: Callback,
    before: AppContextView,
    after: AppContextView,
    result: Result<(), GameError>,
) -> bool {
    &&& result is Ok
    &&& after == (if callback == Callback::KeyPressed(Key::Escape) {
        AppContextView { control_flow: ControlFlow::Exit, ..before }
    } else {
        before
    })
}

/// Whether a callback has a default: all have one but `update` and
/// `render`, which every game writes, and `Ignore`, which names no method.
pub open spec fn has_default(callback: Callback) -> bool {
    !(callback is Ignore) && !(callback is Update) && !(callback is Render)
}

/// Trait describing the behavior of a game.
///
/// This is the main entry point: to create a game, implement this trait and
/// hand an instance to the run loop, which calls the methods below, one at
/// a time and on one thread. A method that returns an error ends the run.
pub trait Game: Sized {
    /// Whether the game leaves the method for a callback as the trait has
    /// it. Of a method that is left alone, the loop knows what it does. A
    /// game says here for which callbacks that is so; unless it says so,
    /// nothing is taken for granted.
    open spec fn keeps_default(callback: Callback) -> bool {
        false
    }

    /// Whether the game leaves `options` as the trait has it. Unless a game
    /// says so, nothing is taken for granted.
    open spec fn keeps_default_options() -> bool {
        false
    }

    /// This method is called exactly once on start. Unless a game decides
    /// otherwise, gamepad support is enabled.
    fn options(&self) -> (options: Options)
        ensures
            Self::keeps_default_options() ==> options.enable_gamepad,
    {
        Options::default()
    }

    /// Called once in every tick, when all events of the tick have been
    /// handled.
    fn update(&mut self, actx: &mut AppContext) -> Result<(), GameError>;

    /// Called when drawing on the screen is requested.
    ///
    /// To render something on the screen, the `render` method on the
    /// `RenderContext` should be called exactly once.
    fn render(&mut self, rctx: &mut RenderContext) -> Result<(), GameError>;

    /// Called when the window is resized, with its new size in logical
    /// pixels.
    fn resize(&mut self, actx: &mut AppContext, width: u32, height: u32) -> (result: Result<(), GameError>)
        ensures
            Self::keeps_default(Callback::Resize { width, height }) ==> {
                &&& *final(self) == *old(self)
                &&& by_default(Callback::Resize { width, height }, old(actx)@, final(actx)@, result)
            },
    {
        Ok(())
    }

    /// Called on character input.
    fn ch(&mut self, actx: &mut AppContext, ch: char) -> (result: Result<(), GameError>)
        ensures
            Self::keeps_default(Callback::Ch(ch)) ==> {
                &&& *final(self) == *old(self)
                &&& by_default(Callback::Ch(ch), old(actx)@, final(actx)@, result)
            },
    {
        Ok(())
    }

    /// Called to notify the game that a key was pressed.
    ///
    /// The default behavior of this method is to exit when Escape is
    /// pressed.
    ///
    /// Not all keys are recognized. For one that is not, this method is not
    /// called.
    fn key_pressed(&mut self, actx: &mut AppContext, key: Key) -> (result: Result<(), GameError>)
        ensures
            Self::keeps_default(Callback::KeyPressed(key)) ==> {
                &&& *final(self) == *old(self)
                &&& by_default(Callback::KeyPressed(key), old(actx)@, final(actx)@, result)
            },
    {
        default_key_pressed(actx, key);
        Ok(())
    }

    /// Called to notify the game that a key was released.
    ///
    /// Not all keys are recognized. For one that is not, this method is not
    /// called.
    fn key_released(&mut self, actx: &mut AppContext, key: Key) -> (result: Result<(), GameError>)
        ensures
            Self::keeps_default(Callback::KeyReleased(key)) ==> {
                &&& *final(self) == *old(self)
                &&& by_default(Callback::KeyReleased(key), old(actx)@, final(actx)@, result)
            },
    {
        Ok(())
    }

    /// The pointer moved to a position, in logical pixels.
    fn mouse_moved(&mut self, actx: &mut AppContext, pos: Point) -> (result: Result<(), GameError>)
        ensures
            Self::keeps_default(Callback::MouseMoved(pos)) ==> {
                &&& *final(self) == *old(self)
                &&& by_default(Callback::MouseMoved(pos), old(actx)@, final(actx)@, result)
            },
    {
        Ok(())
    }

    /// A mouse button was pressed with the pointer at a position.
    fn mouse_button_pressed(&mut self, actx: &mut AppContext, button: MouseButton, pos: Point) -> (result: Result<(), GameError>)
        ensures
            Self::keeps_default(Callback::MouseButtonPressed(button, pos)) ==> {
                &&& *final(self) == *old(self)
                &&& by_default(Callback::MouseButtonPressed(button, pos), old(actx)@, final(actx)@, result)
            },
    {
        Ok(())
    }

    /// A mouse button was released with the pointer at a position.
    fn mouse_button_released(&mut self, actx: &mut AppContext, button: MouseButton, pos: Point) -> (result: Result<(), GameError>)
        ensures
            Self::keeps_default(Callback::MouseButtonReleased(button, pos)) ==> {
                &&& *final(self) == *old(self)
                &&& by_default(Callback::MouseButtonReleased(button, pos), old(actx)@, final(actx)@, result)
            },
    {
        Ok(())
    }

    /// The wheel was turned by `delta` with the pointer at a position.
    fn scroll(&mut self, actx: &mut AppContext, pos: Point, delta: Point) -> (result: Result<(), GameError>)
        ensures
            Self::keeps_default(Callback::Scroll(pos, delta)) ==> {
                &&& *final(self) == *old(self)
                &&& by_default(Callback::Scroll(pos, delta), old(actx)@, final(actx)@, result)
            },
    {
        Ok(())
    }

    /// A gamepad was connected.
    fn gamepad_connected(&mut self, actx: &mut AppContext, dev: DeviceId) -> (result: Result<(), GameError>)
        ensures
            Self::keeps_default(Callback::GamepadConnected(dev)) ==> {
                &&& *final(self) == *old(self)
                &&& by_default(Callback::GamepadConnected(dev), old(actx)@, final(actx)@, result)
            },
    {
        Ok(())
    }

    /// A gamepad was disconnected.
    fn gamepad_disconnected(&mut self, actx: &mut AppContext, dev: DeviceId) -> (result: Result<(), GameError>)
        ensures
            Self::keeps_default(Callback::GamepadDisconnected(dev)) ==> {
                &&& *final(self) == *old(self)
                &&& by_default(Callback::GamepadDisconnected(dev), old(actx)@, final(actx)@, result)
            },
    {
        Ok(())
    }

    /// A button on a gamepad was pressed.
    fn gamepad_button_pressed(&mut self, actx: &mut AppContext, dev: DeviceId, button: GamepadButton) -> (result: Result<(), GameError>)
        ensures
            Self::keeps_default(Callback::GamepadButtonPressed(dev, button)) ==> {
                &&& *final(self) == *old(self)
                &&& by_default(Callback::GamepadButtonPressed(dev, button), old(actx)@, final(actx)@, result)
            },
    {
        Ok(())
    }

    /// A button on a gamepad was released.
    fn gamepad_button_released(&mut self, actx: &mut AppContext, dev: DeviceId, button: GamepadButton) -> (result: Result<(), GameError>)
        ensures
            Self::keeps_default(Callback::GamepadButtonReleased(dev, button)) ==> {
                &&& *final(self) == *old(self)
                &&& by_default(Callback::GamepadButtonReleased(dev, button), old(actx)@, final(actx)@, result)
            },
    {
        Ok(())
    }

    /// An axis on a gamepad was changed.
    fn gamepad_axis_changed(&mut self, actx: &mut AppContext, dev: DeviceId, axis: Axis, value: Scalar) -> (result: Result<(), GameError>)
        ensures
            Self::keeps_default(Callback::GamepadAxisChanged(dev, axis, value)) ==> {
                &&& *final(self) == *old(self)
                &&& by_default(Callback::GamepadAxisChanged(dev, axis, value), old(actx)@, final(actx)@, result)
            },
    {
        Ok(())
    }
}

} // verus!
