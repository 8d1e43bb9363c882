//! The core of a thin application framework for games.
//!
//! The framework owns a window, an event loop and a GPU backend, and
//! forwards normalized input and lifecycle events to a game. This crate is
//! the part that decides, and every function in it is verified:
//!
//! - [`graphics`]: command lists, which describe draw operations as data,
//!   the render pass that runs them, and the graphics adapter, which turns
//!   what a game asks for into commands for the GPU;
//! - [`context`]: the contexts that a callback gets, which hold what the
//!   callback may do in its phase;
//! - [`input`]: keys, buttons, axes and devices, normalized from the raw
//!   codes of the windowing system and of the gamepad driver;
//! - [`poller`]: what the gamepad poller sends, and the queue in which the
//!   events of all sources meet;
//! - [`window`]: the run loop, which leads every event to its callback.
//!
//! The crate does no outside work. It is fed events, it calls the game, and
//! it leaves the work for the GPU as a list of commands to perform.

pub mod context;
pub mod game;
pub mod graphics;
pub mod input;
pub mod poller;
pub mod scalar;
pub mod window;

pub use context::AppContext;
pub use context::ControlFlow;
pub use context::RenderContext;
pub use game::Game;
pub use game::GameError;
pub use game::Options;
pub use graphics::Color;
pub use graphics::DrawTask;
pub use graphics::Drawable;
pub use graphics::Graphics;
pub use graphics::S2D;
pub use graphics::SpriteBatch;
pub use graphics::SpriteSheet;
pub use graphics::TestDrawable;
pub use input::Axis;
pub use input::Button;
pub use input::DeviceId;
pub use input::GamepadButton;
pub use input::Key;
pub use input::MouseButton;
pub use poller::EventQueue;
pub use scalar::Point;
pub use scalar::ScaleFactor;
pub use scalar::Scalar;
pub use scalar::Size;
pub use window::Callback;
pub use window::Event;
pub use window::Window;
