use vstd::prelude::*;
use crate::context::{AppContext, AppContextView, ControlFlow, RenderContext};
use crate::game::{by_default, has_default, Game, GameError};
use crate::graphics::graphics::{BackendCommand, BackendCommandView, Graphics, GraphicsView};
use crate::graphics::s2d::S2D;
use crate::input::{Axis, DeviceId, GamepadButton, Key, MouseButton};
use crate::poller::EventQueue;
use crate::scalar::{Point, ScaleFactor, Scalar, Size};

verus! {

/// Whether a key or a button went down or up.
#[derive(Debug, Clone, Copy, PartialEq, Eq, Hash, Structural)]
pub enum ElementState {
    Pressed,
    Released,
}

/// The stage of a gesture that a wheel event belongs to.
#[derive(Debug, Clone, Copy, PartialEq, Eq, Hash, Structural)]
pub enum TouchPhase {
    Started,
    Moved,
    Ended,
    Cancelled,
}

/// What happened to a gamepad, in the raw codes of the gamepad driver.
#[derive(Debug, Clone, Copy, PartialEq, Eq)]
pub enum GamepadEventKind {
    /// The button with this code has been pressed.
    ButtonPressed(u16),
    /// The button with this code is held and repeats.
    ButtonRepeated(u16),
    /// The button with this code has been released.
    ButtonReleased(u16),
    /// The value of the button with this code has changed.
    ButtonChanged(u16, Scalar),
    /// The value of the axis with this code has changed.
    AxisChanged(u16, Scalar),
    /// The gamepad has been connected.
    Connected,
    /// The gamepad has been disconnected.
    Disconnected,
    /// There was an event, and a filter dropped it.
    Dropped,
}

/// An event of a gamepad: the number of the gamepad, and what happened.
#[derive(Debug, Clone, Copy, PartialEq, Eq)]
pub struct GamepadEvent {
    pub id: usize,
    pub kind: GamepadEventKind,
}

/// A failure of the GPU backend.
#[derive(Debug, Clone, Copy, PartialEq, Eq, Structural)]
pub enum BackendError {
    /// No adapter or device could be had.
    Negotiation,
    /// The next image of the surface could not be acquired.
    FrameAcquire,
    /// A shader or a pipeline could not be built.
    PipelineBuild,
}

/// One event as the loop pulls it from its event source.
///
/// Sizes and positions come measured: whoever feeds the loop has turned
/// physical into logical pixels with the scale factor of the moment.
#[derive(Debug, Clone, Copy, PartialEq, Eq)]
pub enum Event {
    /// The window is to be drawn.
    RedrawRequested,
    /// All events of this tick have been delivered.
    MainEventsCleared,
    /// The gamepad poller has seen an event.
    Gamepad(GamepadEvent),
    /// The user asked to close the window.
    CloseRequested,
    /// A key went down or up. `keycode` is its raw code, where the
    /// windowing system could name the key at all.
    KeyboardInput { state: ElementState, keycode: Option<u32> },
    /// The pointer moved to a position, in logical pixels.
    CursorMoved { position: Point },
    /// The wheel was turned.
    MouseWheel { phase: TouchPhase, delta: Point },
    /// A mouse button went down or up.
    MouseInput { state: ElementState, button: MouseButton },
    /// A character was typed.
    ReceivedCharacter(char),
    /// The window has a new size. `scale` gives the logical size as bounds
    /// of the screen.
    Resized { physical: Size, logical: Size, scale: Point },
    /// The display has a new scale factor, and the window with it a new
    /// size.
    ScaleFactorChanged { scale_factor: ScaleFactor, physical: Size, logical: Size, scale: Point },
    /// The backend failed at a command.
    BackendFailure(BackendError),
    /// Any other event. The loop ignores it.
    Other,
}

impl Event {
    /// Whether the events that wait are to be handled when this event has
    /// come: it is the sign that all events of the tick have been
    /// delivered, or the request to draw.
    pub open spec fn completes_tick(self) -> bool {
        self is MainEventsCleared || self is RedrawRequested
    }

    /// Whether the events that wait are to be handled when this event has
    /// come.
    pub fn ends_tick(&self) -> (ends: bool)
        ensures
            ends == self.completes_tick(),
    {
        match self {
            Event::MainEventsCleared => true,
            Event::RedrawRequested => true,
            _ => false,
        }
    }
}

/// The game callback that an event leads to, with its arguments.
#[derive(Debug, Clone, Copy, PartialEq, Eq)]
pub enum Callback {
    /// No callback: the event is dropped.
    Ignore,
    Render,
    Update,
    Resize { width: u32, height: u32 },
    Ch(char),
    KeyPressed(Key),
    KeyReleased(Key),
    MouseMoved(Point),
    MouseButtonPressed(MouseButton, Point),
    MouseButtonReleased(MouseButton, Point),
    Scroll(Point, Point),
    GamepadConnected(DeviceId),
    GamepadDisconnected(DeviceId),
    GamepadButtonPressed(DeviceId, GamepadButton),
    GamepadButtonReleased(DeviceId, GamepadButton),
    GamepadAxisChanged(DeviceId, Axis, Scalar),
}

/// Why the loop could not start.
#[derive(Debug, Clone, Copy, PartialEq, Eq, Structural)]
pub enum ConfigurationError {
    /// The exit was asked for while the game was being made, before there
    /// was a loop to leave.
    ExitDuringStart,
}

/// Why the loop ended a run.
#[derive(Debug)]
pub enum LoopError {
    /// An event came before the loop was started.
    NotStarted,
    /// A game callback failed, with this error.
    Callback(GameError),
    /// The backend failed.
    Backend(BackendError),
}

/// What the loop did with one event.
#[derive(Debug, Clone, Copy, PartialEq, Eq)]
pub struct Dispatch {
    /// The callback that ran.
    pub callback: Callback,
    /// Whether the window is to be asked for a redraw.
    pub request_redraw: bool,
    /// Whether the exit has been asked for.
    pub exiting: bool,
}

/// The callback that a gamepad event leads to.
pub open spec fn gamepad_callback(event: GamepadEvent) -> Callback {
    let dev = DeviceId::of_gamepad(event.id);
    match event.kind {
        GamepadEventKind::ButtonPressed(code) => Callback::GamepadButtonPressed(
            dev,
            GamepadButton::of_raw(code),
        ),
        GamepadEventKind::ButtonReleased(code) => Callback::GamepadButtonReleased(
            dev,
            GamepadButton::of_raw(code),
        ),
        GamepadEventKind::Connected => Callback::GamepadConnected(dev),
        GamepadEventKind::Disconnected => Callback::GamepadDisconnected(dev),
        GamepadEventKind::AxisChanged(code, value) => Callback::GamepadAxisChanged(
            dev,
            Axis::of_raw(code),
            value,
        ),
        GamepadEventKind::Dropped => Callback::Ignore,
        GamepadEventKind::ButtonChanged(_, _) => Callback::Ignore,
        GamepadEventKind::ButtonRepeated(_) => Callback::Ignore,
    }
}

/// The callback that an event leads to, with the pointer last seen at
/// `mouse_pos`.
///
/// Every event leads to at most one callback. A key event whose raw code no
/// key carries leads to none, and so do the events that the loop answers by
/// itself or ignores.
pub open spec fn callback_for(mouse_pos: Point, event: Event) -> Callback {
    match event {
        Event::RedrawRequested => Callback::Render,
        Event::MainEventsCleared => Callback::Update,
        Event::Gamepad(gamepad) => gamepad_callback(gamepad),
        Event::CloseRequested => Callback::Ignore,
        Event::KeyboardInput { state, keycode } => match keycode {
            Some(code) => match Key::of_raw(code) {
                Some(key) => match state {
                    ElementState::Pressed => Callback::KeyPressed(key),
                    ElementState::Released => Callback::KeyReleased(key),
                },
                None => Callback::Ignore,
            },
            None => Callback::Ignore,
        },
        Event::CursorMoved { position } => Callback::MouseMoved(position),
        Event::MouseWheel { phase, delta } => match phase {
            TouchPhase::Moved => Callback::Scroll(mouse_pos, delta),
            _ => Callback::Ignore,
        },
        Event::MouseInput { state, button } => match state {
            ElementState::Pressed => Callback::MouseButtonPressed(button, mouse_pos),
            ElementState::Released => Callback::MouseButtonReleased(button, mouse_pos),
        },
        Event::ReceivedCharacter(ch) => Callback::Ch(ch),
        Event::Resized { physical, logical, scale } => Callback::Resize {
            width: logical.width,
            height: logical.height,
        },
        Event::ScaleFactorChanged { scale_factor, physical, logical, scale } => Callback::Resize {
            width: logical.width,
            height: logical.height,
        },
        Event::BackendFailure(_) => Callback::Ignore,
        Event::Other => Callback::Ignore,
    }
}

/// The state of the loop, as a mathematical value.
pub struct WindowView {
    /// The context that the callbacks work on.
    pub context: AppContextView,
    /// The current scale factor of the display.
    pub scale_factor: ScaleFactor,
    /// The position at which the pointer was last seen.
    pub mouse_pos: Point,
    /// Whether the exit has been asked for. Once it has, it stays so.
    pub exiting: bool,
    /// Whether the loop has been started.
    pub started: bool,
    /// The surface as the loop last sized it. The loop keeps this for
    /// itself: no callback can reach it.
    pub surface: S2D,
}

/// The adapter after the window got a new size: the surface is resized to
/// the physical size first, then the bounds of the screen are set.
pub open spec fn graphics_resized(graphics: GraphicsView, physical: Size, scale: Point)
    -> GraphicsView {
    (GraphicsView {
        surface: graphics.surface.resized(physical.width, physical.height),
        scale,
        ..graphics
    }).issue(BackendCommandView::Resize { width: physical.width, height: physical.height }).issue(
        BackendCommandView::SetScale { scale },
    )
}

/// The state in which the callback of an event runs: what the loop itself
/// does on the event has been done.
pub open spec fn routed(state: WindowView, event: Event) -> WindowView {
    match event {
        Event::CloseRequested => WindowView {
            context: AppContextView { control_flow: ControlFlow::Exit, ..state.context },
            ..state
        },
        Event::CursorMoved { position } => WindowView { mouse_pos: position, ..state },
        Event::Resized { physical, logical, scale } => WindowView {
            context: AppContextView {
                graphics: graphics_resized(state.context.graphics, physical, scale),
                ..state.context
            },
            surface: state.surface.resized(physical.width, physical.height),
            ..state
        },
        Event::ScaleFactorChanged { scale_factor, physical, logical, scale } => WindowView {
            context: AppContextView {
                graphics: graphics_resized(state.context.graphics, physical, scale),
                ..state.context
            },
            scale_factor,
            surface: state.surface.resized(physical.width, physical.height),
            ..state
        },
        _ => state,
    }
}

/// The state after the loop has looked at the request of the context, once
/// the callback is through: a request for the exit is taken up, and from
/// then on the context keeps asking for it.
pub open spec fn settled(state: WindowView) -> WindowView {
    let exiting = state.exiting || state.context.control_flow == ControlFlow::Exit;
    WindowView {
        context: AppContextView {
            control_flow: if exiting {
                ControlFlow::Exit
            } else {
                state.context.control_flow
            },
            ..state.context
        },
        exiting,
        ..state
    }
}

/// The position at which the pointer was last seen after the events: that
/// of the last move among them, or `mouse_pos` if it has not moved.
pub open spec fn pointer_after(mouse_pos: Point, events: Seq<Event>) -> Point
    decreases events.len(),
{
    if events.len() == 0 {
        mouse_pos
    } else {
        match events.last() {
            Event::CursorMoved { position } => position,
            _ => pointer_after(mouse_pos, events.drop_last()),
        }
    }
}

/// The callbacks that the events lead to, one for each event in the order
/// of the events, with the pointer last seen at `mouse_pos` before the
/// first of them.
pub open spec fn callbacks_of(mouse_pos: Point, events: Seq<Event>) -> Seq<Callback>
    decreases events.len(),
{
    if events.len() == 0 {
        Seq::empty()
    } else {
        callbacks_of(mouse_pos, events.drop_last()).push(
            callback_for(pointer_after(mouse_pos, events.drop_last()), events.last()),
        )
    }
}

/// The state after a callback that does what the trait has by default: a
/// press of Escape leaves the context asking for the exit, and nothing else
/// changes.
pub open spec fn defaulted(state: WindowView, callback: Callback) -> WindowView {
    WindowView {
        context: if callback == Callback::KeyPressed(Key::Escape) {
            AppContextView { control_flow: ControlFlow::Exit, ..state.context }
        } else {
            state.context
        },
        ..state
    }
}

/// Whether the loop can foresee what handling an event does, with the
/// pointer last seen at `mouse_pos`: the event reports no failure of the
/// backend, and it leads to no callback or to one that the game leaves as
/// the trait has it.
pub open spec fn foreseen<G: Game>(mouse_pos: Point, event: Event) -> bool {
    let callback = callback_for(mouse_pos, event);
    !(event is BackendFailure) && (callback is Ignore || (has_default(callback)
        && G::keeps_default(callback)))
}

/// The state after an event that the loop can foresee has been handled:
/// the loop has done its own part, the callback its default, and the
/// request of the context has been looked at.
pub open spec fn handled(state: WindowView, event: Event) -> WindowView {
    settled(defaulted(routed(state, event), callback_for(state.mouse_pos, event)))
}

/// Whether the loop can foresee every one of the events, each with the
/// pointer where the events before it leave it.
pub open spec fn all_foreseen<G: Game>(mouse_pos: Point, events: Seq<Event>) -> bool
    decreases events.len(),
{
    if events.len() == 0 {
        true
    } else {
        all_foreseen::<G>(mouse_pos, events.drop_last()) && foreseen::<G>(
            pointer_after(mouse_pos, events.drop_last()),
            events.last(),
        )
    }
}

/// The state after events that the loop can foresee have been handled, one
/// after the other.
pub open spec fn after_all(state: WindowView, events: Seq<Event>) -> WindowView
    decreases events.len(),
{
    if events.len() == 0 {
        state
    } else {
        handled(after_all(state, events.drop_last()), events.last())
    }
}

/// Whether the loop can foresee a whole script: every tick that it runs,
/// from the given state on, holds only events that it can foresee.
pub open spec fn script_foreseen<G: Game>(state: WindowView, ticks: Seq<Seq<Event>>) -> bool
    decreases ticks.len(),
{
    if ticks.len() == 0 || state.exiting {
        true
    } else {
        all_foreseen::<G>(state.mouse_pos, ticks[0]) && script_foreseen::<G>(
            after_all(state, ticks[0]),
            ticks.drop_first(),
        )
    }
}

/// What running a script that the loop can foresee gives: the number of
/// ticks that run, and the state after the last of them. A tick runs if the
/// exit has not been asked for before it.
pub open spec fn script_outcome(state: WindowView, ticks: Seq<Seq<Event>>) -> (nat, WindowView)
    decreases ticks.len(),
{
    if ticks.len() == 0 || state.exiting {
        (0, state)
    } else {
        let rest = script_outcome(after_all(state, ticks[0]), ticks.drop_first());
        (rest.0 + 1, rest.1)
    }
}

/// Whether the user asks to close the window in one of the events.
pub open spec fn has_close(events: Seq<Event>) -> bool {
    exists|i: int| 0 <= i < events.len() && events[i] is CloseRequested
}

/// Whether the backend reports a failure in one of the events.
pub open spec fn has_failure(events: Seq<Event>) -> bool {
    exists|i: int| 0 <= i < events.len() && events[i] is BackendFailure
}

/// The events of every tick, as sequences.
pub open spec fn tick_views(ticks: Seq<Vec<Event>>) -> Seq<Seq<Event>> {
    ticks.map_values(|t: Vec<Event>| t@)
}

/// The position at which the pointer was last seen before the tick `k`.
pub open spec fn pointer_before(mouse_pos: Point, ticks: Seq<Seq<Event>>, k: int) -> Point
    decreases k,
{
    if k <= 0 {
        mouse_pos
    } else {
        pointer_after(pointer_before(mouse_pos, ticks, k - 1), ticks[k - 1])
    }
}

/// What the loop did in one tick.
#[derive(Debug)]
pub struct Tick {
    /// The callbacks that ran, in their order: one for each event.
    pub callbacks: Vec<Callback>,
    /// For each event, whether the exit had been asked for once the event
    /// was handled.
    pub exits: Vec<bool>,
    /// Whether the window was asked for a redraw.
    pub redraw: bool,
    /// Whether the loop halts after this tick.
    pub halt: bool,
}

/// Whether a tick is the record of handling the events, with the pointer
/// last seen at `mouse_pos` and the exit asked for or not before the first
/// of them.
///
/// There is one callback for each event, the one that the event leads to.
/// The exit, once asked for, stays asked for, and a close request asks for
/// it. The loop halts after the tick if the exit is asked for at its end.
/// The window is asked for a redraw exactly if an update ran and the exit
/// was not asked for when it was through.
pub open spec fn recorded(tick: Tick, mouse_pos: Point, exiting: bool, events: Seq<Event>) -> bool {
    &&& tick.callbacks@ == callbacks_of(mouse_pos, events)
    &&& tick.exits@.len() == events.len()
    &&& forall|i: int| 0 <= i < events.len() && exiting ==> #[trigger] tick.exits@[i]
    &&& forall|i: int|
        0 <= i < events.len() && events[i] is CloseRequested ==> #[trigger] tick.exits@[i]
    &&& forall|i: int, j: int|
        0 <= i <= j < events.len() && #[trigger] tick.exits@[i] ==> #[trigger] tick.exits@[j]
    &&& tick.halt == (if events.len() > 0 {
        tick.exits@[events.len() - 1]
    } else {
        exiting
    })
    &&& tick.redraw <==> exists|i: int|
        0 <= i < events.len() && tick.callbacks@[i] is Update && !#[trigger] tick.exits@[i]
}

/// Where every event is foreseen, each event before the end is, and so are
/// the events up to it.
pub proof fn lemma_foreseen_at<G: Game>(mouse_pos: Point, events: Seq<Event>, at: int)
    requires
        all_foreseen::<G>(mouse_pos, events),
        0 <= at < events.len(),
    ensures
        all_foreseen::<G>(mouse_pos, events.take(at)),
        foreseen::<G>(pointer_after(mouse_pos, events.take(at)), events[at]),
    decreases events.len(),
{
    if at == events.len() - 1 {
        assert(events.take(at) =~= events.drop_last());
    } else {
        lemma_foreseen_at::<G>(mouse_pos, events.drop_last(), at);
        assert(events.drop_last().take(at) =~= events.take(at));
    }
}

/// The loop follows the pointer through events that it can foresee as it
/// does through any.
pub proof fn lemma_after_all_pointer(state: WindowView, events: Seq<Event>)
    ensures
        after_all(state, events).mouse_pos == pointer_after(state.mouse_pos, events),
        after_all(state, events).started == state.started,
    decreases events.len(),
{
    if events.len() > 0 {
        lemma_after_all_pointer(state, events.drop_last());
    }
}

/// What of the loop can be seen from outside once the GPU has taken up its
/// commands: everything but the commands that wait.
pub open spec fn observable(state: WindowView) -> WindowView {
    WindowView {
        context: AppContextView {
            graphics: GraphicsView { pending: Seq::empty(), ..state.context.graphics },
            ..state.context
        },
        ..state
    }
}

/// A key event whose raw code no key carries is dropped: it leads to no
/// callback, whether the key went down or up.
pub proof fn lemma_unrecognized_key_is_dropped(mouse_pos: Point, state: ElementState, code: u32)
    requires
        !Key::recognized(code),
    ensures
        callback_for(mouse_pos, Event::KeyboardInput { state, keycode: Some(code) })
            == Callback::Ignore,
{
}

/// A key event whose raw code some key carries leads to the callback for
/// that key.
pub proof fn lemma_recognized_key_is_delivered(mouse_pos: Point, state: ElementState, key: Key)
    ensures
        callback_for(mouse_pos, Event::KeyboardInput { state, keycode: Some(key.raw()) }) == (
        match state {
            ElementState::Pressed => Callback::KeyPressed(key),
            ElementState::Released => Callback::KeyReleased(key),
        }),
{
    Key::lemma_of_raw_inverts(key);
}

/// A gamepad button event is never dropped: whatever its raw code, it leads
/// to the button callback, with the button that carries the code where the
/// code is recognized and with `Unknown` where it is not.
pub proof fn lemma_gamepad_button_is_delivered(mouse_pos: Point, id: usize, code: u16)
    ensures
        callback_for(
            mouse_pos,
            Event::Gamepad(GamepadEvent { id, kind: GamepadEventKind::ButtonPressed(code) }),
        ) == Callback::GamepadButtonPressed(DeviceId::of_gamepad(id), GamepadButton::of_raw(code)),
        callback_for(
            mouse_pos,
            Event::Gamepad(GamepadEvent { id, kind: GamepadEventKind::ButtonReleased(code) }),
        ) == Callback::GamepadButtonReleased(DeviceId::of_gamepad(id), GamepadButton::of_raw(code)),
        GamepadButton::recognized(code) ==> GamepadButton::of_raw(code).raw() == code
            && GamepadButton::of_raw(code) != GamepadButton::Unknown,
        !GamepadButton::recognized(code) ==> GamepadButton::of_raw(code) == GamepadButton::Unknown,
{
    GamepadButton::lemma_of_raw(code);
}

/// Resizing is idempotent: the same new size, delivered twice in a row,
/// leaves what can be seen of the loop as delivering it once does, and
/// leads to the same callback both times.
pub proof fn lemma_resize_idempotent(state: WindowView, event: Event)
    requires
        event is Resized || event is ScaleFactorChanged,
    ensures
        observable(routed(routed(state, event), event)) == observable(routed(state, event)),
        callback_for(routed(state, event).mouse_pos, event) == callback_for(
            state.mouse_pos,
            event,
        ),
{
    match event {
        Event::Resized { physical, logical, scale } => {
            S2D::lemma_resize_idempotent(
                state.context.graphics.surface,
                physical.width,
                physical.height,
            );
            S2D::lemma_resize_idempotent(state.surface, physical.width, physical.height);
        },
        Event::ScaleFactorChanged { scale_factor, physical, logical, scale } => {
            S2D::lemma_resize_idempotent(
                state.context.graphics.surface,
                physical.width,
                physical.height,
            );
            S2D::lemma_resize_idempotent(state.surface, physical.width, physical.height);
        },
        _ => {},
    }
}

/// The run loop: the one place that owns the graphics adapter and the
/// request for the exit, and that decides which callback an event leads to.
///
/// The loop does no outside work by itself. It is fed one event at a time,
/// it calls the game, and it leaves the work for the GPU in the adapter,
/// from where [`Window::take_commands`] hands it out.
pub struct Window {
    rctx: RenderContext,
    scale_factor: ScaleFactor,
    mouse_pos: Point,
    exiting: bool,
    started: bool,
    surface: S2D,
}

impl View for Window {
    type V = WindowView;

    closed spec fn view(&self) -> WindowView {
        WindowView {
            context: self.rctx@,
            scale_factor: self.scale_factor,
            mouse_pos: self.mouse_pos,
            exiting: self.exiting,
            started: self.started,
            surface: self.surface,
        }
    }
}

impl Window {
    /// A loop for a window whose surface has the given physical size and
    /// whose screen has the given bounds. The scale factor is one, the
    /// pointer is at the origin, and no exit is asked for. The loop is not
    /// started yet.
    pub fn new(width: u32, height: u32, scale: Point) -> (window: Window)
        ensures
            window@.context.control_flow == ControlFlow::Continue,
            window@.context.graphics.surface.dimensions() == (width, height),
            window@.context.graphics.scale == scale,
            window@.context.graphics.pending == Seq::<BackendCommandView>::empty(),
            window@.context.graphics.handles == 0,
            window@.context.graphics.frames == 0,
            window@.scale_factor == ScaleFactor::spec_one(),
            window@.mouse_pos == Point::spec_origin(),
            !window@.exiting,
            !window@.started,
            window@.surface.dimensions() == (width, height),
    {
        Window {
            rctx: RenderContext::new(AppContext::new(Graphics::new(width, height, scale))),
            scale_factor: ScaleFactor::one(),
            mouse_pos: Point::origin(),
            exiting: false,
            started: false,
            surface: S2D::new(width, height),
        }
    }

    /// The context in which the game is made, before the loop starts.
    pub fn context(&mut self) -> (actx: &mut AppContext)
        ensures
            actx@ == old(self)@.context,
            final(self)@ == (WindowView { context: final(actx)@, ..old(self)@ }),
    {
        self.rctx.actx()
    }

    /// Starts the loop for a game that has just been made.
    ///
    /// The game must not have asked for the exit while it was made: there
    /// is no loop yet to leave, so this is an error in the game, and the
    /// loop does not start. Otherwise the loop is started.
    pub fn start(&mut self) -> (result: Result<(), ConfigurationError>)
        ensures
            (result, final(self)@) == (if old(self)@.context.control_flow == ControlFlow::Exit {
                (Err(ConfigurationError::ExitDuringStart), old(self)@)
            } else {
                (Ok(()), WindowView { started: true, ..old(self)@ })
            }),
    {
        match self.rctx.peek().control_flow() {
            ControlFlow::Exit => Err(ConfigurationError::ExitDuringStart),
            ControlFlow::Continue => {
                self.started = true;
                Ok(())
            },
        }
    }

    /// Whether the loop has been started.
    pub fn started(&self) -> (started: bool)
        ensures
            started == self@.started,
    {
        self.started
    }

    /// The surface as the loop last sized it.
    pub fn surface(&self) -> (surface: S2D)
        ensures
            surface == self@.surface,
    {
        self.surface
    }

    /// Whether the exit has been asked for.
    pub fn exiting(&self) -> (exiting: bool)
        ensures
            exiting == self@.exiting,
    {
        self.exiting
    }

    /// The current scale factor of the display.
    pub fn scale_factor(&self) -> (factor: ScaleFactor)
        ensures
            factor == self@.scale_factor,
    {
        self.scale_factor
    }

    /// The position at which the pointer was last seen.
    pub fn mouse_pos(&self) -> (pos: Point)
        ensures
            pos == self@.mouse_pos,
    {
        self.mouse_pos
    }

    /// The graphics adapter.
    pub fn graphics(&self) -> (graphics: &Graphics)
        ensures
            graphics@ == self@.context.graphics,
    {
        self.rctx.peek().graphics()
    }

    /// Hands out the commands that wait for the GPU, oldest first, and
    /// leaves none waiting.
    pub fn take_commands(&mut self) -> (commands: Vec<BackendCommand>)
        ensures
            commands@.map_values(|c: BackendCommand| c@) == old(self)@.context.graphics.pending,
            final(self)@ == (WindowView {
                context: AppContextView {
                    graphics: GraphicsView {
                        pending: Seq::empty(),
                        ..old(self)@.context.graphics
                    },
                    ..old(self)@.context
                },
                ..old(self)@
            }),
    {
        self.rctx.actx().graphics_mut().take_commands()
    }

    /// Adjusts the graphics to a new size of the window: the surface gets
    /// the physical size, and the screen the bounds given. The same size
    /// twice leaves what once leaves, but for the commands that wait.
    pub fn on_resize(&mut self, physical: Size, scale: Point)
        ensures
            final(self)@ == (WindowView {
                context: AppContextView {
                    graphics: graphics_resized(old(self)@.context.graphics, physical, scale),
                    ..old(self)@.context
                },
                surface: old(self)@.surface.resized(physical.width, physical.height),
                ..old(self)@
            }),
    {
        self.surface.resize(physical.width, physical.height);
        let graphics = self.rctx.actx().graphics_mut();
        graphics.resize(physical.width, physical.height);
        graphics.set_scale(scale);
    }

    /// The callback that a gamepad event leads to.
    fn route_gamepad(event: GamepadEvent) -> (callback: Callback)
        ensures
            callback == gamepad_callback(event),
    {
        let dev = DeviceId::from_gilrs(event.id);
        match event.kind {
            GamepadEventKind::ButtonPressed(code) => match GamepadButton::from_gilrs(code) {
                Some(button) => Callback::GamepadButtonPressed(dev, button),
                None => Callback::Ignore,
            },
            GamepadEventKind::ButtonReleased(code) => match GamepadButton::from_gilrs(code) {
                Some(button) => Callback::GamepadButtonReleased(dev, button),
                None => Callback::Ignore,
            },
            GamepadEventKind::Connected => Callback::GamepadConnected(dev),
            GamepadEventKind::Disconnected => Callback::GamepadDisconnected(dev),
            GamepadEventKind::AxisChanged(code, value) => Callback::GamepadAxisChanged(
                dev,
                Axis::from_gilrs(code),
                value,
            ),
            GamepadEventKind::Dropped => Callback::Ignore,
            GamepadEventKind::ButtonChanged(_, _) => Callback::Ignore,
            GamepadEventKind::ButtonRepeated(_) => Callback::Ignore,
        }
    }

    /// Does what the loop itself does on an event, and finds the callback
    /// that the event leads to.
    pub fn route(&mut self, event: Event) -> (callback: Callback)
        ensures
            callback == callback_for(old(self)@.mouse_pos, event),
            final(self)@ == routed(old(self)@, event),
    {
        match event {
            Event::RedrawRequested => Callback::Render,
            Event::MainEventsCleared => Callback::Update,
            Event::Gamepad(gamepad) => Self::route_gamepad(gamepad),
            Event::CloseRequested => {
                self.rctx.actx().exit();
                Callback::Ignore
            },
            Event::KeyboardInput { state, keycode } => match keycode {
                Some(code) => match Key::from_code(code) {
                    Some(key) => match state {
                        ElementState::Pressed => Callback::KeyPressed(key),
                        ElementState::Released => Callback::KeyReleased(key),
                    },
                    None => Callback::Ignore,
                },
                None => Callback::Ignore,
            },
            Event::CursorMoved { position } => {
                self.mouse_pos = position;
                Callback::MouseMoved(position)
            },
            Event::MouseWheel { phase, delta } => match phase {
                TouchPhase::Moved => Callback::Scroll(self.mouse_pos, delta),
                _ => Callback::Ignore,
            },
            Event::MouseInput { state, button } => match state {
                ElementState::Pressed => Callback::MouseButtonPressed(button, self.mouse_pos),
                ElementState::Released => Callback::MouseButtonReleased(button, self.mouse_pos),
            },
            Event::ReceivedCharacter(ch) => Callback::Ch(ch),
            Event::Resized { physical, logical, scale } => {
                self.on_resize(physical, scale);
                Callback::Resize { width: logical.width, height: logical.height }
            },
            Event::ScaleFactorChanged { scale_factor, physical, logical, scale } => {
                self.scale_factor = scale_factor;
                self.on_resize(physical, scale);
                Callback::Resize { width: logical.width, height: logical.height }
            },
            Event::BackendFailure(_) => Callback::Ignore,
            Event::Other => Callback::Ignore,
        }
    }

    /// Calls the game: the one method that the callback names, with the
    /// arguments that the callback holds and with the context of its phase.
    /// With `Ignore` nothing is called.
    ///
    /// What the call does is up to the game. Of a method that the game
    /// leaves as the trait has it, it is known: the call succeeds and
    /// changes neither the game nor the context, but for a press of Escape,
    /// after which the context asks for the exit.
    pub fn invoke<G: Game>(&mut self, game: &mut G, callback: Callback) -> (result: Result<
        (),
        GameError,
    >)
        ensures
            final(self)@.scale_factor == old(self)@.scale_factor,
            final(self)@.mouse_pos == old(self)@.mouse_pos,
            final(self)@.exiting == old(self)@.exiting,
            final(self)@.started == old(self)@.started,
            final(self)@.surface == old(self)@.surface,
            callback is Ignore ==> result is Ok && *final(game) == *old(game) && final(self)@ == old(
                self,
            )@,
            has_default(callback) && G::keeps_default(callback) ==> *final(game) == *old(game)
                && by_default(callback, old(self)@.context, final(self)@.context, result),
    {
        match callback {
            Callback::Ignore => Ok(()),
            Callback::Render => game.render(&mut self.rctx),
            Callback::Update => game.update(self.rctx.actx()),
            Callback::Resize { width, height } => game.resize(self.rctx.actx(), width, height),
            Callback::Ch(ch) => game.ch(self.rctx.actx(), ch),
            Callback::KeyPressed(key) => game.key_pressed(self.rctx.actx(), key),
            Callback::KeyReleased(key) => game.key_released(self.rctx.actx(), key),
            Callback::MouseMoved(pos) => game.mouse_moved(self.rctx.actx(), pos),
            Callback::MouseButtonPressed(button, pos) => game.mouse_button_pressed(
                self.rctx.actx(),
                button,
                pos,
            ),
            Callback::MouseButtonReleased(button, pos) => game.mouse_button_released(
                self.rctx.actx(),
                button,
                pos,
            ),
            Callback::Scroll(pos, delta) => game.scroll(self.rctx.actx(), pos, delta),
            Callback::GamepadConnected(dev) => game.gamepad_connected(self.rctx.actx(), dev),
            Callback::GamepadDisconnected(dev) => game.gamepad_disconnected(self.rctx.actx(), dev),
            Callback::GamepadButtonPressed(dev, button) => game.gamepad_button_pressed(
                self.rctx.actx(),
                dev,
                button,
            ),
            Callback::GamepadButtonReleased(dev, button) => game.gamepad_button_released(
                self.rctx.actx(),
                dev,
                button,
            ),
            Callback::GamepadAxisChanged(dev, axis, value) => game.gamepad_axis_changed(
                self.rctx.actx(),
                dev,
                axis,
                value,
            ),
        }
    }

    /// Looks at the request of the context, once after every event: a
    /// request for the exit is taken up and kept.
    pub fn settle(&mut self)
        ensures
            final(self)@ == settled(old(self)@),
    {
        let asked = match self.rctx.peek().control_flow() {
            ControlFlow::Exit => true,
            ControlFlow::Continue => false,
        };
        self.exiting = self.exiting || asked;
        self.rctx.actx().latch(self.exiting);
    }

    /// Concludes the handling of an event, once the callback has returned
    /// with `outcome`: the loop looks at the request of the context, and it
    /// answers with what was done, or with the error of the callback, which
    /// it hands on as it is.
    ///
    /// After an update the window is asked for a redraw, unless the exit has
    /// been asked for.
    pub fn conclude(&mut self, callback: Callback, outcome: Result<(), GameError>) -> (result:
        Result<Dispatch, LoopError>)
        ensures
            final(self)@ == settled(old(self)@),
            match outcome {
                Ok(_) => result == Ok::<Dispatch, LoopError>(
                    Dispatch {
                        callback,
                        request_redraw: callback is Update && !final(self)@.exiting,
                        exiting: final(self)@.exiting,
                    },
                ),
                Err(error) => result matches Err(LoopError::Callback(got)) && got == error,
            },
    {
        self.settle();
        match outcome {
            Ok(()) => {
                let request_redraw = match callback {
                    Callback::Update => !self.exiting,
                    _ => false,
                };
                Ok(Dispatch { callback, request_redraw, exiting: self.exiting })
            },
            Err(error) => Err(LoopError::Callback(error)),
        }
    }

    /// Handles one event.
    ///
    /// The loop first does what it does by itself on the event, then calls
    /// the game, at most one callback, and last concludes: it looks at the
    /// request of the context and answers as [`Window::conclude`] says. A
    /// request for the exit does not cut the event short: it is taken up
    /// when the callback has returned, and it sticks.
    ///
    /// A loop that has not been started handles no event. A failure of the
    /// backend ends the run with that error, and no callback is called.
    pub fn dispatch<G: Game>(&mut self, game: &mut G, event: Event) -> (result: Result<
        Dispatch,
        LoopError,
    >)
        ensures
            final(self)@.started == old(self)@.started,
            !old(self)@.started ==> {
                &&& result matches Err(LoopError::NotStarted)
                &&& *final(game) == *old(game)
                &&& final(self)@ == old(self)@
            },
            old(self)@.started ==> {
                &&& final(self)@.mouse_pos == routed(old(self)@, event).mouse_pos
                &&& final(self)@.scale_factor == routed(old(self)@, event).scale_factor
                &&& final(self)@.surface == routed(old(self)@, event).surface
                &&& old(self)@.exiting ==> final(self)@.exiting
                &&& final(self)@.exiting <==> final(self)@.context.control_flow == ControlFlow::Exit
                &&& event is CloseRequested ==> final(self)@.exiting
                &&& match event {
                    Event::BackendFailure(error) => {
                        &&& result matches Err(LoopError::Backend(e))
                        &&& e == error
                        &&& *final(game) == *old(game)
                        &&& final(self)@ == settled(old(self)@)
                    },
                    _ => {
                        let callback = callback_for(old(self)@.mouse_pos, event);
                        &&& result matches Ok(done) ==> done == (Dispatch {
                            callback,
                            request_redraw: callback is Update && !final(self)@.exiting,
                            exiting: final(self)@.exiting,
                        })
                        &&& result matches Err(error) ==> error is Callback && !foreseen::<G>(
                            old(self)@.mouse_pos,
                            event,
                        )
                        &&& foreseen::<G>(old(self)@.mouse_pos, event) ==> {
                            &&& result is Ok
                            &&& *final(game) == *old(game)
                            &&& final(self)@ == handled(old(self)@, event)
                        }
                    },
                }
            },
    {
        if !self.started {
            return Err(LoopError::NotStarted);
        }
        if let Event::BackendFailure(error) = event {
            self.settle();
            return Err(LoopError::Backend(error));
        }
        let callback = self.route(event);
        let outcome = self.invoke(game, callback);
        self.conclude(callback, outcome)
    }

    /// Handles the events of one tick, in their order.
    ///
    /// Every event of the tick is handled, also those that follow a request
    /// for the exit: the request does not cut the tick short. It shows in
    /// `halt`, which tells the caller to begin no further tick. The first
    /// failure, of a callback or of the backend, ends the tick with its
    /// error.
    pub fn run_tick<G: Game>(&mut self, game: &mut G, events: &Vec<Event>) -> (result: Result<
        Tick,
        LoopError,
    >)
        ensures
            final(self)@.started == old(self)@.started,
            old(self)@.exiting ==> final(self)@.exiting,
            !old(self)@.started ==> {
                &&& *final(game) == *old(game)
                &&& final(self)@ == old(self)@
                &&& (events@.len() > 0 ==> result matches Err(LoopError::NotStarted))
                &&& events@.len() == 0 ==> result is Ok
            },
            result matches Err(LoopError::NotStarted) ==> !old(self)@.started,
            result matches Err(LoopError::Backend(e)) ==> exists|at: int|
                0 <= at < events@.len() && #[trigger] events@[at] == Event::BackendFailure(e),
            result matches Err(LoopError::Callback(_)) ==> old(self)@.started && !all_foreseen::<G>(
                old(self)@.mouse_pos,
                events@,
            ),
            result is Err && old(self)@.started ==> exists|at: int|
                0 <= at < events@.len() && final(self)@.mouse_pos == pointer_after(
                    old(self)@.mouse_pos,
                    #[trigger] events@.take(at + 1),
                ) && final(self)@.surface == after_all(old(self)@, events@.take(at + 1)).surface
                    && final(self)@.scale_factor == after_all(
                    old(self)@,
                    events@.take(at + 1),
                ).scale_factor,
            old(self)@.started ==> {
                &&& has_failure(events@) ==> result is Err
                &&& all_foreseen::<G>(old(self)@.mouse_pos, events@) ==> {
                    &&& result matches Ok(tick)
                    &&& forall|i: int|
                        0 <= i < events@.len() ==> #[trigger] tick.exits@[i] == after_all(
                            old(self)@,
                            events@.take(i + 1),
                        ).exiting
                    &&& *final(game) == *old(game)
                    &&& final(self)@ == after_all(old(self)@, events@)
                }
                &&& forall|at: int|
                    0 <= at < events@.len() && (#[trigger] events@[at]) is BackendFailure
                        && all_foreseen::<G>(old(self)@.mouse_pos, events@.take(at)) ==> {
                        &&& result matches Err(LoopError::Backend(e))
                        &&& e == events@[at]->BackendFailure_0
                        &&& *final(game) == *old(game)
                        &&& final(self)@ == settled(after_all(old(self)@, events@.take(at)))
                    }
            },
            result matches Ok(tick) ==> {
                &&& recorded(tick, old(self)@.mouse_pos, old(self)@.exiting, events@)
                &&& final(self)@.mouse_pos == pointer_after(old(self)@.mouse_pos, events@)
                &&& final(self)@.surface == after_all(old(self)@, events@).surface
                &&& final(self)@.scale_factor == after_all(old(self)@, events@).scale_factor
                &&& tick.halt == final(self)@.exiting
                &&& has_close(events@) ==> tick.halt
                &&& events@.len() > 0 ==> (final(self)@.exiting <==> final(self)@.context.control_flow
                    == ControlFlow::Exit)
            },
    {
        let mut callbacks: Vec<Callback> = Vec::new();
        let mut exits: Vec<bool> = Vec::new();
        let mut redraw = false;
        let mut i: usize = 0;
        assert(events@.take(0) =~= Seq::empty());
        while i < events.len()
            invariant
                i <= events.len(),
                self@.started == old(self)@.started,
                i > 0 ==> old(self)@.started,
                i == 0 ==> self@ == old(self)@ && *game == *old(game),
                old(self)@.exiting ==> self@.exiting,
                callbacks@ == callbacks_of(old(self)@.mouse_pos, events@.take(i as int)),
                callbacks@.len() == i,
                exits@.len() == i,
                forall|j: int| 0 <= j < i && old(self)@.exiting ==> #[trigger] exits@[j],
                forall|j: int| 0 <= j < i && events@[j] is CloseRequested ==> #[trigger] exits@[j],
                forall|a: int, b: int|
                    0 <= a <= b < i && #[trigger] exits@[a] ==> #[trigger] exits@[b],
                self@.exiting == (if i > 0 {
                    exits@[i - 1]
                } else {
                    old(self)@.exiting
                }),
                redraw <==> exists|j: int|
                    0 <= j < i && callbacks@[j] is Update && !#[trigger] exits@[j],
                self@.mouse_pos == pointer_after(old(self)@.mouse_pos, events@.take(i as int)),
                self@.surface == after_all(old(self)@, events@.take(i as int)).surface,
                self@.scale_factor == after_all(old(self)@, events@.take(i as int)).scale_factor,
                !has_failure(events@.take(i as int)),
                i > 0 ==> (self@.exiting <==> self@.context.control_flow == ControlFlow::Exit),
                all_foreseen::<G>(old(self)@.mouse_pos, events@.take(i as int)) ==> self@
                    == after_all(old(self)@, events@.take(i as int)) && *game == *old(game),
                all_foreseen::<G>(old(self)@.mouse_pos, events@.take(i as int)) ==> forall|j: int|
                    0 <= j < i ==> #[trigger] exits@[j] == after_all(
                        old(self)@,
                        events@.take(j + 1),
                    ).exiting,
            decreases events.len() - i,
        {
            let event = events[i];
            let ghost before = events@.take(i as int);
            let ghost after = events@.take(i + 1);
            let ghost seen = callbacks@;
            let ghost left = exits@;
            let ghost asked = redraw;
            proof {
                assert(after.drop_last() =~= before);
                assert(after.last() == event);
                lemma_after_all_pointer(old(self)@, before);
            }
            match self.dispatch(game, event) {
                Ok(done) => {
                    callbacks.push(done.callback);
                    exits.push(done.exiting);
                    if done.request_redraw {
                        redraw = true;
                    }
                },
                Err(error) => {
                    proof {
                        let first = old(self)@.mouse_pos;
                        if old(self)@.started {
                            if all_foreseen::<G>(first, events@) {
                                lemma_foreseen_at::<G>(first, events@, i as int);
                            }
                            assert forall|at: int|
                                0 <= at < events@.len() && (#[trigger] events@[at]) is BackendFailure
                                    && all_foreseen::<G>(first, events@.take(at)) implies (
                            error matches LoopError::Backend(e) && e == events@[at]->BackendFailure_0
                                && *game == *old(game) && self@ == settled(
                                after_all(old(self)@, events@.take(at)),
                            )) by {
                                if at < i {
                                    assert(before[at] is BackendFailure);
                                    assert(has_failure(before));
                                } else if at > i {
                                    lemma_foreseen_at::<G>(first, events@.take(at), i as int);
                                    assert(events@.take(at).take(i as int) =~= before);
                                }
                            }
                        }
                    }
                    return Err(error);
                },
            }
            proof {
                assert(has_close(after) ==> self@.exiting) by {
                    if has_close(after) {
                        let at = choose|at: int| 0 <= at < after.len() && after[at] is CloseRequested;
                        if at < i {
                            assert(before[at] is CloseRequested);
                            assert(left[at]);
                        }
                    }
                }
                assert(!has_failure(after)) by {
                    if has_failure(after) {
                        let at = choose|at: int| 0 <= at < after.len() && after[at] is BackendFailure;
                        assert(at < i);
                        assert(before[at] is BackendFailure);
                    }
                }
                assert(forall|j: int| 0 <= j < i ==> exits@[j] == left[j] && callbacks@[j] == seen[j]);
                assert(exits@[i as int] == self@.exiting);
                assert forall|a: int, b: int|
                    0 <= a <= b < i + 1 && #[trigger] exits@[a] implies #[trigger] exits@[b] by {
                    if b == i && a < i {
                        assert(left[a] ==> left[i - 1]);
                    }
                }
                if redraw {
                    if asked {
                        let j = choose|j: int| 0 <= j < i && seen[j] is Update && !#[trigger] left[j];
                        assert(callbacks@[j] is Update && !exits@[j]);
                    } else {
                        assert(callbacks@[i as int] is Update && !exits@[i as int]);
                    }
                } else {
                    assert forall|j: int| 0 <= j < i + 1 implies !(callbacks@[j] is Update
                        && !#[trigger] exits@[j]) by {
                        if j < i {
                            assert(!(seen[j] is Update && !left[j]));
                        }
                    }
                }
            }
            i += 1;
        }
        assert(events@.take(i as int) =~= events@);
        proof {
            assert(has_close(events@) ==> self@.exiting) by {
                if has_close(events@) {
                    let at = choose|at: int| 0 <= at < events@.len() && events@[at] is CloseRequested;
                    assert(exits@[at]);
                }
            }
            if old(self)@.started {
                assert forall|at: int|
                    0 <= at < events@.len() && (#[trigger] events@[at]) is BackendFailure implies false by {
                    assert(has_failure(events@));
                }
            }
        }
        let tick = Tick { callbacks, exits, redraw, halt: self.exiting };
        proof {
            let n = events@.len() as int;
            assert(tick.callbacks@ == callbacks_of(old(self)@.mouse_pos, events@));
            assert(tick.exits@.len() == n);
            assert(forall|j: int| 0 <= j < n && old(self)@.exiting ==> #[trigger] tick.exits@[j]);
            assert(forall|j: int|
                0 <= j < n && events@[j] is CloseRequested ==> #[trigger] tick.exits@[j]);
            assert(forall|a: int, b: int|
                0 <= a <= b < n && #[trigger] tick.exits@[a] ==> #[trigger] tick.exits@[b]);
            assert(tick.redraw <==> exists|j: int|
                0 <= j < n && tick.callbacks@[j] is Update && !#[trigger] tick.exits@[j]);
            assert(recorded(tick, old(self)@.mouse_pos, old(self)@.exiting, events@));
        }
        Ok(tick)
    }

    /// Handles the events that wait in a queue as one tick, and leaves the
    /// queue empty. What holds of [`Window::run_tick`] holds here of the
    /// events that waited, in the order in which they came.
    pub fn pump<G: Game>(&mut self, game: &mut G, queue: &mut EventQueue) -> (result: Result<
        Tick,
        LoopError,
    >)
        ensures
            final(queue)@ == Seq::<Event>::empty(),
            final(self)@.started == old(self)@.started,
            old(self)@.exiting ==> final(self)@.exiting,
            !old(self)@.started ==> {
                &&& *final(game) == *old(game)
                &&& final(self)@ == old(self)@
                &&& (old(queue)@.len() > 0 ==> result matches Err(LoopError::NotStarted))
                &&& old(queue)@.len() == 0 ==> result is Ok
            },
            result matches Err(LoopError::NotStarted) ==> !old(self)@.started,
            result matches Err(LoopError::Backend(e)) ==> exists|at: int|
                0 <= at < old(queue)@.len() && #[trigger] old(queue)@[at] == Event::BackendFailure(
                    e,
                ),
            result matches Err(LoopError::Callback(_)) ==> old(self)@.started && !all_foreseen::<G>(
                old(self)@.mouse_pos,
                old(queue)@,
            ),
            result is Err && old(self)@.started ==> exists|at: int|
                0 <= at < old(queue)@.len() && final(self)@.mouse_pos == pointer_after(
                    old(self)@.mouse_pos,
                    #[trigger] old(queue)@.take(at + 1),
                ) && final(self)@.surface == after_all(
                    old(self)@,
                    old(queue)@.take(at + 1),
                ).surface && final(self)@.scale_factor == after_all(
                    old(self)@,
                    old(queue)@.take(at + 1),
                ).scale_factor,
            old(self)@.started ==> {
                &&& has_failure(old(queue)@) ==> result is Err
                &&& all_foreseen::<G>(old(self)@.mouse_pos, old(queue)@) ==> {
                    &&& result matches Ok(tick)
                    &&& forall|i: int|
                        0 <= i < old(queue)@.len() ==> #[trigger] tick.exits@[i] == after_all(
                            old(self)@,
                            old(queue)@.take(i + 1),
                        ).exiting
                    &&& *final(game) == *old(game)
                    &&& final(self)@ == after_all(old(self)@, old(queue)@)
                }
                &&& forall|at: int|
                    0 <= at < old(queue)@.len() && (#[trigger] old(queue)@[at]) is BackendFailure
                        && all_foreseen::<G>(old(self)@.mouse_pos, old(queue)@.take(at)) ==> {
                        &&& result matches Err(LoopError::Backend(e))
                        &&& e == old(queue)@[at]->BackendFailure_0
                        &&& *final(game) == *old(game)
                        &&& final(self)@ == settled(after_all(old(self)@, old(queue)@.take(at)))
                    }
            },
            result matches Ok(tick) ==> {
                &&& recorded(tick, old(self)@.mouse_pos, old(self)@.exiting, old(queue)@)
                &&& final(self)@.mouse_pos == pointer_after(old(self)@.mouse_pos, old(queue)@)
                &&& final(self)@.surface == after_all(old(self)@, old(queue)@).surface
                &&& final(self)@.scale_factor == after_all(old(self)@, old(queue)@).scale_factor
                &&& tick.halt == final(self)@.exiting
                &&& has_close(old(queue)@) ==> tick.halt
                &&& old(queue)@.len() > 0 ==> (final(self)@.exiting
                    <==> final(self)@.context.control_flow == ControlFlow::Exit)
            },
    {
        let events = queue.take_all();
        self.run_tick(game, &events)
    }

    /// Runs the loop over the ticks of a script, one after the other, until
    /// the script ends or the exit has been asked for.
    ///
    /// A tick in which the exit is asked for is still handled to its end,
    /// and it is the last: the loop halts before the next tick, pulls no
    /// further event and asks for no further redraw. The first failure ends
    /// the run with its error.
    pub fn run<G: Game>(&mut self, game: &mut G, ticks: &Vec<Vec<Event>>) -> (result: Result<
        Vec<Tick>,
        LoopError,
    >)
        ensures
            final(self)@.started == old(self)@.started,
            old(self)@.exiting ==> final(self)@.exiting,
            !old(self)@.started ==> *final(game) == *old(game) && (result matches Err(error)
                ==> error is NotStarted),
            old(self)@.started ==> !(result matches Err(LoopError::NotStarted)),
            result matches Err(LoopError::Backend(e)) ==> exists|k: int, at: int|
                0 <= k < ticks@.len() && 0 <= at < ticks@[k]@.len() && #[trigger] ticks@[k]@[at]
                    == Event::BackendFailure(e),
            result matches Err(LoopError::Callback(_)) ==> old(self)@.started && !script_foreseen::<
                G,
            >(old(self)@, tick_views(ticks@)),
            old(self)@.started && script_foreseen::<G>(old(self)@, tick_views(ticks@)) ==> {
                &&& result matches Ok(journal)
                &&& journal@.len() == script_outcome(old(self)@, tick_views(ticks@)).0
                &&& *final(game) == *old(game)
                &&& final(self)@ == script_outcome(old(self)@, tick_views(ticks@)).1
            },
            result matches Ok(journal) ==> {
                &&& journal@.len() <= ticks@.len()
                &&& final(self)@.mouse_pos == pointer_before(
                    old(self)@.mouse_pos,
                    tick_views(ticks@),
                    journal@.len() as int,
                )
                &&& old(self)@.exiting ==> journal@.len() == 0
                &&& !old(self)@.exiting && ticks@.len() > 0 ==> journal@.len() >= 1
                &&& journal@.len() < ticks@.len() ==> final(self)@.exiting
                &&& forall|k: int|
                    0 <= k < journal@.len() ==> recorded(
                        #[trigger] journal@[k],
                        pointer_before(old(self)@.mouse_pos, tick_views(ticks@), k),
                        false,
                        ticks@[k]@,
                    )
                &&& forall|k: int|
                    0 <= k < journal@.len() ==> (#[trigger] journal@[k]).halt == (k == journal@.len()
                        - 1 && final(self)@.exiting)
                &&& forall|k: int|
                    0 <= k < journal@.len() && has_close(#[trigger] ticks@[k]@) ==> journal@[k].halt
                &&& journal@.len() > 0 && ticks@[journal@.len() - 1]@.len() > 0 ==> (
                final(self)@.exiting <==> final(self)@.context.control_flow == ControlFlow::Exit)
            },
    {
        let mut journal: Vec<Tick> = Vec::new();
        let mut k: usize = 0;
        let ghost script = tick_views(ticks@);
        assert(script.skip(0) =~= script);
        while k < ticks.len() && !self.exiting
            invariant
                k <= ticks.len(),
                journal@.len() == k,
                script == tick_views(ticks@),
                self@.started == old(self)@.started,
                old(self)@.exiting ==> self@.exiting,
                old(self)@.exiting ==> k == 0,
                k == 0 ==> self@ == old(self)@,
                !old(self)@.started ==> *game == *old(game),
                self@.mouse_pos == pointer_before(old(self)@.mouse_pos, script, k as int),
                forall|j: int|
                    0 <= j < k ==> recorded(
                        #[trigger] journal@[j],
                        pointer_before(old(self)@.mouse_pos, script, j),
                        false,
                        ticks@[j]@,
                    ),
                forall|j: int| 0 <= j < k && has_close(#[trigger] ticks@[j]@) ==> journal@[j].halt,
                forall|j: int|
                    0 <= j < k ==> (#[trigger] journal@[j]).halt == (j == k - 1 && self@.exiting),
                k > 0 && ticks@[k - 1]@.len() > 0 ==> (self@.exiting <==> self@.context.control_flow
                    == ControlFlow::Exit),
                old(self)@.started && script_foreseen::<G>(old(self)@, script) ==> {
                    &&& *game == *old(game)
                    &&& script_foreseen::<G>(self@, script.skip(k as int))
                    &&& script_outcome(old(self)@, script).0 == k + script_outcome(
                        self@,
                        script.skip(k as int),
                    ).0
                    &&& script_outcome(old(self)@, script).1 == script_outcome(
                        self@,
                        script.skip(k as int),
                    ).1
                },
            decreases ticks.len() - k,
        {
            proof {
                assert(script.skip(k as int)[0] == ticks@[k as int]@);
                assert(script.skip(k as int).drop_first() =~= script.skip(k + 1));
            }
            match self.run_tick(game, &ticks[k]) {
                Ok(tick) => {
                    journal.push(tick);
                },
                Err(error) => {
                    return Err(error);
                },
            }
            k += 1;
        }
        proof {
            if k == ticks.len() {
                assert(script.skip(k as int).len() == 0);
            }
        }
        Ok(journal)
    }
}

} // verus!
