use vstd::prelude::*;
use std::rc::Rc;
use crate::graphics::drawable::{list_view, DrawTask, DrawTaskView, ExecError, PassModel};
use crate::graphics::graphics::{
    counted, BackendCommandView, BufferUsage, Color, Graphics, GraphicsView, GroupKind,
    ResourceError,
};
use crate::graphics::handle::{BindGroup, Buffer, Pipeline};
use crate::graphics::ms::{build_pipeline, pipeline_setup, PipelineError};
use crate::graphics::sprite::{frame_list, sheet_binding, SpriteBatch, SpriteBatchView, SpriteSheet};
use crate::graphics::vertex::VertexBufferDescriptor;
use crate::scalar::Point;

verus! {

/// What the run loop is asked to do once the current event has been
/// handled.
#[derive(Debug, Clone, Copy, PartialEq, Eq, Structural)]
pub enum ControlFlow {
    /// Go on with the next event.
    Continue,
    /// Stop: no further tick begins.
    Exit,
}

impl Default for ControlFlow {
    fn default() -> (flow: ControlFlow)
        ensures
            flow == ControlFlow::Continue,
    {
        ControlFlow::Continue
    }
}

/// What an [`AppContext`] holds, as a mathematical value.
pub struct AppContextView {
    /// What the run loop is asked to do.
    pub control_flow: ControlFlow,
    /// The graphics adapter.
    pub graphics: GraphicsView,
}

/// A reference to an instance of this struct is passed to most methods of a
/// game. It is what a game can do to the application outside of a render:
/// ask for the exit, and create graphics resources.
pub struct AppContext {
    control_flow: ControlFlow,
    graphics: Graphics,
}

impl View for AppContext {
    type V = AppContextView;

    closed spec fn view(&self) -> AppContextView {
        AppContextView { control_flow: self.control_flow, graphics: self.graphics@ }
    }
}

/// The bytes of the pixels of a list of colours: four for each colour, in
/// the order red, green, blue, alpha.
pub open spec fn pixels_of(colors: Seq<Color>) -> Seq<u8>
    decreases colors.len(),
{
    if colors.len() == 0 {
        Seq::empty()
    } else {
        let last = colors.last();
        pixels_of(colors.drop_last()) + seq![last.r, last.g, last.b, last.a]
    }
}

/// The pixels of an image: its width, its height, and four bytes for each
/// pixel in the order red, green, blue, alpha, row after row from the top.
pub struct Pixels {
    pub width: u32,
    pub height: u32,
    pub bytes: Seq<u8>,
}

/// An image as a decoder gives it: its width, its height, and its pixels,
/// four bytes each in the order red, green, blue, alpha, row after row from
/// the top.
#[derive(Debug, PartialEq, Eq)]
pub struct Image {
    pub width: u32,
    pub height: u32,
    pub pixels: Vec<u8>,
}

impl View for Image {
    type V = Pixels;

    open spec fn view(&self) -> Pixels {
        Pixels { width: self.width, height: self.height, bytes: self.pixels@ }
    }
}

/// Every color gives four bytes.
pub proof fn lemma_pixels_len(colors: Seq<Color>)
    ensures
        pixels_of(colors).len() == 4 * colors.len(),
    decreases colors.len(),
{
    if colors.len() > 0 {
        lemma_pixels_len(colors.drop_last());
    }
}

/// The adapter after it has created a sheet from the pixels.
pub open spec fn with_sheet(graphics: GraphicsView, pixels: Pixels) -> GraphicsView {
    graphics.create(
        BackendCommandView::CreateSheet {
            bind_group: BindGroup { id: graphics.next_handle() },
            width: pixels.width,
            height: pixels.height,
            pixels: pixels.bytes,
        },
    )
}

/// What creating a sheet from raw pixels gives, by the state of the adapter:
/// a failure where there are not bytes for every pixel, else the sheet with
/// the next handle, or the failure when no handle is left.
pub open spec fn sheet_outcome(before: AppContextView, pixels: Pixels) -> (
    Result<SpriteSheet, ResourceError>,
    AppContextView,
) {
    if pixels.bytes.len() < 4 * (pixels.width * pixels.height) {
        (Err(ResourceError::InvalidDimensions), before)
    } else if before.graphics.has_handle() {
        (
            Ok(SpriteSheet { bind_group: BindGroup { id: before.graphics.next_handle() } }),
            AppContextView { graphics: with_sheet(before.graphics, pixels), ..before },
        )
    } else {
        (Err(ResourceError::OutOfHandles), before)
    }
}

/// The sheet behind a result, or its error.
pub open spec fn sheet_of(result: Result<Rc<SpriteSheet>, ResourceError>) -> Result<
    SpriteSheet,
    ResourceError,
> {
    match result {
        Ok(sheet) => Ok(*sheet),
        Err(error) => Err(error),
    }
}

/// The batch behind a result, as a mathematical value, or its error.
pub open spec fn batch_of(result: Result<SpriteBatch, ResourceError>) -> Result<
    SpriteBatchView,
    ResourceError,
> {
    match result {
        Ok(batch) => Ok(batch@),
        Err(error) => Err(error),
    }
}

/// The batch that is made for a sheet: its command list binds the sheet and
/// holds nothing else.
pub open spec fn fresh_batch(sheet: SpriteSheet) -> SpriteBatchView {
    SpriteBatchView { sheet, tasks: seq![sheet_binding(sheet)] }
}

/// The image of one pixel in the given color.
pub open spec fn single_pixel(color: Color) -> Pixels {
    Pixels { width: 1, height: 1, bytes: seq![color.r, color.g, color.b, color.a] }
}

impl AppContext {
    /// A context around the given adapter, with no exit asked for.
    pub fn new(graphics: Graphics) -> (actx: AppContext)
        ensures
            actx@ == (AppContextView {
                control_flow: ControlFlow::Continue,
                graphics: graphics@,
            }),
    {
        AppContext { control_flow: ControlFlow::Continue, graphics }
    }

    /// Asks for the exit. The request takes effect once the current event
    /// has been handled, not in the middle of it.
    pub fn exit(&mut self)
        ensures
            final(self)@ == (AppContextView { control_flow: ControlFlow::Exit, ..old(self)@ }),
    {
        self.control_flow = ControlFlow::Exit;
    }

    /// What the run loop is asked to do.
    pub fn control_flow(&self) -> (flow: ControlFlow)
        ensures
            flow == self@.control_flow,
    {
        self.control_flow
    }

    /// The graphics adapter.
    pub fn graphics(&self) -> (graphics: &Graphics)
        ensures
            graphics@ == self@.graphics,
    {
        &self.graphics
    }

    /// Returns the bounds of the visible screen.
    ///
    /// By default they correspond to the size of the window in logical
    /// pixels, but this can be overridden by explicitly calling
    /// `set_scale`. When the window is resized, the bounds are set to match
    /// the default again.
    pub fn scale(&self) -> (scale: Point)
        ensures
            scale == self@.graphics.scale,
    {
        self.graphics.scale()
    }

    /// Sets the bounds of the visible screen.
    pub fn set_scale(&mut self, scale: Point)
        ensures
            final(self)@ == (AppContextView {
                graphics: (GraphicsView { scale, ..old(self)@.graphics }).issue(
                    BackendCommandView::SetScale { scale },
                ),
                ..old(self)@
            }),
    {
        self.graphics.set_scale(scale)
    }

    /// Replaces the bytes of a buffer from the byte `offset` on. The bytes
    /// are copied into the buffer after all that was issued before, so a
    /// frame that has been submitted still draws with the old bytes.
    pub fn write_buffer(&mut self, buffer: Buffer, offset: u64, data: Vec<u8>)
        ensures
            final(self)@ == (AppContextView {
                graphics: old(self)@.graphics.issue(
                    BackendCommandView::WriteBuffer { buffer, offset, data: data@ },
                ),
                ..old(self)@
            }),
    {
        self.graphics.write_buffer(buffer, offset, data)
    }

    /// Creates a new pipeline from a vertex and a fragment shader, which
    /// come as the bytes of SPIR-V modules, for groups of the given kinds at
    /// the indices from 0 on and for vertices of the given layout.
    pub fn new_pipeline(
        &mut self,
        vertex: &[u8],
        fragment: &[u8],
        bind_groups: Vec<GroupKind>,
        vertex_buffer: VertexBufferDescriptor,
    ) -> (result: Result<Pipeline, PipelineError>)
        ensures
            result == pipeline_setup(
                old(self)@.graphics,
                vertex@,
                fragment@,
                bind_groups@,
                vertex_buffer@,
            ).0,
            final(self)@ == (AppContextView {
                graphics: pipeline_setup(
                    old(self)@.graphics,
                    vertex@,
                    fragment@,
                    bind_groups@,
                    vertex_buffer@,
                ).1,
                ..old(self)@
            }),
    {
        build_pipeline(&mut self.graphics, vertex, fragment, bind_groups, vertex_buffer)
    }

    /// Creates a new buffer with the given bytes.
    pub fn new_buffer(&mut self, usage: BufferUsage, data: Vec<u8>) -> (result: Result<
        Buffer,
        ResourceError,
    >)
        ensures
            (result, final(self)@) == (if old(self)@.graphics.has_handle() {
                let buffer = Buffer { id: old(self)@.graphics.next_handle() };
                (
                    Ok(buffer),
                    AppContextView {
                        graphics: old(self)@.graphics.create(
                            BackendCommandView::CreateBuffer { buffer, usage, data: data@ },
                        ),
                        ..old(self)@
                    },
                )
            } else {
                (Err(ResourceError::OutOfHandles), old(self)@)
            }),
    {
        self.graphics.create_buffer(usage, data)
    }

    /// Creates a new group that binds the first `size` bytes of a uniform
    /// buffer.
    pub fn new_bind_group(&mut self, buffer: Buffer, size: u64) -> (result: Result<
        BindGroup,
        ResourceError,
    >)
        ensures
            (result, final(self)@) == (if old(self)@.graphics.has_handle() {
                let bind_group = BindGroup { id: old(self)@.graphics.next_handle() };
                (
                    Ok(bind_group),
                    AppContextView {
                        graphics: old(self)@.graphics.create(
                            BackendCommandView::CreateBindGroup { bind_group, buffer, size },
                        ),
                        ..old(self)@
                    },
                )
            } else {
                (Err(ResourceError::OutOfHandles), old(self)@)
            }),
    {
        self.graphics.create_bind_group(buffer, size)
    }

    /// The graphics adapter, for the run loop to work on.
    pub(crate) fn graphics_mut(&mut self) -> (graphics: &mut Graphics)
        ensures
            graphics@ == old(self)@.graphics,
            final(self)@ == (AppContextView { graphics: final(graphics)@, ..old(self)@ }),
    {
        &mut self.graphics
    }

    /// Makes an exit that was asked for stick: with `exiting` the context
    /// asks for the exit, whatever it asked for before.
    pub(crate) fn latch(&mut self, exiting: bool)
        ensures
            final(self)@ == (AppContextView {
                control_flow: if exiting {
                    ControlFlow::Exit
                } else {
                    old(self)@.control_flow
                },
                ..old(self)@
            }),
    {
        if exiting {
            self.control_flow = ControlFlow::Exit;
        }
    }

    /// Creates a new sprite sheet from what a decoder made of the bytes of
    /// some image file: the image, or nothing where the bytes were not an
    /// image file that it could decode.
    ///
    /// Decoding is not done here. Whoever has the bytes decodes them and
    /// hands the outcome in; without an image the sheet is refused with
    /// `InvalidImage`.
    pub fn new_sheet_from_bytes(&mut self, decoded: Option<Image>) -> (result: Result<
        Rc<SpriteSheet>,
        ResourceError,
    >)
        ensures
            (sheet_of(result), final(self)@) == (match decoded {
                Some(image) => sheet_outcome(old(self)@, image@),
                None => (Err(ResourceError::InvalidImage), old(self)@),
            }),
    {
        match decoded {
            Some(image) => self.new_sheet_from_rgba_bytes(image.width, image.height, image.pixels),
            None => Err(ResourceError::InvalidImage),
        }
    }

    /// Creates a new sprite sheet from explicitly specified colors, one for
    /// each pixel, row after row from the top.
    ///
    /// The number of colors must be the width times the height.
    pub fn new_sheet_from_colors(&mut self, width: u32, height: u32, colors: Vec<Color>) -> (result:
        Result<Rc<SpriteSheet>, ResourceError>)
        ensures
            (sheet_of(result), final(self)@) == (if colors@.len() != width * height {
                (Err(ResourceError::InvalidDimensions), old(self)@)
            } else {
                sheet_outcome(old(self)@, Pixels { width, height, bytes: pixels_of(colors@) })
            }),
    {
        let area: u64 = area_of(width, height);
        if colors.len() as u64 != area {
            return Err(ResourceError::InvalidDimensions);
        }
        let mut pixels: Vec<u8> = Vec::new();
        let mut i: usize = 0;
        assert(colors@.take(0) =~= Seq::empty());
        while i < colors.len()
            invariant
                i <= colors.len(),
                pixels@ == pixels_of(colors@.take(i as int)),
            decreases colors.len() - i,
        {
            let color = colors[i];
            pixels.push(color.r);
            pixels.push(color.g);
            pixels.push(color.b);
            pixels.push(color.a);
            proof {
                assert(colors@.take(i + 1).drop_last() =~= colors@.take(i as int));
                assert(pixels@ =~= pixels_of(colors@.take(i as int)) + seq![
                    color.r,
                    color.g,
                    color.b,
                    color.a,
                ]);
            }
            i += 1;
        }
        assert(colors@.take(i as int) =~= colors@);
        self.new_sheet_from_rgba_bytes(width, height, pixels)
    }

    /// Creates a new sprite sheet 1 pixel by 1 pixel wide with the given
    /// color.
    pub fn new_sheet_from_color(&mut self, color: Color) -> (result: Result<
        Rc<SpriteSheet>,
        ResourceError,
    >)
        ensures
            (sheet_of(result), final(self)@) == sheet_outcome(old(self)@, single_pixel(color)),
    {
        let mut colors: Vec<Color> = Vec::new();
        colors.push(color);
        proof {
            assert(colors@.drop_last() =~= Seq::empty());
            assert(pixels_of(colors@.drop_last()) =~= Seq::empty());
            assert(pixels_of(colors@) =~= seq![color.r, color.g, color.b, color.a]);
        }
        self.new_sheet_from_colors(1, 1, colors)
    }

    /// Creates a new sprite sheet from raw pixels: four bytes for each
    /// pixel, in the order red, green, blue, alpha.
    ///
    /// There must be bytes for every pixel of the width and height given.
    pub fn new_sheet_from_rgba_bytes(&mut self, width: u32, height: u32, bytes: Vec<u8>) -> (result:
        Result<Rc<SpriteSheet>, ResourceError>)
        ensures
            (sheet_of(result), final(self)@) == sheet_outcome(
                old(self)@,
                Pixels { width, height, bytes: bytes@ },
            ),
    {
        let area: u64 = area_of(width, height);
        let needed: u128 = 4 * (area as u128);
        if (bytes.len() as u128) < needed {
            return Err(ResourceError::InvalidDimensions);
        }
        match self.graphics.create_sheet(width, height, bytes) {
            Ok(bind_group) => Ok(Rc::new(SpriteSheet { bind_group })),
            Err(error) => Err(error),
        }
    }

    /// Creates a new batch that draws from a sheet.
    pub fn new_batch(&mut self, sheet: Rc<SpriteSheet>) -> (result: Result<
        SpriteBatch,
        ResourceError,
    >)
        ensures
            batch_of(result) == Ok::<SpriteBatchView, ResourceError>(fresh_batch(*sheet)),
            final(self)@ == old(self)@,
    {
        Ok(SpriteBatch::new(sheet))
    }

    /// Creates a new batch that draws from a new sheet of one pixel in the
    /// given color.
    pub fn new_batch_from_color(&mut self, color: Color) -> (result: Result<
        SpriteBatch,
        ResourceError,
    >)
        ensures
            batch_of(result) == (match sheet_outcome(old(self)@, single_pixel(color)).0 {
                Ok(sheet) => Ok(fresh_batch(sheet)),
                Err(error) => Err(error),
            }),
            final(self)@ == sheet_outcome(old(self)@, single_pixel(color)).1,
    {
        match self.new_sheet_from_color(color) {
            Ok(sheet) => self.new_batch(sheet),
            Err(error) => Err(error),
        }
    }
}

/// The number of pixels of an image with the given width and height.
fn area_of(width: u32, height: u32) -> (area: u64)
    ensures
        area == width * height,
{
    assert(width * height <= 0xFFFF_FFFF * 0xFFFF_FFFF) by (nonlinear_arith)
        requires
            width <= 0xFFFF_FFFF,
            height <= 0xFFFF_FFFF,
    ;
    (width as u64) * (height as u64)
}

/// The context that is passed to a game when a frame is to be drawn.
///
/// A render has one meaningful action, [`RenderContext::render`], which a
/// game calls once. What a game may do outside of a render it may do here
/// as well, through [`RenderContext::actx`].
pub struct RenderContext {
    actx: AppContext,
}

impl View for RenderContext {
    type V = AppContextView;

    closed spec fn view(&self) -> AppContextView {
        self.actx@
    }
}

/// The batches behind a slice of references, as mathematical values.
pub open spec fn batch_views(batches: Seq<&SpriteBatch>) -> Seq<SpriteBatchView> {
    batches.map_values(|b: &SpriteBatch| b@)
}

impl RenderContext {
    /// A render context around the given context.
    pub fn new(actx: AppContext) -> (rctx: RenderContext)
        ensures
            rctx@ == actx@,
    {
        RenderContext { actx }
    }

    /// The context for what is not drawing.
    pub fn actx(&mut self) -> (actx: &mut AppContext)
        ensures
            actx@ == old(self)@,
            final(self)@ == final(actx)@,
    {
        &mut self.actx
    }

    /// Reads the context without changing it.
    pub fn peek(&self) -> (actx: &AppContext)
        ensures
            actx@ == self@,
    {
        &self.actx
    }

    /// Submits a command list for presentation: one frame, drawn from the
    /// list as it stands. This is [`RenderContext::render`] for what a
    /// drawable has given, and what is said there holds here.
    pub fn draw(&mut self, tasks: Vec<DrawTask>) -> (result: Result<(), ExecError>)
        ensures
            match PassModel::empty().run(list_view(tasks@)) {
                Ok(_) => result is Ok && final(self)@ == (AppContextView {
                    graphics: (GraphicsView {
                        frames: counted(old(self)@.graphics.frames),
                        ..old(self)@.graphics
                    }).issue(BackendCommandView::Present { tasks: list_view(tasks@) }),
                    ..old(self)@
                }),
                Err(at) => result matches Err(ExecError::NoPipeline { index }) && index == at
                    && final(self)@ == old(self)@,
            },
    {
        self.actx.graphics.render(tasks)
    }

    /// Submits the batches for presentation: one frame, drawn from the
    /// command lists of the batches, one after the other in the order given.
    ///
    /// A game calls this once in a render. Without a call no frame is
    /// presented and the image on the surface stays. Every further call
    /// presents a frame of its own, over the one before.
    ///
    /// The frame fails, and nothing is presented, if a draw in it finds no
    /// pipeline bound; the error gives the position of that draw in the
    /// frame's command list.
    pub fn render(&mut self, batches: &[&SpriteBatch]) -> (result: Result<(), ExecError>)
        ensures
            match PassModel::empty().run(frame_list(batch_views(batches@))) {
                Ok(_) => result is Ok && final(self)@ == (AppContextView {
                    graphics: (GraphicsView {
                        frames: counted(old(self)@.graphics.frames),
                        ..old(self)@.graphics
                    }).issue(
                        BackendCommandView::Present { tasks: frame_list(batch_views(batches@)) },
                    ),
                    ..old(self)@
                }),
                Err(at) => result matches Err(ExecError::NoPipeline { index }) && index == at
                    && final(self)@ == old(self)@,
            },
    {
        let mut list: Vec<DrawTask> = Vec::new();
        let mut i: usize = 0;
        assert(batch_views(batches@).take(0) =~= Seq::empty());
        assert(list_view(list@) =~= Seq::empty());
        while i < batches.len()
            invariant
                i <= batches.len(),
                list_view(list@) == frame_list(batch_views(batches@).take(i as int)),
            decreases batches.len() - i,
        {
            let tasks = batches[i].tasks();
            let ghost before = list_view(list@);
            assert(list_view(tasks@) == batches@[i as int]@.tasks);
            let mut j: usize = 0;
            assert(list_view(tasks@).take(0) =~= Seq::empty());
            assert(before + list_view(tasks@).take(0) =~= before);
            while j < tasks.len()
                invariant
                    j <= tasks.len(),
                    list_view(list@) == before + list_view(tasks@).take(j as int),
                decreases tasks.len() - j,
            {
                let ghost so_far = list_view(list@);
                let copy = tasks[j].duplicate();
                list.push(copy);
                proof {
                    assert(list_view(list@) =~= so_far.push(copy@));
                    assert(list_view(tasks@).take(j + 1) =~= list_view(tasks@).take(j as int).push(
                        tasks[j as int]@,
                    ));
                    assert(list_view(list@) =~= before + list_view(tasks@).take(j + 1));
                }
                j += 1;
            }
            proof {
                let views = batch_views(batches@);
                assert(list_view(tasks@).take(j as int) =~= list_view(tasks@));
                assert(views.take(i + 1).drop_last() =~= views.take(i as int));
                assert(views.take(i + 1).last().tasks == list_view(tasks@));
            }
            i += 1;
        }
        assert(batch_views(batches@).take(i as int) =~= batch_views(batches@));
        self.actx.graphics.render(list)
    }
}

} // verus!
