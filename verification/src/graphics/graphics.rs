use vstd::prelude::*;
use crate::graphics::drawable::{
    execute, list_view, DrawTask, DrawTaskView, ExecError, PassModel,
};
use crate::graphics::handle::{BindGroup, Buffer, Pipeline};
use crate::graphics::s2d::S2D;
use crate::graphics::vertex::{VertexBufferDescriptor, VertexBufferDescriptorView};
use crate::scalar::Point;

verus! {

/// A colour with one byte for each of red, green, blue and alpha.
#[derive(Debug, Clone, Copy, PartialEq, Eq, Hash, Structural)]
pub struct Color {
    pub r: u8,
    pub g: u8,
    pub b: u8,
    pub a: u8,
}

/// Why a resource could not be created.
#[derive(Debug, Clone, Copy, PartialEq, Eq, Structural)]
pub enum ResourceError {
    /// The bytes are not those of an image file that can be decoded.
    InvalidImage,
    /// The pixels given do not fill the width and height given.
    InvalidDimensions,
    /// Every handle has been given out.
    OutOfHandles,
}

/// What a buffer is for.
#[derive(Debug, Clone, Copy, PartialEq, Eq, Hash, Structural)]
pub enum BufferUsage {
    /// The buffer holds vertices.
    Vertex,
    /// The buffer holds indices.
    Index,
    /// The buffer holds values for the shaders, and can be written again.
    Uniform,
}

/// The kind of a group of resources, which decides what a pipeline expects
/// at the index where the group is bound.
#[derive(Debug, Clone, Copy, PartialEq, Eq, Hash, Structural)]
pub enum GroupKind {
    /// A texture with its sampler, as a sprite sheet has it.
    Texture,
    /// One uniform buffer.
    Uniform,
}

/// Work that the graphics adapter has decided on and that the GPU has yet to
/// do. The commands are performed in the order in which they were issued.
#[derive(Debug)]
pub enum BackendCommand {
    /// Recreate the presentation surface with these dimensions.
    Resize { width: u32, height: u32 },
    /// Take these bounds for the visible screen: its upper left corner is
    /// the origin, its lower right corner the point given.
    SetScale { scale: Point },
    /// Upload the pixels of a sprite sheet and make them available under
    /// the handle. The pixels come four bytes each in the order red, green,
    /// blue, alpha, row after row from the top.
    CreateSheet { bind_group: BindGroup, width: u32, height: u32, pixels: Vec<u8> },
    /// Create a buffer that holds the bytes, under the handle.
    CreateBuffer { buffer: Buffer, usage: BufferUsage, data: Vec<u8> },
    /// Create a group that binds the first `size` bytes of a uniform
    /// buffer, under the handle.
    CreateBindGroup { bind_group: BindGroup, buffer: Buffer, size: u64 },
    /// Build a render pipeline under the handle: from a vertex and a
    /// fragment shader, given as SPIR-V words, for groups of the given
    /// kinds at the indices from 0 on, and for vertices of the given layout.
    CreatePipeline {
        pipeline: Pipeline,
        vertex_shader: Vec<u32>,
        fragment_shader: Vec<u32>,
        bind_groups: Vec<GroupKind>,
        vertex_buffer: VertexBufferDescriptor,
    },
    /// Replace the bytes of a buffer from the byte `offset` on. The bytes
    /// are written to a fresh buffer first and copied from there, in the
    /// order of the commands, so that a frame that was issued before still
    /// draws with what the buffer held.
    WriteBuffer { buffer: Buffer, offset: u64, data: Vec<u8> },
    /// Present one frame: acquire the next image of the surface, open one
    /// render pass on it that clears it to the default colour, run the
    /// command list in list order, and submit.
    Present { tasks: Vec<DrawTask> },
}

/// What a [`BackendCommand`] says, as a mathematical value.
pub enum BackendCommandView {
    Resize { width: u32, height: u32 },
    SetScale { scale: Point },
    CreateSheet { bind_group: BindGroup, width: u32, height: u32, pixels: Seq<u8> },
    CreateBuffer { buffer: Buffer, usage: BufferUsage, data: Seq<u8> },
    CreateBindGroup { bind_group: BindGroup, buffer: Buffer, size: u64 },
    CreatePipeline {
        pipeline: Pipeline,
        vertex_shader: Seq<u32>,
        fragment_shader: Seq<u32>,
        bind_groups: Seq<GroupKind>,
        vertex_buffer: VertexBufferDescriptorView,
    },
    WriteBuffer { buffer: Buffer, offset: u64, data: Seq<u8> },
    Present { tasks: Seq<DrawTaskView> },
}

impl View for BackendCommand {
    type V = BackendCommandView;

    open spec fn view(&self) -> BackendCommandView {
        match *self {
            BackendCommand::Resize { width, height } => BackendCommandView::Resize { width, height },
            BackendCommand::SetScale { scale } => BackendCommandView::SetScale { scale },
            BackendCommand::CreateSheet {
                bind_group,
                width,
                height,
                pixels,
            } => BackendCommandView::CreateSheet { bind_group, width, height, pixels: pixels@ },
            BackendCommand::CreateBuffer { buffer, usage, data } => BackendCommandView::CreateBuffer {
                buffer,
                usage,
                data: data@,
            },
            BackendCommand::CreateBindGroup {
                bind_group,
                buffer,
                size,
            } => BackendCommandView::CreateBindGroup { bind_group, buffer, size },
            BackendCommand::CreatePipeline {
                pipeline,
                vertex_shader,
                fragment_shader,
                bind_groups,
                vertex_buffer,
            } => BackendCommandView::CreatePipeline {
                pipeline,
                vertex_shader: vertex_shader@,
                fragment_shader: fragment_shader@,
                bind_groups: bind_groups@,
                vertex_buffer: vertex_buffer@,
            },
            BackendCommand::WriteBuffer { buffer, offset, data } => BackendCommandView::WriteBuffer {
                buffer,
                offset,
                data: data@,
            },
            BackendCommand::Present { tasks } => BackendCommandView::Present {
                tasks: list_view(tasks@),
            },
        }
    }
}

/// The state of the graphics adapter, as a mathematical value.
pub struct GraphicsView {
    /// The presentation surface.
    pub surface: S2D,
    /// The bounds of the visible screen.
    pub scale: Point,
    /// The commands issued and not yet taken, oldest first.
    pub pending: Seq<BackendCommandView>,
    /// The number of the handle that is given out next. Handles are
    /// numbered upwards, so this is also the number of handles given out
    /// by an adapter that began with the number 0.
    pub handles: nat,
    /// The number of frames presented so far.
    pub frames: nat,
}

impl GraphicsView {
    /// The adapter with one more command pending.
    pub open spec fn issue(self, command: BackendCommandView) -> GraphicsView {
        GraphicsView { pending: self.pending.push(command), ..self }
    }

    /// Whether a handle is left to give out.
    pub open spec fn has_handle(self) -> bool {
        self.handles < u64::MAX
    }

    /// The number of the handle that is given out next. The handles are
    /// numbered in the order in which they are given out, whatever they are
    /// handles to.
    pub open spec fn next_handle(self) -> u64 {
        self.handles as u64
    }

    /// The adapter after it has given out a handle and issued the command
    /// that creates what the handle stands for.
    pub open spec fn create(self, command: BackendCommandView) -> GraphicsView {
        GraphicsView { pending: self.pending.push(command), handles: self.handles + 1, ..self }
    }
}

/// The graphics adapter.
///
/// It owns the presentation surface and decides what the GPU has to do:
/// every operation that needs the GPU ends in a [`BackendCommand`], which
/// waits in the adapter until [`Graphics::take_commands`] hands it out.
pub struct Graphics {
    surface: S2D,
    scale: Point,
    commands: Vec<BackendCommand>,
    handles: u64,
    frames: u64,
}

/// The count after one more, which stays at the largest count there is.
pub open spec fn counted(count: nat) -> nat {
    if count < u64::MAX {
        count + 1
    } else {
        count
    }
}

impl View for Graphics {
    type V = GraphicsView;

    closed spec fn view(&self) -> GraphicsView {
        GraphicsView {
            surface: self.surface,
            scale: self.scale,
            pending: self.commands@.map_values(|c: BackendCommand| c@),
            handles: self.handles as nat,
            frames: self.frames as nat,
        }
    }
}

impl Graphics {
    /// An adapter whose surface has the given dimensions and whose screen
    /// has the given bounds, with no command pending, no handle given out
    /// and no frame presented.
    pub fn new(width: u32, height: u32, scale: Point) -> (graphics: Graphics)
        ensures
            graphics@.surface.dimensions() == (width, height),
            graphics@.scale == scale,
            graphics@.pending == Seq::<BackendCommandView>::empty(),
            graphics@.handles == 0,
            graphics@.frames == 0,
    {
        let graphics = Graphics {
            surface: S2D::new(width, height),
            scale,
            commands: Vec::new(),
            handles: 0,
            frames: 0,
        };
        assert(graphics@.pending =~= Seq::empty());
        graphics
    }

    /// An adapter like a new one, but for the number of its first handle,
    /// which is `first`. With it two adapters can give out handles that
    /// never meet.
    pub fn numbered_from(width: u32, height: u32, scale: Point, first: u64) -> (graphics: Graphics)
        ensures
            graphics@.surface.dimensions() == (width, height),
            graphics@.scale == scale,
            graphics@.pending == Seq::<BackendCommandView>::empty(),
            graphics@.handles == first,
            graphics@.frames == 0,
    {
        let graphics = Graphics {
            surface: S2D::new(width, height),
            scale,
            commands: Vec::new(),
            handles: first,
            frames: 0,
        };
        assert(graphics@.pending =~= Seq::empty());
        graphics
    }

    pub fn width(&self) -> (width: u32)
        ensures
            width == self@.surface.dimensions().0,
    {
        self.surface.width()
    }

    pub fn height(&self) -> (height: u32)
        ensures
            height == self@.surface.dimensions().1,
    {
        self.surface.height()
    }

    /// Returns the bounds of the visible screen.
    pub fn scale(&self) -> (scale: Point)
        ensures
            scale == self@.scale,
    {
        self.scale
    }

    /// The number of frames presented so far. The count stops at the
    /// largest number it can hold.
    pub fn frames(&self) -> (frames: u64)
        ensures
            frames == self@.frames,
    {
        self.frames
    }

    /// The number of handles that are left to give out.
    pub fn handles_left(&self) -> (left: u64)
        ensures
            left == u64::MAX - self@.handles,
    {
        u64::MAX - self.handles
    }

    /// The number of commands that are pending.
    pub fn pending(&self) -> (pending: usize)
        ensures
            pending == self@.pending.len(),
    {
        self.commands.len()
    }

    /// Puts a command at the end of those that are pending.
    fn issue(&mut self, command: BackendCommand)
        ensures
            final(self)@ == old(self)@.issue(command@),
    {
        self.commands.push(command);
        assert(final(self)@.pending =~= old(self)@.pending.push(command@));
    }

    /// Gives out the next handle, if one is left.
    fn reserve(&mut self) -> (id: Option<u64>)
        ensures
            old(self)@.has_handle() ==> id == Some(old(self)@.next_handle()) && final(self)@ == (
            GraphicsView { handles: old(self)@.handles + 1, ..old(self)@ }),
            !old(self)@.has_handle() ==> id.is_none() && final(self)@ == old(self)@,
    {
        if self.handles == u64::MAX {
            None
        } else {
            let id = self.handles;
            self.handles = self.handles + 1;
            Some(id)
        }
    }

    /// Adjusts the graphics when the window changes: the surface gets the
    /// new dimensions, and the GPU is told to recreate it before anything
    /// that is issued later.
    pub fn resize(&mut self, new_width: u32, new_height: u32)
        ensures
            final(self)@ == (GraphicsView {
                surface: old(self)@.surface.resized(new_width, new_height),
                ..old(self)@
            }).issue(BackendCommandView::Resize { width: new_width, height: new_height }),
            final(self)@.surface.dimensions() == (new_width, new_height),
    {
        self.surface.resize(new_width, new_height);
        self.issue(BackendCommand::Resize { width: new_width, height: new_height });
    }

    /// Sets the bounds of the visible screen, and tells the GPU.
    pub fn set_scale(&mut self, scale: Point)
        ensures
            final(self)@ == (GraphicsView { scale, ..old(self)@ }).issue(
                BackendCommandView::SetScale { scale },
            ),
    {
        self.scale = scale;
        self.issue(BackendCommand::SetScale { scale });
    }

    /// Renders one frame from a command list.
    ///
    /// The list is first run against a fresh pass. If a draw in it finds no
    /// pipeline bound, the frame fails with the position of that draw and
    /// nothing is issued. Otherwise exactly one frame is presented: one
    /// `Present` command with the list, entry for entry in list order.
    pub fn render(&mut self, tasks: Vec<DrawTask>) -> (result: Result<(), ExecError>)
        ensures
            match PassModel::empty().run(list_view(tasks@)) {
                Ok(_) => result is Ok && final(self)@ == (GraphicsView {
                    frames: counted(old(self)@.frames),
                    ..old(self)@
                }).issue(BackendCommandView::Present { tasks: list_view(tasks@) }),
                Err(at) => result matches Err(ExecError::NoPipeline { index }) && index == at
                    && final(self)@ == old(self)@,
            },
    {
        match execute(&tasks) {
            Ok(_) => {
                if self.frames < u64::MAX {
                    self.frames = self.frames + 1;
                }
                self.issue(BackendCommand::Present { tasks });
                Ok(())
            },
            Err(error) => Err(error),
        }
    }

    /// Creates a sprite sheet: gives out a fresh handle and tells the GPU to
    /// upload the pixels under it. Fails, and changes nothing, when every
    /// handle has been given out.
    pub fn create_sheet(&mut self, width: u32, height: u32, pixels: Vec<u8>) -> (result: Result<
        BindGroup,
        ResourceError,
    >)
        ensures
            (result, final(self)@) == (if old(self)@.has_handle() {
                let bind_group = BindGroup { id: old(self)@.next_handle() };
                (
                    Ok(bind_group),
                    old(self)@.create(
                        BackendCommandView::CreateSheet {
                            bind_group,
                            width,
                            height,
                            pixels: pixels@,
                        },
                    ),
                )
            } else {
                (Err(ResourceError::OutOfHandles), old(self)@)
            }),
    {
        match self.reserve() {
            Some(id) => {
                let bind_group = BindGroup { id };
                self.issue(BackendCommand::CreateSheet { bind_group, width, height, pixels });
                Ok(bind_group)
            },
            None => Err(ResourceError::OutOfHandles),
        }
    }

    /// Creates a buffer: gives out a fresh handle and tells the GPU to
    /// create a buffer with the bytes under it. Fails, and changes nothing,
    /// when every handle has been given out.
    pub fn create_buffer(&mut self, usage: BufferUsage, data: Vec<u8>) -> (result: Result<
        Buffer,
        ResourceError,
    >)
        ensures
            (result, final(self)@) == (if old(self)@.has_handle() {
                let buffer = Buffer { id: old(self)@.next_handle() };
                (
                    Ok(buffer),
                    old(self)@.create(
                        BackendCommandView::CreateBuffer { buffer, usage, data: data@ },
                    ),
                )
            } else {
                (Err(ResourceError::OutOfHandles), old(self)@)
            }),
    {
        match self.reserve() {
            Some(id) => {
                let buffer = Buffer { id };
                self.issue(BackendCommand::CreateBuffer { buffer, usage, data });
                Ok(buffer)
            },
            None => Err(ResourceError::OutOfHandles),
        }
    }

    /// Creates a group that binds the first `size` bytes of a uniform
    /// buffer: gives out a fresh handle and tells the GPU to create the
    /// group under it. Fails, and changes nothing, when every handle has
    /// been given out.
    pub fn create_bind_group(&mut self, buffer: Buffer, size: u64) -> (result: Result<
        BindGroup,
        ResourceError,
    >)
        ensures
            (result, final(self)@) == (if old(self)@.has_handle() {
                let bind_group = BindGroup { id: old(self)@.next_handle() };
                (
                    Ok(bind_group),
                    old(self)@.create(
                        BackendCommandView::CreateBindGroup { bind_group, buffer, size },
                    ),
                )
            } else {
                (Err(ResourceError::OutOfHandles), old(self)@)
            }),
    {
        match self.reserve() {
            Some(id) => {
                let bind_group = BindGroup { id };
                self.issue(BackendCommand::CreateBindGroup { bind_group, buffer, size });
                Ok(bind_group)
            },
            None => Err(ResourceError::OutOfHandles),
        }
    }

    /// Creates a render pipeline: gives out a fresh handle and tells the GPU
    /// to build the pipeline under it. Fails, and changes nothing, when
    /// every handle has been given out.
    pub fn create_pipeline(
        &mut self,
        vertex_shader: Vec<u32>,
        fragment_shader: Vec<u32>,
        bind_groups: Vec<GroupKind>,
        vertex_buffer: VertexBufferDescriptor,
    ) -> (result: Result<Pipeline, ResourceError>)
        ensures
            (result, final(self)@) == (if old(self)@.has_handle() {
                let pipeline = Pipeline { id: old(self)@.next_handle() };
                (
                    Ok(pipeline),
                    old(self)@.create(
                        BackendCommandView::CreatePipeline {
                            pipeline,
                            vertex_shader: vertex_shader@,
                            fragment_shader: fragment_shader@,
                            bind_groups: bind_groups@,
                            vertex_buffer: vertex_buffer@,
                        },
                    ),
                )
            } else {
                (Err(ResourceError::OutOfHandles), old(self)@)
            }),
    {
        match self.reserve() {
            Some(id) => {
                let pipeline = Pipeline { id };
                self.issue(
                    BackendCommand::CreatePipeline {
                        pipeline,
                        vertex_shader,
                        fragment_shader,
                        bind_groups,
                        vertex_buffer,
                    },
                );
                Ok(pipeline)
            },
            None => Err(ResourceError::OutOfHandles),
        }
    }

    /// Replaces the bytes of a buffer from the byte `offset` on. The buffer
    /// is not touched here: the GPU is told to copy the new bytes into it,
    /// after all that was issued before.
    pub fn write_buffer(&mut self, buffer: Buffer, offset: u64, data: Vec<u8>)
        ensures
            final(self)@ == old(self)@.issue(
                BackendCommandView::WriteBuffer { buffer, offset, data: data@ },
            ),
    {
        self.issue(BackendCommand::WriteBuffer { buffer, offset, data });
    }

    /// Hands out the pending commands, oldest first, and leaves none
    /// pending.
    pub fn take_commands(&mut self) -> (commands: Vec<BackendCommand>)
        ensures
            commands@.map_values(|c: BackendCommand| c@) == old(self)@.pending,
            final(self)@ == (GraphicsView { pending: Seq::empty(), ..old(self)@ }),
    {
        let mut commands: Vec<BackendCommand> = Vec::new();
        core::mem::swap(&mut commands, &mut self.commands);
        assert(final(self)@.pending =~= Seq::empty());
        commands
    }
}

} // verus!
