use vstd::prelude::*;
use std::ops::Range;
use crate::context::{AppContext, AppContextView};
use crate::game::GameError;
use crate::graphics::drawable::{
    list_view, DrawCall, DrawCommand, DrawTask, DrawTaskView, Drawable, GroupBindingView,
    PassModel,
};
use crate::graphics::graphics::{BackendCommandView, BufferUsage, GraphicsView, ResourceError};
use crate::graphics::handle::{BindGroup, Buffer, BufferBinding, Pipeline};

verus! {

/// The GPU resources of a [`TestDrawable`], by their handles.
#[derive(Debug, Clone, Copy, PartialEq, Eq, Structural)]
pub struct Data {
    pub render_pipeline: Pipeline,
    pub num_vertices: u32,
    pub vertex_buffer: Buffer,
    pub num_indices: u32,
    pub index_buffer: Buffer,
    /// The buffer that holds the transformation matrix.
    pub uniform_buffer: Buffer,
    pub uniform_bind_group: BindGroup,
}

/// The bytes that the buffers of a mesh hold at first.
#[derive(Debug)]
pub struct MeshBytes {
    /// The vertices, as the vertex buffer holds them.
    pub vertices: Vec<u8>,
    pub num_vertices: u32,
    /// The indices, as the index buffer holds them.
    pub indices: Vec<u8>,
    pub num_indices: u32,
    /// The transformation matrix, as the uniform buffer holds it.
    pub uniforms: Vec<u8>,
}

/// What a [`MeshBytes`] holds, as a mathematical value.
pub struct MeshBytesView {
    pub vertices: Seq<u8>,
    pub num_vertices: u32,
    pub indices: Seq<u8>,
    pub num_indices: u32,
    pub uniforms: Seq<u8>,
}

impl View for MeshBytes {
    type V = MeshBytesView;

    open spec fn view(&self) -> MeshBytesView {
        MeshBytesView {
            vertices: self.vertices@,
            num_vertices: self.num_vertices,
            indices: self.indices@,
            num_indices: self.num_indices,
            uniforms: self.uniforms@,
        }
    }
}

/// What building the resources of a mesh gives, by the state of the
/// adapter. With four handles left, the vertex buffer, the index buffer,
/// the uniform buffer and the group that binds the whole uniform buffer are
/// created in this order and get the next four handles. With fewer left,
/// nothing is created.
pub open spec fn data_outcome(before: AppContextView, render_pipeline: Pipeline, mesh: MeshBytesView)
    -> (Result<Data, ResourceError>, AppContextView) {
    if before.graphics.handles + 4 <= u64::MAX {
        let first = before.graphics.next_handle();
        let data = Data {
            render_pipeline,
            num_vertices: mesh.num_vertices,
            vertex_buffer: Buffer { id: first },
            num_indices: mesh.num_indices,
            index_buffer: Buffer { id: (first + 1) as u64 },
            uniform_buffer: Buffer { id: (first + 2) as u64 },
            uniform_bind_group: BindGroup { id: (first + 3) as u64 },
        };
        (
            Ok(data),
            AppContextView {
                graphics: before.graphics.create(
                    BackendCommandView::CreateBuffer {
                        buffer: data.vertex_buffer,
                        usage: BufferUsage::Vertex,
                        data: mesh.vertices,
                    },
                ).create(
                    BackendCommandView::CreateBuffer {
                        buffer: data.index_buffer,
                        usage: BufferUsage::Index,
                        data: mesh.indices,
                    },
                ).create(
                    BackendCommandView::CreateBuffer {
                        buffer: data.uniform_buffer,
                        usage: BufferUsage::Uniform,
                        data: mesh.uniforms,
                    },
                ).create(
                    BackendCommandView::CreateBindGroup {
                        bind_group: data.uniform_bind_group,
                        buffer: data.uniform_buffer,
                        size: mesh.uniforms.len() as u64,
                    },
                ),
                ..before
            },
        )
    } else {
        (Err(ResourceError::OutOfHandles), before)
    }
}

impl Data {
    /// Builds the resources of a mesh that is drawn with the given
    /// pipeline.
    pub fn new(actx: &mut AppContext, render_pipeline: Pipeline, mesh: MeshBytes) -> (result: Result<
        Data,
        ResourceError,
    >)
        ensures
            (result, final(actx)@) == data_outcome(old(actx)@, render_pipeline, mesh@),
    {
        if actx.graphics().handles_left() < 4 {
            return Err(ResourceError::OutOfHandles);
        }
        let size: u64 = mesh.uniforms.len() as u64;
        let vertex_buffer = match actx.new_buffer(BufferUsage::Vertex, mesh.vertices) {
            Ok(buffer) => buffer,
            Err(error) => {
                return Err(error);
            },
        };
        let index_buffer = match actx.new_buffer(BufferUsage::Index, mesh.indices) {
            Ok(buffer) => buffer,
            Err(error) => {
                return Err(error);
            },
        };
        let uniform_buffer = match actx.new_buffer(BufferUsage::Uniform, mesh.uniforms) {
            Ok(buffer) => buffer,
            Err(error) => {
                return Err(error);
            },
        };
        let uniform_bind_group = match actx.new_bind_group(uniform_buffer, size) {
            Ok(bind_group) => bind_group,
            Err(error) => {
                return Err(error);
            },
        };
        Ok(
            Data {
                render_pipeline,
                num_vertices: mesh.num_vertices,
                vertex_buffer,
                num_indices: mesh.num_indices,
                index_buffer,
                uniform_buffer,
                uniform_bind_group,
            },
        )
    }
}

/// A mesh that draws itself with one indexed draw.
///
/// Its resources are built in a step of their own: a drawable is made with
/// none, [`TestDrawable::build`] gives them to it, and only then can it be
/// drawn. New contents for its transformation matrix wait in the drawable
/// until [`TestDrawable::flush`] sends them on their way to the GPU.
#[derive(Debug)]
pub struct TestDrawable {
    data: Option<Data>,
    dirty_uniforms: Option<Vec<u8>>,
}

/// What a [`TestDrawable`] holds, as a mathematical value.
pub struct TestDrawableView {
    /// The resources, once they are built.
    pub data: Option<Data>,
    /// The bytes of a transformation matrix that has yet to be sent.
    pub dirty_uniforms: Option<Seq<u8>>,
}

impl View for TestDrawable {
    type V = TestDrawableView;

    closed spec fn view(&self) -> TestDrawableView {
        TestDrawableView {
            data: self.data,
            dirty_uniforms: match self.dirty_uniforms {
                Some(bytes) => Some(bytes@),
                None => None,
            },
        }
    }
}

/// The command list that draws a mesh with the given resources: the
/// pipeline, the matrix at index 0, the vertices at slot 0, the indices,
/// and one indexed draw of all indices in one instance.
pub open spec fn mesh_list(data: Data) -> Seq<DrawTaskView> {
    seq![
        DrawTaskView::SetPipeline(data.render_pipeline),
        DrawTaskView::SetBindGroup {
            index: 0,
            group: GroupBindingView { bind_group: data.uniform_bind_group, offsets: Seq::empty() },
        },
        DrawTaskView::SetVertexBuffer {
            slot: 0,
            binding: BufferBinding { buffer: data.vertex_buffer, offset: 0, size: 0 },
        },
        DrawTaskView::SetIndexBuffer {
            binding: BufferBinding { buffer: data.index_buffer, offset: 0, size: 0 },
        },
        DrawTaskView::Draw(
            DrawCommand::DrawIndexed {
                indices: Range { start: 0, end: data.num_indices },
                base_vertex: 0,
                instances: Range { start: 0, end: 1 },
            },
        ),
    ]
}

/// The drawable and the context after new bytes of the transformation
/// matrix have been sent: with the resources built and bytes waiting, the
/// bytes are written to the start of the matrix buffer and wait no longer;
/// else nothing changes.
pub open spec fn flushed(drawable: TestDrawableView, context: AppContextView) -> (
    TestDrawableView,
    AppContextView,
) {
    match (drawable.data, drawable.dirty_uniforms) {
        (Some(data), Some(bytes)) => (
            TestDrawableView { dirty_uniforms: None, ..drawable },
            AppContextView {
                graphics: context.graphics.issue(
                    BackendCommandView::WriteBuffer {
                        buffer: data.uniform_buffer,
                        offset: 0,
                        data: bytes,
                    },
                ),
                ..context
            },
        ),
        _ => (drawable, context),
    }
}

impl TestDrawable {
    /// A drawable whose resources have yet to be built.
    pub fn new() -> (drawable: TestDrawable)
        ensures
            drawable@ == (TestDrawableView { data: None, dirty_uniforms: None }),
    {
        TestDrawable { data: None, dirty_uniforms: None }
    }

    /// Whether the resources are built.
    pub fn is_built(&self) -> (built: bool)
        ensures
            built == self@.data.is_some(),
    {
        self.data.is_some()
    }

    /// Gives the drawable its resources. Resources that it had before are
    /// replaced.
    pub fn build(&mut self, data: Data)
        ensures
            final(self)@ == (TestDrawableView { data: Some(data), ..old(self)@ }),
    {
        self.data = Some(data);
    }

    /// Sets the bytes of the transformation matrix. They take the place of
    /// bytes that were set before and have not been sent.
    pub fn set_uniforms(&mut self, bytes: Vec<u8>)
        ensures
            final(self)@ == (TestDrawableView { dirty_uniforms: Some(bytes@), ..old(self)@ }),
    {
        self.dirty_uniforms = Some(bytes);
    }

    /// Sends new bytes of the transformation matrix to the GPU, if there
    /// are any and the resources are built: one command that writes them
    /// to the start of the matrix buffer. Otherwise nothing happens.
    pub fn flush(&mut self, actx: &mut AppContext)
        ensures
            (final(self)@, final(actx)@) == flushed(old(self)@, old(actx)@),
    {
        match self.data {
            Some(data) => {
                let mut pending: Option<Vec<u8>> = None;
                core::mem::swap(&mut pending, &mut self.dirty_uniforms);
                match pending {
                    Some(bytes) => {
                        actx.graphics_mut().write_buffer(data.uniform_buffer, 0, bytes);
                    },
                    None => {},
                }
            },
            None => {},
        }
    }

    /// Makes the drawable ready to be drawn: builds its resources for the
    /// given pipeline from the given bytes unless they are built, and sends
    /// new bytes of the transformation matrix.
    ///
    /// If the resources cannot be built, the drawable stays as it is.
    pub fn ensure_built(&mut self, actx: &mut AppContext, render_pipeline: Pipeline, mesh: MeshBytes)
        -> (result: Result<(), ResourceError>)
        ensures
            match old(self)@.data {
                Some(data) => result is Ok && (final(self)@, final(actx)@) == flushed(
                    old(self)@,
                    old(actx)@,
                ),
                None => match data_outcome(old(actx)@, render_pipeline, mesh@) {
                    (Ok(data), built) => result is Ok && (final(self)@, final(actx)@) == flushed(
                        TestDrawableView { data: Some(data), ..old(self)@ },
                        built,
                    ),
                    (Err(error), _) => result == Err::<(), ResourceError>(error) && final(self)@
                        == old(self)@ && final(actx)@ == old(actx)@,
                },
            },
    {
        if !self.is_built() {
            match Data::new(actx, render_pipeline, mesh) {
                Ok(data) => {
                    self.build(data);
                },
                Err(error) => {
                    return Err(error);
                },
            }
        }
        self.flush(actx);
        Ok(())
    }

    /// The command list that draws the mesh, if the resources are built.
    pub fn tasks(&self) -> (tasks: Option<Vec<DrawTask>>)
        ensures
            match self@.data {
                Some(data) => tasks matches Some(list) && list_view(list@) == mesh_list(data),
                None => tasks is None,
            },
    {
        match self.data {
            Some(data) => {
                let mut list: Vec<DrawTask> = Vec::new();
                list.push(DrawTask::SetPipeline(data.render_pipeline));
                list.push(
                    DrawTask::SetBindGroup {
                        index: 0,
                        bind_group: data.uniform_bind_group,
                        offsets: Vec::new(),
                    },
                );
                list.push(
                    DrawTask::SetVertexBuffer {
                        slot: 0,
                        buffer: data.vertex_buffer,
                        offset: 0,
                        size: 0,
                    },
                );
                list.push(
                    DrawTask::SetIndexBuffer { buffer: data.index_buffer, offset: 0, size: 0 },
                );
                list.push(
                    DrawTask::DrawIndexed {
                        indices: 0..data.num_indices,
                        base_vertex: 0,
                        instances: 0..1,
                    },
                );
                assert(list_view(list@) =~= mesh_list(data));
                Some(list)
            },
            None => None,
        }
    }

    /// The command list of a mesh runs, and it issues exactly one draw: the
    /// indexed draw of all indices, with the pipeline of the mesh.
    pub proof fn lemma_mesh_list_runs(data: Data)
        ensures
            PassModel::empty().run(mesh_list(data)) matches Ok(pass) && pass.draws == seq![
                DrawCall {
                    pipeline: data.render_pipeline,
                    command: DrawCommand::DrawIndexed {
                        indices: Range { start: 0, end: data.num_indices },
                        base_vertex: 0,
                        instances: Range { start: 0, end: 1 },
                    },
                },
            ],
    {
        let list = mesh_list(data);
        let l4 = list.drop_last();
        let l3 = l4.drop_last();
        let l2 = l3.drop_last();
        let l1 = l2.drop_last();
        let l0 = l1.drop_last();
        assert(l0.len() == 0);
        let start = PassModel::empty();
        assert(start.run(l0) == Ok::<PassModel, int>(start));
        assert(start.run(l1) is Ok);
        assert(start.run(l2) is Ok);
        assert(start.run(l3) is Ok);
        assert(start.run(l4) is Ok);
        assert(start.run(l4)->Ok_0.pipeline == Some(data.render_pipeline));
        assert(start.run(l4)->Ok_0.draws =~= Seq::empty());
        assert(start.run(list) is Ok);
        assert(start.run(list)->Ok_0.draws =~= seq![
            DrawCall {
                pipeline: data.render_pipeline,
                command: DrawCommand::DrawIndexed {
                    indices: Range { start: 0, end: data.num_indices },
                    base_vertex: 0,
                    instances: Range { start: 0, end: 1 },
                },
            },
        ]);
    }
}

impl Drawable for TestDrawable {
    /// Draws the mesh. Fails if the resources have not been built.
    fn draw(&self, actx: &mut AppContext) -> (result: Result<Vec<DrawTask>, GameError>)
        ensures
            final(actx)@ == old(actx)@,
            match self@.data {
                Some(data) => result matches Ok(list) && list_view(list@) == mesh_list(data),
                None => result is Err,
            },
    {
        match self.tasks() {
            Some(list) => Ok(list),
            None => Err(GameError { message: "the resources of the mesh are not built".to_owned() }),
        }
    }
}

} // verus!
