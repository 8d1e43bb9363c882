use vstd::prelude::*;
use crate::context::{AppContext, AppContextView};
use crate::graphics::graphics::{BackendCommandView, Graphics, GraphicsView, GroupKind};
use crate::graphics::vertex::{
    colored_vertex, packed_layout, vertex_buffer_descriptor, VertexBufferDescriptor,
    VertexBufferDescriptorView,
};
use crate::graphics::handle::Pipeline;

verus! {

/// The first word of every SPIR-V module.
pub const SPIRV_MAGIC: u32 = 0x0723_0203;

/// The word that the four bytes from `4 * i` on spell with the lowest byte
/// first.
pub open spec fn word_le(bytes: Seq<u8>, i: int) -> u32 {
    (bytes[4 * i] as int + bytes[4 * i + 1] as int * 0x100 + bytes[4 * i + 2] as int * 0x1_0000
        + bytes[4 * i + 3] as int * 0x100_0000) as u32
}

/// The word that the four bytes from `4 * i` on spell with the highest byte
/// first.
pub open spec fn word_be(bytes: Seq<u8>, i: int) -> u32 {
    (bytes[4 * i + 3] as int + bytes[4 * i + 2] as int * 0x100 + bytes[4 * i + 1] as int * 0x1_0000
        + bytes[4 * i] as int * 0x100_0000) as u32
}

/// The words of a SPIR-V module, read from its bytes.
///
/// The bytes make whole words, at least one, and the first word is the
/// magic number in one of the two byte orders. All words are then read in
/// that byte order. Bytes that do not begin so are no module.
pub open spec fn spirv_words(bytes: Seq<u8>) -> Option<Seq<u32>> {
    if bytes.len() == 0 || bytes.len() % 4 != 0 {
        None
    } else if word_le(bytes, 0) == SPIRV_MAGIC {
        Some(Seq::new((bytes.len() / 4) as nat, |i: int| word_le(bytes, i)))
    } else if word_be(bytes, 0) == SPIRV_MAGIC {
        Some(Seq::new((bytes.len() / 4) as nat, |i: int| word_be(bytes, i)))
    } else {
        None
    }
}

/// Reads the words of a SPIR-V module with `wgpu::read_spirv`.
///
/// That function refuses an input whose length is no multiple of four. It
/// reads the rest as words in the byte order of the machine, swaps the
/// bytes of every word if the first word is the magic number with its bytes
/// swapped, and then refuses what does not begin with the magic number. So
/// what it gives is `spirv_words` of the bytes, on a machine of either byte
/// order, and it gives nothing where that is `None`.
#[verifier::external_body]
fn read_spirv(bytes: &[u8]) -> (words: Option<Vec<u32>>)
    ensures
        match spirv_words(bytes@) {
            Some(module) => words matches Some(read) && read@ == module,
            None => words is None,
        },
{
    wgpu::read_spirv(std::io::Cursor::new(bytes)).ok()
}

/// Why a pipeline could not be set up.
#[derive(Debug, Clone, Copy, PartialEq, Eq, Structural)]
pub enum PipelineError {
    /// The bytes of the vertex shader are no SPIR-V module.
    VertexShader,
    /// The bytes of the fragment shader are no SPIR-V module.
    FragmentShader,
    /// Every handle has been given out.
    OutOfHandles,
}

/// What setting up a pipeline gives, by the two shaders and the state of
/// the adapter: the pipeline with the next handle and the adapter that has
/// been told to build it, or the first thing that is wrong and the adapter
/// as it was.
pub open spec fn pipeline_setup(
    before: GraphicsView,
    vertex: Seq<u8>,
    fragment: Seq<u8>,
    bind_groups: Seq<GroupKind>,
    vertex_buffer: VertexBufferDescriptorView,
) -> (Result<Pipeline, PipelineError>, GraphicsView) {
    match (spirv_words(vertex), spirv_words(fragment)) {
        (None, _) => (Err(PipelineError::VertexShader), before),
        (Some(_), None) => (Err(PipelineError::FragmentShader), before),
        (Some(vertex_shader), Some(fragment_shader)) => if before.has_handle() {
            (
                Ok(Pipeline { id: before.next_handle() }),
                before.create(
                    BackendCommandView::CreatePipeline {
                        pipeline: Pipeline { id: before.next_handle() },
                        vertex_shader,
                        fragment_shader,
                        bind_groups,
                        vertex_buffer,
                    },
                ),
            )
        } else {
            (Err(PipelineError::OutOfHandles), before)
        },
    }
}

/// Sets up a pipeline: reads the two shaders, which come as the bytes of
/// SPIR-V modules, and has the pipeline built from them, for groups of the
/// given kinds at the indices from 0 on and for vertices of the given
/// layout.
pub fn build_pipeline(
    graphics: &mut Graphics,
    vertex: &[u8],
    fragment: &[u8],
    bind_groups: Vec<GroupKind>,
    vertex_buffer: VertexBufferDescriptor,
) -> (result: Result<Pipeline, PipelineError>)
    ensures
        (result, final(graphics)@) == pipeline_setup(
            old(graphics)@,
            vertex@,
            fragment@,
            bind_groups@,
            vertex_buffer@,
        ),
{
    let vertex_shader = match read_spirv(vertex) {
        Some(words) => words,
        None => {
            return Err(PipelineError::VertexShader);
        },
    };
    let fragment_shader = match read_spirv(fragment) {
        Some(words) => words,
        None => {
            return Err(PipelineError::FragmentShader);
        },
    };
    match graphics.create_pipeline(vertex_shader, fragment_shader, bind_groups, vertex_buffer) {
        Ok(pipeline) => Ok(pipeline),
        Err(_) => Err(PipelineError::OutOfHandles),
    }
}

/// Global graphics stuff for drawing meshes.
#[derive(Debug, Clone, Copy, PartialEq, Eq, Structural)]
pub struct MeshStuff {
    pub render_pipeline: Pipeline,
}

/// What setting up the graphics for meshes gives: a pipeline for a single
/// uniform group, at index 0, and for vertices with a position and a color.
pub open spec fn mesh_setup(before: GraphicsView, vertex: Seq<u8>, fragment: Seq<u8>) -> (
    Result<MeshStuff, PipelineError>,
    GraphicsView,
) {
    let setup = pipeline_setup(
        before,
        vertex,
        fragment,
        seq![GroupKind::Uniform],
        packed_layout(colored_vertex()),
    );
    (
        match setup.0 {
            Ok(render_pipeline) => Ok(MeshStuff { render_pipeline }),
            Err(error) => Err(error),
        },
        setup.1,
    )
}

impl MeshStuff {
    /// Sets up the graphics for meshes from the two shaders.
    pub fn new(actx: &mut AppContext, vertex: &[u8], fragment: &[u8]) -> (result: Result<
        MeshStuff,
        PipelineError,
    >)
        ensures
            result == mesh_setup(old(actx)@.graphics, vertex@, fragment@).0,
            final(actx)@ == (AppContextView {
                graphics: mesh_setup(old(actx)@.graphics, vertex@, fragment@).1,
                ..old(actx)@
            }),
    {
        let mut bind_groups: Vec<GroupKind> = Vec::new();
        bind_groups.push(GroupKind::Uniform);
        assert(bind_groups@ =~= seq![GroupKind::Uniform]);
        let vertex_buffer = vertex_buffer_descriptor();
        match actx.new_pipeline(vertex, fragment, bind_groups, vertex_buffer) {
            Ok(render_pipeline) => Ok(MeshStuff { render_pipeline }),
            Err(error) => Err(error),
        }
    }
}

} // verus!
