use yagl::graphics::graphics::GroupKind;
use yagl::graphics::ms::build_pipeline;
use yagl::graphics::vertex::desc;
use yagl::graphics::{
    BackendCommand, Graphics, MeshStuff, Pipeline, PipelineError, VertexAttribute, VertexFormat,
};
use yagl::{Point, Window};

const LOW_FIRST: [u8; 12] = [0x03, 0x02, 0x23, 0x07, 0x00, 0x00, 0x01, 0x00, 0x0b, 0x00, 0x08, 0x00];
const HIGH_FIRST: [u8; 8] = [0x07, 0x23, 0x02, 0x03, 0x00, 0x01, 0x02, 0x04];

fn window() -> Window {
    Window::new(1, 1, Point::origin())
}

#[test]
fn shaders_are_read_in_their_byte_order() {
    let mut window = window();
    let stuff = MeshStuff::new(window.context(), &LOW_FIRST, &HIGH_FIRST).unwrap();
    assert_eq!(stuff.render_pipeline, Pipeline { id: 0 });
    let commands = window.take_commands();
    assert_eq!(commands.len(), 1);
    match &commands[0] {
        BackendCommand::CreatePipeline {
            pipeline,
            vertex_shader,
            fragment_shader,
            bind_groups,
            vertex_buffer,
        } => {
            assert_eq!(*pipeline, Pipeline { id: 0 });
            assert_eq!(vertex_shader, &vec![0x0723_0203, 0x0001_0000, 0x0008_000b]);
            assert_eq!(fragment_shader, &vec![0x0723_0203, 0x0001_0204]);
            assert_eq!(bind_groups, &vec![GroupKind::Uniform]);
            assert_eq!(vertex_buffer.stride, 24);
            assert_eq!(
                vertex_buffer.attributes,
                vec![
                    VertexAttribute { offset: 0, shader_location: 0, format: VertexFormat::Float3 },
                    VertexAttribute { offset: 12, shader_location: 1, format: VertexFormat::Float3 },
                ]
            );
        }
        other => panic!("unexpected command {:?}", other),
    }
}

#[test]
fn a_second_pipeline_gets_the_next_handle() {
    let mut window = window();
    let first = MeshStuff::new(window.context(), &LOW_FIRST, &LOW_FIRST).unwrap();
    let second = MeshStuff::new(window.context(), &HIGH_FIRST, &LOW_FIRST).unwrap();
    assert_eq!(first.render_pipeline, Pipeline { id: 0 });
    assert_eq!(second.render_pipeline, Pipeline { id: 1 });
    assert_eq!(window.graphics().pending(), 2);
}

#[test]
fn bytes_that_make_no_whole_words_are_no_shader() {
    let mut window = window();
    assert_eq!(
        MeshStuff::new(window.context(), &LOW_FIRST[..11], &LOW_FIRST),
        Err(PipelineError::VertexShader)
    );
    assert_eq!(
        MeshStuff::new(window.context(), &LOW_FIRST, &LOW_FIRST[..5]),
        Err(PipelineError::FragmentShader)
    );
    assert_eq!(window.graphics().pending(), 0);
}

#[test]
fn bytes_without_the_magic_number_are_no_shader() {
    let mut window = window();
    assert_eq!(MeshStuff::new(window.context(), &[], &LOW_FIRST), Err(PipelineError::VertexShader));
    assert_eq!(
        MeshStuff::new(window.context(), &[0x03, 0x02, 0x23, 0x08], &LOW_FIRST),
        Err(PipelineError::VertexShader)
    );
    assert_eq!(
        MeshStuff::new(window.context(), &LOW_FIRST, &[0x23, 0x07, 0x03, 0x02]),
        Err(PipelineError::FragmentShader)
    );
    // A wrong vertex shader is reported before a wrong fragment shader.
    assert_eq!(MeshStuff::new(window.context(), &[1], &[2]), Err(PipelineError::VertexShader));
    assert_eq!(window.graphics().pending(), 0);
}

#[test]
fn the_magic_number_alone_is_a_shader() {
    let mut window = window();
    assert!(MeshStuff::new(window.context(), &LOW_FIRST[..4], &HIGH_FIRST[..4]).is_ok());
    match &window.take_commands()[0] {
        BackendCommand::CreatePipeline { vertex_shader, fragment_shader, .. } => {
            assert_eq!(vertex_shader, &vec![0x0723_0203]);
            assert_eq!(fragment_shader, &vec![0x0723_0203]);
        }
        other => panic!("unexpected command {:?}", other),
    }
}

#[test]
fn a_pipeline_is_built_for_the_layout_given() {
    let mut graphics = Graphics::new(1, 1, Point::origin());
    let pipeline = build_pipeline(
        &mut graphics,
        &LOW_FIRST,
        &LOW_FIRST,
        vec![GroupKind::Texture, GroupKind::Uniform],
        desc(),
    )
    .unwrap();
    assert_eq!(pipeline, Pipeline { id: 0 });
    match &graphics.take_commands()[0] {
        BackendCommand::CreatePipeline { bind_groups, vertex_buffer, .. } => {
            assert_eq!(bind_groups, &vec![GroupKind::Texture, GroupKind::Uniform]);
            assert_eq!(vertex_buffer.stride, 20);
        }
        other => panic!("unexpected command {:?}", other),
    }
    let mut window = window();
    assert_eq!(
        window.context().new_pipeline(&[1, 2, 3], &LOW_FIRST, Vec::new(), desc()),
        Err(PipelineError::VertexShader)
    );
    window.context().write_buffer(yagl::graphics::Buffer { id: 3 }, 8, vec![1, 2]);
    assert_eq!(window.take_commands().len(), 1);
}

#[test]
fn no_pipeline_is_built_without_a_handle() {
    let mut graphics = Graphics::numbered_from(1, 1, Point::origin(), u64::MAX);
    assert_eq!(
        build_pipeline(&mut graphics, &LOW_FIRST, &LOW_FIRST, Vec::new(), desc()),
        Err(PipelineError::OutOfHandles)
    );
    // Wrong shaders are found before the handle is asked for.
    assert_eq!(
        build_pipeline(&mut graphics, &LOW_FIRST, &[0; 4], Vec::new(), desc()),
        Err(PipelineError::FragmentShader)
    );
    assert_eq!(graphics.pending(), 0);
    let mut actx = yagl::AppContext::new(graphics);
    assert_eq!(
        MeshStuff::new(&mut actx, &LOW_FIRST, &LOW_FIRST),
        Err(PipelineError::OutOfHandles)
    );
}
