use yagl::graphics::drawable::execute;
use yagl::graphics::graphics::BufferUsage;
use yagl::graphics::td::{Data, MeshBytes};
use yagl::graphics::{
    BackendCommand, BindGroup, Buffer, DrawCommand, DrawTask, Pipeline,
};
use yagl::{Drawable, Point, TestDrawable, Window};

fn data() -> Data {
    Data {
        render_pipeline: Pipeline { id: 1 },
        num_vertices: 5,
        vertex_buffer: Buffer { id: 2 },
        num_indices: 9,
        index_buffer: Buffer { id: 3 },
        uniform_buffer: Buffer { id: 4 },
        uniform_bind_group: BindGroup { id: 5 },
    }
}

#[test]
fn a_mesh_is_not_drawn_before_it_is_built() {
    let mut window = Window::new(1, 1, Point::origin());
    let mesh = TestDrawable::new();
    assert!(!mesh.is_built());
    assert!(mesh.tasks().is_none());
    assert!(mesh.draw(window.context()).is_err());
}

#[test]
fn a_mesh_draws_all_its_indices_once() {
    let mut window = Window::new(1, 1, Point::origin());
    let mut mesh = TestDrawable::new();
    mesh.build(data());
    assert!(mesh.is_built());
    let tasks = mesh.draw(window.context()).unwrap();
    assert_eq!(tasks.len(), 5);
    assert!(matches!(tasks[0], DrawTask::SetPipeline(Pipeline { id: 1 })));
    assert!(matches!(
        tasks[1],
        DrawTask::SetBindGroup { index: 0, bind_group: BindGroup { id: 5 }, .. }
    ));
    assert!(matches!(
        tasks[2],
        DrawTask::SetVertexBuffer { slot: 0, buffer: Buffer { id: 2 }, offset: 0, size: 0 }
    ));
    assert!(matches!(
        tasks[3],
        DrawTask::SetIndexBuffer { buffer: Buffer { id: 3 }, offset: 0, size: 0 }
    ));
    let pass = execute(&tasks).unwrap();
    assert_eq!(pass.draws().len(), 1);
    assert_eq!(pass.draws()[0].pipeline, Pipeline { id: 1 });
    assert_eq!(
        pass.draws()[0].command,
        DrawCommand::DrawIndexed { indices: 0..9, base_vertex: 0, instances: 0..1 }
    );
    assert_eq!(window.take_commands().len(), 0);
}

#[test]
fn new_uniforms_are_written_once() {
    let mut window = Window::new(1, 1, Point::origin());
    let mut mesh = TestDrawable::new();
    mesh.set_uniforms(vec![1, 2, 3, 4]);
    mesh.flush(window.context());
    assert_eq!(window.take_commands().len(), 0);
    mesh.build(data());
    mesh.set_uniforms(vec![5, 6, 7, 8]);
    mesh.flush(window.context());
    mesh.flush(window.context());
    let commands = window.take_commands();
    assert_eq!(commands.len(), 1);
    match &commands[0] {
        BackendCommand::WriteBuffer { buffer, offset, data } => {
            assert_eq!(*buffer, Buffer { id: 4 });
            assert_eq!(*offset, 0);
            assert_eq!(data, &vec![5, 6, 7, 8]);
        }
        other => panic!("unexpected command {:?}", other),
    }
}

fn mesh() -> MeshBytes {
    MeshBytes {
        vertices: vec![1; 120],
        num_vertices: 5,
        indices: vec![2; 18],
        num_indices: 9,
        uniforms: vec![3; 64],
    }
}

#[test]
fn the_resources_of_a_mesh_are_built_in_order() {
    let mut window = Window::new(1, 1, Point::origin());
    window.context().new_sheet_from_rgba_bytes(0, 0, Vec::new()).unwrap();
    let data = Data::new(window.context(), Pipeline { id: 40 }, mesh()).unwrap();
    assert_eq!(
        data,
        Data {
            render_pipeline: Pipeline { id: 40 },
            num_vertices: 5,
            vertex_buffer: Buffer { id: 1 },
            num_indices: 9,
            index_buffer: Buffer { id: 2 },
            uniform_buffer: Buffer { id: 3 },
            uniform_bind_group: BindGroup { id: 4 },
        }
    );
    let commands = window.take_commands();
    assert_eq!(commands.len(), 5);
    match &commands[1] {
        BackendCommand::CreateBuffer { buffer, usage, data } => {
            assert_eq!((*buffer, *usage), (Buffer { id: 1 }, BufferUsage::Vertex));
            assert_eq!(data, &vec![1; 120]);
        }
        other => panic!("unexpected command {:?}", other),
    }
    match &commands[2] {
        BackendCommand::CreateBuffer { buffer, usage, data } => {
            assert_eq!((*buffer, *usage), (Buffer { id: 2 }, BufferUsage::Index));
            assert_eq!(data, &vec![2; 18]);
        }
        other => panic!("unexpected command {:?}", other),
    }
    match &commands[3] {
        BackendCommand::CreateBuffer { buffer, usage, data } => {
            assert_eq!((*buffer, *usage), (Buffer { id: 3 }, BufferUsage::Uniform));
            assert_eq!(data, &vec![3; 64]);
        }
        other => panic!("unexpected command {:?}", other),
    }
    match &commands[4] {
        BackendCommand::CreateBindGroup { bind_group, buffer, size } => {
            assert_eq!(*bind_group, BindGroup { id: 4 });
            assert_eq!(*buffer, Buffer { id: 3 });
            assert_eq!(*size, 64);
        }
        other => panic!("unexpected command {:?}", other),
    }
}

#[test]
fn ensure_built_builds_once_and_sends_new_uniforms() {
    let mut window = Window::new(1, 1, Point::origin());
    let mut drawable = TestDrawable::new();
    drawable.set_uniforms(vec![9; 64]);
    drawable.ensure_built(window.context(), Pipeline { id: 1 }, mesh()).unwrap();
    assert!(drawable.is_built());
    let commands = window.take_commands();
    assert_eq!(commands.len(), 5);
    match &commands[4] {
        BackendCommand::WriteBuffer { buffer, offset, data } => {
            assert_eq!(*buffer, Buffer { id: 2 });
            assert_eq!(*offset, 0);
            assert_eq!(data, &vec![9; 64]);
        }
        other => panic!("unexpected command {:?}", other),
    }
    drawable.ensure_built(window.context(), Pipeline { id: 1 }, mesh()).unwrap();
    assert_eq!(window.take_commands().len(), 0);
    let tasks = drawable.draw(window.context()).unwrap();
    assert!(matches!(
        tasks[4],
        DrawTask::DrawIndexed { base_vertex: 0, .. }
    ));
    assert!(matches!(tasks[0], DrawTask::SetPipeline(Pipeline { id: 1 })));
}

#[test]
fn a_mesh_needs_four_handles() {
    let graphics = yagl::Graphics::numbered_from(1, 1, Point::origin(), u64::MAX - 3);
    let mut actx = yagl::AppContext::new(graphics);
    assert_eq!(
        Data::new(&mut actx, Pipeline { id: 0 }, mesh()),
        Err(yagl::graphics::ResourceError::OutOfHandles)
    );
    assert_eq!(actx.graphics().pending(), 0);
    let mut drawable = TestDrawable::new();
    assert!(drawable.ensure_built(&mut actx, Pipeline { id: 0 }, mesh()).is_err());
    assert!(!drawable.is_built());
    let graphics = yagl::Graphics::numbered_from(1, 1, Point::origin(), u64::MAX - 4);
    let mut actx = yagl::AppContext::new(graphics);
    let data = Data::new(&mut actx, Pipeline { id: 0 }, mesh()).unwrap();
    assert_eq!(data.uniform_bind_group, BindGroup { id: u64::MAX - 1 });
    assert_eq!(actx.graphics().handles_left(), 0);
}
