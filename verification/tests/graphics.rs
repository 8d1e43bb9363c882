use yagl::graphics::{
    BackendCommand, BindGroup, Buffer, DrawTask, ExecError, Graphics, Pipeline, S2D,
};
use yagl::graphics::graphics::BufferUsage;
use yagl::graphics::ResourceError;
use yagl::Point;

fn bounds(width: f32, height: f32) -> Point {
    Point::from_bits(width.to_bits(), height.to_bits())
}

#[test]
fn surface_has_the_size_it_was_made_with() {
    let surface = S2D::new(640, 480);
    assert_eq!(surface.width(), 640);
    assert_eq!(surface.height(), 480);
}

#[test]
fn resize_replaces_width_and_height() {
    let mut surface = S2D::new(640, 480);
    surface.resize(800, 600);
    assert_eq!(surface.width(), 800);
    assert_eq!(surface.height(), 600);
    surface.resize(0, 0);
    assert_eq!((surface.width(), surface.height()), (0, 0));
}

#[test]
fn resizing_twice_is_resizing_once() {
    let mut once = S2D::new(640, 480);
    once.resize(1024, 768);
    let mut twice = S2D::new(640, 480);
    twice.resize(1024, 768);
    twice.resize(1024, 768);
    assert_eq!(once, twice);
}

#[test]
fn new_adapter_is_idle() {
    let graphics = Graphics::new(320, 200, bounds(320.0, 200.0));
    assert_eq!(graphics.width(), 320);
    assert_eq!(graphics.height(), 200);
    assert_eq!(graphics.scale(), bounds(320.0, 200.0));
    assert_eq!(graphics.frames(), 0);
    assert_eq!(graphics.pending(), 0);
}

#[test]
fn adapter_resize_tells_the_gpu() {
    let mut graphics = Graphics::new(320, 200, bounds(320.0, 200.0));
    graphics.resize(640, 400);
    assert_eq!((graphics.width(), graphics.height()), (640, 400));
    let commands = graphics.take_commands();
    assert_eq!(commands.len(), 1);
    match &commands[0] {
        BackendCommand::Resize { width, height } => assert_eq!((*width, *height), (640, 400)),
        other => panic!("unexpected command {:?}", other),
    }
    assert_eq!(graphics.pending(), 0);
    assert_eq!((graphics.width(), graphics.height()), (640, 400));
}

#[test]
fn adapter_resized_twice_has_the_size_of_once() {
    let mut once = Graphics::new(320, 200, bounds(320.0, 200.0));
    once.resize(640, 400);
    let mut twice = Graphics::new(320, 200, bounds(320.0, 200.0));
    twice.resize(640, 400);
    twice.resize(640, 400);
    once.take_commands();
    twice.take_commands();
    assert_eq!((once.width(), once.height()), (twice.width(), twice.height()));
    assert_eq!(once.scale(), twice.scale());
    assert_eq!(once.frames(), twice.frames());
    assert_eq!(once.pending(), twice.pending());
}

#[test]
fn set_scale_tells_the_gpu() {
    let mut graphics = Graphics::new(320, 200, bounds(1.0, 1.0));
    graphics.set_scale(bounds(16.0, 9.0));
    assert_eq!(graphics.scale(), bounds(16.0, 9.0));
    let commands = graphics.take_commands();
    assert_eq!(commands.len(), 1);
    match &commands[0] {
        BackendCommand::SetScale { scale } => assert_eq!(*scale, bounds(16.0, 9.0)),
        other => panic!("unexpected command {:?}", other),
    }
}

#[test]
fn render_presents_one_frame_with_the_list_in_order() {
    let mut graphics = Graphics::new(320, 200, bounds(320.0, 200.0));
    let tasks = vec![
        DrawTask::SetPipeline(Pipeline { id: 1 }),
        DrawTask::SetVertexBuffer { slot: 0, buffer: Buffer { id: 2 }, offset: 0, size: 0 },
        DrawTask::Draw { vertices: 0..3, instances: 0..1 },
    ];
    assert_eq!(graphics.render(tasks), Ok(()));
    assert_eq!(graphics.frames(), 1);
    let commands = graphics.take_commands();
    assert_eq!(commands.len(), 1);
    match &commands[0] {
        BackendCommand::Present { tasks } => {
            assert_eq!(tasks.len(), 3);
            assert!(matches!(tasks[0], DrawTask::SetPipeline(Pipeline { id: 1 })));
            assert!(matches!(
                tasks[1],
                DrawTask::SetVertexBuffer { slot: 0, buffer: Buffer { id: 2 }, offset: 0, size: 0 }
            ));
            match &tasks[2] {
                DrawTask::Draw { vertices, instances } => {
                    assert_eq!(vertices.clone(), 0..3);
                    assert_eq!(instances.clone(), 0..1);
                }
                other => panic!("unexpected task {:?}", other),
            }
        }
        other => panic!("unexpected command {:?}", other),
    }
}

#[test]
fn render_of_an_empty_list_presents_a_cleared_frame() {
    let mut graphics = Graphics::new(320, 200, bounds(320.0, 200.0));
    assert_eq!(graphics.render(Vec::new()), Ok(()));
    assert_eq!(graphics.frames(), 1);
    assert_eq!(graphics.pending(), 1);
}

#[test]
fn render_fails_on_a_draw_without_pipeline() {
    let mut graphics = Graphics::new(320, 200, bounds(320.0, 200.0));
    let tasks = vec![
        DrawTask::SetIndexBuffer { buffer: Buffer { id: 2 }, offset: 0, size: 0 },
        DrawTask::DrawIndexed { indices: 0..3, base_vertex: 0, instances: 0..1 },
    ];
    assert_eq!(graphics.render(tasks), Err(ExecError::NoPipeline { index: 1 }));
    assert_eq!(graphics.frames(), 0);
    assert_eq!(graphics.pending(), 0);
}

#[test]
fn commands_are_handed_out_in_the_order_of_issue() {
    let mut graphics = Graphics::new(320, 200, bounds(320.0, 200.0));
    graphics.resize(10, 20);
    graphics.write_buffer(Buffer { id: 5 }, 16, vec![1, 2, 3]);
    graphics.render(Vec::new()).unwrap();
    graphics.set_scale(bounds(2.0, 3.0));
    let sheet = graphics.create_sheet(1, 1, vec![9, 9, 9, 9]).unwrap();
    assert_eq!(sheet, BindGroup { id: 0 });
    let commands = graphics.take_commands();
    assert_eq!(commands.len(), 5);
    assert!(matches!(commands[0], BackendCommand::Resize { width: 10, height: 20 }));
    match &commands[1] {
        BackendCommand::WriteBuffer { buffer, offset, data } => {
            assert_eq!(*buffer, Buffer { id: 5 });
            assert_eq!(*offset, 16);
            assert_eq!(data, &vec![1, 2, 3]);
        }
        other => panic!("unexpected command {:?}", other),
    }
    assert!(matches!(commands[2], BackendCommand::Present { .. }));
    assert!(matches!(commands[3], BackendCommand::SetScale { .. }));
    match &commands[4] {
        BackendCommand::CreateSheet { bind_group, width, height, pixels } => {
            assert_eq!(*bind_group, BindGroup { id: 0 });
            assert_eq!((*width, *height), (1, 1));
            assert_eq!(pixels, &vec![9, 9, 9, 9]);
        }
        other => panic!("unexpected command {:?}", other),
    }
    assert!(graphics.take_commands().is_empty());
}

#[test]
fn sheets_get_handles_in_sequence() {
    let mut graphics = Graphics::new(1, 1, bounds(1.0, 1.0));
    let first = graphics.create_sheet(1, 1, vec![1, 1, 1, 1]).unwrap();
    let second = graphics.create_sheet(1, 1, vec![0, 0, 0, 255]).unwrap();
    assert_eq!(first, BindGroup { id: 0 });
    assert_eq!(second, BindGroup { id: 1 });
    assert_ne!(ResourceError::OutOfHandles, ResourceError::InvalidImage);
}

#[test]
fn buffers_and_groups_share_the_sequence_of_handles() {
    let mut graphics = Graphics::new(1, 1, bounds(1.0, 1.0));
    assert_eq!(graphics.handles_left(), u64::MAX);
    let sheet = graphics.create_sheet(1, 1, vec![0, 0, 0, 0]).unwrap();
    let buffer = graphics.create_buffer(BufferUsage::Uniform, vec![1, 2, 3, 4]).unwrap();
    let group = graphics.create_bind_group(buffer, 4).unwrap();
    assert_eq!(sheet, BindGroup { id: 0 });
    assert_eq!(buffer, Buffer { id: 1 });
    assert_eq!(group, BindGroup { id: 2 });
    assert_eq!(graphics.handles_left(), u64::MAX - 3);
    let commands = graphics.take_commands();
    assert_eq!(commands.len(), 3);
    match &commands[1] {
        BackendCommand::CreateBuffer { buffer, usage, data } => {
            assert_eq!(*buffer, Buffer { id: 1 });
            assert_eq!(*usage, BufferUsage::Uniform);
            assert_eq!(data, &vec![1, 2, 3, 4]);
        }
        other => panic!("unexpected command {:?}", other),
    }
    match &commands[2] {
        BackendCommand::CreateBindGroup { bind_group, buffer, size } => {
            assert_eq!(*bind_group, BindGroup { id: 2 });
            assert_eq!(*buffer, Buffer { id: 1 });
            assert_eq!(*size, 4);
        }
        other => panic!("unexpected command {:?}", other),
    }
}

#[test]
fn the_last_handle_is_given_out_once() {
    let mut graphics = Graphics::numbered_from(1, 1, bounds(1.0, 1.0), u64::MAX - 1);
    assert_eq!(graphics.handles_left(), 1);
    assert_eq!(graphics.create_buffer(BufferUsage::Index, vec![1]), Ok(Buffer { id: u64::MAX - 1 }));
    assert_eq!(graphics.handles_left(), 0);
    assert_eq!(graphics.create_buffer(BufferUsage::Index, vec![1]), Err(ResourceError::OutOfHandles));
    assert_eq!(graphics.create_sheet(1, 1, vec![0; 4]), Err(ResourceError::OutOfHandles));
    assert_eq!(
        graphics.create_bind_group(Buffer { id: 0 }, 4),
        Err(ResourceError::OutOfHandles)
    );
    assert_eq!(graphics.pending(), 1);
}
