use std::rc::Rc;
use yagl::graphics::{
    BackendCommand, BindGroup, Buffer, DrawTask, ExecError, Graphics, Pipeline, ResourceError,
};
use yagl::context::Image;
use yagl::{AppContext, Color, ControlFlow, Point, RenderContext, SpriteBatch, SpriteSheet};

fn context() -> AppContext {
    AppContext::new(Graphics::new(
        640,
        480,
        Point::from_bits(640.0f32.to_bits(), 480.0f32.to_bits()),
    ))
}

#[test]
fn new_context_asks_for_nothing() {
    let actx = context();
    assert_eq!(actx.control_flow(), ControlFlow::Continue);
    assert_eq!(ControlFlow::default(), ControlFlow::Continue);
    assert_eq!(actx.graphics().width(), 640);
    assert_eq!(actx.graphics().height(), 480);
}

#[test]
fn exit_sets_the_request() {
    let mut actx = context();
    actx.exit();
    assert_eq!(actx.control_flow(), ControlFlow::Exit);
    actx.exit();
    assert_eq!(actx.control_flow(), ControlFlow::Exit);
    assert_eq!(actx.graphics().pending(), 0);
}

#[test]
fn scale_is_read_and_set() {
    let mut actx = context();
    assert_eq!(actx.scale(), Point::from_bits(640.0f32.to_bits(), 480.0f32.to_bits()));
    let unit = Point::from_bits(1.0f32.to_bits(), 1.0f32.to_bits());
    actx.set_scale(unit);
    assert_eq!(actx.scale(), unit);
    assert_eq!(actx.graphics().pending(), 1);
}

fn picture() -> Image {
    Image {
        width: 2,
        height: 2,
        pixels: vec![255, 0, 0, 255, 0, 255, 0, 128, 0, 0, 255, 64, 10, 20, 30, 40],
    }
}

#[test]
fn sheet_from_bytes_takes_the_decoded_picture() {
    let mut window = yagl::Window::new(4, 4, Point::from_bits(0, 0));
    let sheet = window.context().new_sheet_from_bytes(Some(picture())).unwrap();
    assert_eq!(*sheet, SpriteSheet { bind_group: BindGroup { id: 0 } });
    let commands = window.take_commands();
    assert_eq!(commands.len(), 1);
    match &commands[0] {
        BackendCommand::CreateSheet { bind_group, width, height, pixels } => {
            assert_eq!(*bind_group, BindGroup { id: 0 });
            assert_eq!((*width, *height), (2, 2));
            assert_eq!(
                pixels,
                &vec![255, 0, 0, 255, 0, 255, 0, 128, 0, 0, 255, 64, 10, 20, 30, 40]
            );
        }
        other => panic!("unexpected command {:?}", other),
    }
}

#[test]
fn sheet_from_bytes_that_are_no_picture_fails() {
    let mut actx = context();
    assert_eq!(actx.new_sheet_from_bytes(None), Err(ResourceError::InvalidImage));
    assert_eq!(actx.graphics().pending(), 0);
    assert!(actx.new_sheet_from_bytes(Some(picture())).is_ok());
    assert_eq!(actx.graphics().pending(), 1);
}

#[test]
fn sheet_from_a_picture_with_too_few_pixels_fails() {
    let mut actx = context();
    let short = Image { width: 2, height: 2, pixels: vec![0; 15] };
    assert_eq!(actx.new_sheet_from_bytes(Some(short)), Err(ResourceError::InvalidDimensions));
    assert_eq!(actx.graphics().pending(), 0);
}

#[test]
fn sheet_from_colors_needs_a_color_for_every_pixel() {
    let red = Color { r: 255, g: 0, b: 0, a: 255 };
    let mut actx = context();
    assert_eq!(
        actx.new_sheet_from_colors(2, 2, vec![red, red, red]),
        Err(ResourceError::InvalidDimensions)
    );
    assert_eq!(
        actx.new_sheet_from_colors(2, 2, vec![red, red, red, red, red]),
        Err(ResourceError::InvalidDimensions)
    );
    assert_eq!(actx.new_sheet_from_colors(0, 7, vec![red]), Err(ResourceError::InvalidDimensions));
    assert_eq!(actx.graphics().pending(), 0);
    let sheet = actx.new_sheet_from_colors(2, 2, vec![red, red, red, red]).unwrap();
    assert_eq!(sheet.bind_group, BindGroup { id: 0 });
    let empty = actx.new_sheet_from_colors(0, 7, Vec::new()).unwrap();
    assert_eq!(empty.bind_group, BindGroup { id: 1 });
}

#[test]
fn sheet_from_rgba_bytes_needs_four_bytes_for_every_pixel() {
    let mut actx = context();
    assert_eq!(
        actx.new_sheet_from_rgba_bytes(2, 1, vec![0; 7]),
        Err(ResourceError::InvalidDimensions)
    );
    assert_eq!(
        actx.new_sheet_from_rgba_bytes(u32::MAX, u32::MAX, vec![0; 16]),
        Err(ResourceError::InvalidDimensions)
    );
    assert_eq!(actx.graphics().pending(), 0);
    assert!(actx.new_sheet_from_rgba_bytes(2, 1, vec![0; 8]).is_ok());
    assert!(actx.new_sheet_from_rgba_bytes(2, 1, vec![0; 9]).is_ok());
    assert!(actx.new_sheet_from_rgba_bytes(0, 0, Vec::new()).is_ok());
    assert_eq!(actx.graphics().pending(), 3);
}

#[test]
fn sheet_from_color_is_one_pixel() {
    let mut window = yagl::Window::new(4, 4, Point::from_bits(0, 0));
    let sheet = window
        .context()
        .new_sheet_from_color(Color { r: 1, g: 2, b: 3, a: 4 })
        .unwrap();
    assert_eq!(sheet.bind_group, BindGroup { id: 0 });
    let commands = window.take_commands();
    assert_eq!(commands.len(), 1);
    match &commands[0] {
        BackendCommand::CreateSheet { bind_group, width, height, pixels } => {
            assert_eq!(*bind_group, BindGroup { id: 0 });
            assert_eq!((*width, *height), (1, 1));
            assert_eq!(pixels, &vec![1, 2, 3, 4]);
        }
        other => panic!("unexpected command {:?}", other),
    }
}

#[test]
fn colors_become_pixels_row_after_row() {
    let mut window = yagl::Window::new(4, 4, Point::from_bits(0, 0));
    let colors = vec![
        Color { r: 1, g: 2, b: 3, a: 4 },
        Color { r: 5, g: 6, b: 7, a: 8 },
        Color { r: 9, g: 10, b: 11, a: 12 },
        Color { r: 13, g: 14, b: 15, a: 16 },
        Color { r: 17, g: 18, b: 19, a: 20 },
        Color { r: 21, g: 22, b: 23, a: 24 },
    ];
    window.context().new_sheet_from_colors(3, 2, colors).unwrap();
    let commands = window.take_commands();
    match &commands[0] {
        BackendCommand::CreateSheet { width, height, pixels, .. } => {
            assert_eq!((*width, *height), (3, 2));
            let expected: Vec<u8> = (1..=24).collect();
            assert_eq!(pixels, &expected);
        }
        other => panic!("unexpected command {:?}", other),
    }
}

#[test]
fn new_batch_binds_its_sheet() {
    let mut actx = context();
    let sheet = Rc::new(SpriteSheet { bind_group: BindGroup { id: 77 } });
    let batch = actx.new_batch(sheet).unwrap();
    assert_eq!(**batch.sheet(), SpriteSheet { bind_group: BindGroup { id: 77 } });
    assert_eq!(batch.tasks().len(), 1);
    assert!(batch.added().is_empty());
    match &batch.tasks()[0] {
        DrawTask::SetBindGroup { index, bind_group, offsets } => {
            assert_eq!(*index, 0);
            assert_eq!(*bind_group, BindGroup { id: 77 });
            assert!(offsets.is_empty());
        }
        other => panic!("unexpected task {:?}", other),
    }
    assert_eq!(actx.graphics().pending(), 0);
}

#[test]
fn new_batch_from_color_makes_the_sheet_first() {
    let mut actx = context();
    let batch = actx.new_batch_from_color(Color { r: 255, g: 255, b: 255, a: 255 }).unwrap();
    assert_eq!(batch.sheet().bind_group, BindGroup { id: 0 });
    assert_eq!(actx.graphics().pending(), 1);
    let next = actx.new_batch_from_color(Color { r: 0, g: 0, b: 0, a: 255 }).unwrap();
    assert_eq!(next.sheet().bind_group, BindGroup { id: 1 });
}

#[test]
fn batch_keeps_the_order_of_its_tasks() {
    let mut batch = SpriteBatch::new(Rc::new(SpriteSheet { bind_group: BindGroup { id: 1 } }));
    batch.add(DrawTask::SetPipeline(Pipeline { id: 2 }));
    batch.add(DrawTask::Draw { vertices: 0..6, instances: 0..4 });
    assert_eq!(batch.tasks().len(), 3);
    assert_eq!(batch.added().len(), 2);
    assert!(matches!(batch.binding(), DrawTask::SetBindGroup { index: 0, .. }));
    assert!(matches!(batch.tasks()[0], DrawTask::SetBindGroup { .. }));
    assert!(matches!(batch.tasks()[1], DrawTask::SetPipeline(Pipeline { id: 2 })));
    assert!(matches!(batch.tasks()[2], DrawTask::Draw { .. }));
}

fn sprite_batch(sheet: u64, pipeline: Option<u64>, instances: u32) -> SpriteBatch {
    let mut batch = SpriteBatch::new(Rc::new(SpriteSheet { bind_group: BindGroup { id: sheet } }));
    if let Some(id) = pipeline {
        batch.add(DrawTask::SetPipeline(Pipeline { id }));
    }
    batch.add(DrawTask::SetVertexBuffer {
        slot: 0,
        buffer: Buffer { id: 100 + sheet },
        offset: 0,
        size: 0,
    });
    batch.add(DrawTask::Draw { vertices: 0..6, instances: 0..instances });
    batch
}

#[test]
fn render_presents_the_batches_in_order() {
    let mut rctx = RenderContext::new(context());
    let first = sprite_batch(1, Some(9), 2);
    let second = sprite_batch(2, None, 5);
    assert_eq!(rctx.render(&[&first, &second]), Ok(()));
    assert_eq!(rctx.peek().graphics().frames(), 1);
    assert_eq!(rctx.peek().graphics().pending(), 1);
    // The second batch draws with the pipeline that the first one bound.
    assert_eq!(rctx.render(&[&second, &first]), Err(ExecError::NoPipeline { index: 2 }));
    assert_eq!(rctx.peek().graphics().frames(), 1);
    assert_eq!(rctx.peek().graphics().pending(), 1);
}

#[test]
fn render_of_no_batches_presents_a_cleared_frame() {
    let mut rctx = RenderContext::new(context());
    assert_eq!(rctx.render(&[]), Ok(()));
    assert_eq!(rctx.peek().graphics().frames(), 1);
}

#[test]
fn every_render_presents_a_frame_of_its_own() {
    let mut rctx = RenderContext::new(context());
    let batch = sprite_batch(1, Some(9), 1);
    rctx.render(&[&batch]).unwrap();
    rctx.render(&[&batch]).unwrap();
    assert_eq!(rctx.peek().graphics().frames(), 2);
    assert_eq!(rctx.peek().graphics().pending(), 2);
}

#[test]
fn render_context_gives_the_app_context() {
    let mut rctx = RenderContext::new(context());
    rctx.actx().exit();
    assert_eq!(rctx.peek().control_flow(), ControlFlow::Exit);
    assert!(rctx.actx().new_sheet_from_bytes(Some(picture())).is_ok());
    assert_eq!(rctx.peek().graphics().pending(), 1);
}

#[test]
fn draw_presents_a_command_list_as_it_stands() {
    let mut rctx = RenderContext::new(context());
    let tasks = vec![
        DrawTask::SetPipeline(Pipeline { id: 3 }),
        DrawTask::Draw { vertices: 0..3, instances: 0..1 },
    ];
    assert_eq!(rctx.draw(tasks), Ok(()));
    assert_eq!(rctx.peek().graphics().frames(), 1);
    assert_eq!(
        rctx.draw(vec![DrawTask::Draw { vertices: 0..3, instances: 0..1 }]),
        Err(ExecError::NoPipeline { index: 0 })
    );
    assert_eq!(rctx.peek().graphics().frames(), 1);
    assert_eq!(rctx.peek().graphics().pending(), 1);
}

#[test]
fn context_makes_buffers_and_groups() {
    let mut window = yagl::Window::new(4, 4, Point::from_bits(0, 0));
    let actx = window.context();
    let buffer = actx.new_buffer(yagl::graphics::graphics::BufferUsage::Vertex, vec![7; 24]).unwrap();
    let group = actx.new_bind_group(buffer, 24).unwrap();
    assert_eq!(buffer, Buffer { id: 0 });
    assert_eq!(group, BindGroup { id: 1 });
    assert_eq!(window.take_commands().len(), 2);
}

fn spent_context() -> AppContext {
    AppContext::new(Graphics::numbered_from(1, 1, Point::from_bits(0, 0), u64::MAX))
}

#[test]
fn nothing_is_created_without_a_handle() {
    let mut actx = spent_context();
    let white = Color { r: 255, g: 255, b: 255, a: 255 };
    assert_eq!(actx.new_sheet_from_color(white), Err(ResourceError::OutOfHandles));
    assert_eq!(actx.new_sheet_from_colors(1, 1, vec![white]), Err(ResourceError::OutOfHandles));
    assert_eq!(
        actx.new_sheet_from_rgba_bytes(1, 1, vec![0; 4]),
        Err(ResourceError::OutOfHandles)
    );
    assert_eq!(actx.new_sheet_from_bytes(Some(picture())), Err(ResourceError::OutOfHandles));
    assert!(matches!(actx.new_batch_from_color(white), Err(ResourceError::OutOfHandles)));
    assert_eq!(
        actx.new_buffer(yagl::graphics::BufferUsage::Vertex, vec![1]),
        Err(ResourceError::OutOfHandles)
    );
    assert_eq!(actx.new_bind_group(Buffer { id: 1 }, 1), Err(ResourceError::OutOfHandles));
    // Wrong dimensions are found before the handles are asked for.
    assert_eq!(
        actx.new_sheet_from_rgba_bytes(2, 2, vec![0; 4]),
        Err(ResourceError::InvalidDimensions)
    );
    assert_eq!(actx.graphics().pending(), 0);
}
