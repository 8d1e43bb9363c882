use yagl::graphics::drawable::execute;
use yagl::graphics::{
    BindGroup, Buffer, BufferBinding, DrawCall, DrawCommand, DrawTask, ExecError, PassState,
    Pipeline,
};

fn pipeline(id: u64) -> Pipeline {
    Pipeline { id }
}

fn vertex_buffer(slot: u32, id: u64) -> DrawTask {
    DrawTask::SetVertexBuffer { slot, buffer: Buffer { id }, offset: 0, size: 0 }
}

fn draw(vertices: std::ops::Range<u32>, instances: std::ops::Range<u32>) -> DrawTask {
    DrawTask::Draw { vertices, instances }
}

#[test]
fn list_is_run_in_order() {
    let tasks = vec![DrawTask::SetPipeline(pipeline(1)), vertex_buffer(0, 2), draw(0..3, 0..1)];
    let pass = execute(&tasks).unwrap();
    assert_eq!(pass.pipeline(), Some(pipeline(1)));
    assert_eq!(
        pass.vertex_buffer(0),
        Some(BufferBinding { buffer: Buffer { id: 2 }, offset: 0, size: 0 })
    );
    assert_eq!(
        pass.draws(),
        &vec![DrawCall {
            pipeline: pipeline(1),
            command: DrawCommand::Draw { vertices: 0..3, instances: 0..1 },
        }]
    );
}

#[test]
fn empty_list_leaves_a_fresh_pass() {
    let pass = execute(&Vec::new()).unwrap();
    assert_eq!(pass.pipeline(), None);
    assert_eq!(pass.index_buffer(), None);
    assert_eq!(pass.vertex_buffer(0), None);
    assert_eq!(pass.bind_group(0), None);
    assert!(pass.draws().is_empty());
}

#[test]
fn draw_without_pipeline_fails() {
    let tasks = vec![vertex_buffer(0, 2), draw(0..3, 0..1), DrawTask::SetPipeline(pipeline(1))];
    match execute(&tasks) {
        Err(error) => assert_eq!(error, ExecError::NoPipeline { index: 1 }),
        Ok(_) => panic!("a draw ran with no pipeline bound"),
    }
}

#[test]
fn indexed_draw_without_pipeline_fails() {
    let tasks = vec![DrawTask::DrawIndexed { indices: 0..6, base_vertex: 0, instances: 0..1 }];
    match execute(&tasks) {
        Err(error) => assert_eq!(error, ExecError::NoPipeline { index: 0 }),
        Ok(_) => panic!("a draw ran with no pipeline bound"),
    }
}

#[test]
fn first_failing_draw_is_reported() {
    let tasks = vec![draw(0..1, 0..1), draw(0..2, 0..1)];
    match execute(&tasks) {
        Err(error) => assert_eq!(error, ExecError::NoPipeline { index: 0 }),
        Ok(_) => panic!("a draw ran with no pipeline bound"),
    }
}

#[test]
fn a_draw_uses_the_pipeline_bound_last() {
    let tasks = vec![
        DrawTask::SetPipeline(pipeline(1)),
        draw(0..3, 0..1),
        DrawTask::SetPipeline(pipeline(2)),
        draw(3..6, 0..2),
        DrawTask::DrawIndexed { indices: 0..9, base_vertex: -4, instances: 0..1 },
    ];
    let pass = execute(&tasks).unwrap();
    assert_eq!(
        pass.draws(),
        &vec![
            DrawCall {
                pipeline: pipeline(1),
                command: DrawCommand::Draw { vertices: 0..3, instances: 0..1 },
            },
            DrawCall {
                pipeline: pipeline(2),
                command: DrawCommand::Draw { vertices: 3..6, instances: 0..2 },
            },
            DrawCall {
                pipeline: pipeline(2),
                command: DrawCommand::DrawIndexed {
                    indices: 0..9,
                    base_vertex: -4,
                    instances: 0..1,
                },
            },
        ]
    );
    assert_eq!(pass.pipeline(), Some(pipeline(2)));
}

#[test]
fn bound_state_stays_until_it_is_replaced() {
    let tasks = vec![
        vertex_buffer(0, 10),
        vertex_buffer(1, 11),
        DrawTask::SetIndexBuffer { buffer: Buffer { id: 20 }, offset: 4, size: 8 },
        DrawTask::SetBindGroup { index: 0, bind_group: BindGroup { id: 30 }, offsets: vec![] },
        DrawTask::SetBindGroup { index: 2, bind_group: BindGroup { id: 32 }, offsets: vec![16] },
        vertex_buffer(0, 12),
        DrawTask::SetBindGroup { index: 0, bind_group: BindGroup { id: 31 }, offsets: vec![] },
    ];
    let pass = execute(&tasks).unwrap();
    assert_eq!(pass.vertex_buffer(0).unwrap().buffer, Buffer { id: 12 });
    assert_eq!(pass.vertex_buffer(1).unwrap().buffer, Buffer { id: 11 });
    assert_eq!(pass.vertex_buffer(2), None);
    assert_eq!(
        pass.index_buffer(),
        Some(BufferBinding { buffer: Buffer { id: 20 }, offset: 4, size: 8 })
    );
    assert_eq!(pass.bind_group(0), Some(BindGroup { id: 31 }));
    assert_eq!(pass.bind_group(1), None);
    assert_eq!(pass.bind_group(2), Some(BindGroup { id: 32 }));
    assert!(pass.draws().is_empty());
}

#[test]
fn reordering_changes_bindings_not_draws() {
    let first = vec![
        DrawTask::SetPipeline(pipeline(1)),
        DrawTask::SetPipeline(pipeline(2)),
        draw(0..3, 0..1),
        draw(3..6, 0..1),
    ];
    let second = vec![
        DrawTask::SetPipeline(pipeline(2)),
        draw(3..6, 0..1),
        DrawTask::SetPipeline(pipeline(1)),
        draw(0..3, 0..1),
    ];
    let a = execute(&first).unwrap();
    let b = execute(&second).unwrap();
    let mut draws_a: Vec<(u32, u32)> = Vec::new();
    for call in a.draws() {
        if let DrawCommand::Draw { vertices, .. } = &call.command {
            draws_a.push((vertices.start, vertices.end));
        }
    }
    let mut draws_b: Vec<(u32, u32)> = Vec::new();
    for call in b.draws() {
        if let DrawCommand::Draw { vertices, .. } = &call.command {
            draws_b.push((vertices.start, vertices.end));
        }
    }
    draws_a.sort();
    draws_b.sort();
    assert_eq!(draws_a, vec![(0, 3), (3, 6)]);
    assert_eq!(draws_a, draws_b);
    // What is bound when a draw runs does change.
    assert_eq!(a.draws()[0].pipeline, pipeline(2));
    assert_eq!(b.draws()[1].pipeline, pipeline(1));
}

#[test]
fn apply_leaves_the_pass_alone_when_a_draw_fails() {
    let mut pass = PassState::new();
    assert!(pass.apply(&vertex_buffer(3, 9)));
    assert!(!pass.apply(&draw(0..3, 0..1)));
    assert_eq!(pass.vertex_buffer(3).unwrap().buffer, Buffer { id: 9 });
    assert!(pass.draws().is_empty());
    assert!(pass.apply(&DrawTask::SetPipeline(pipeline(5))));
    assert!(pass.apply(&draw(0..3, 0..1)));
    assert_eq!(pass.draws().len(), 1);
}

#[test]
fn duplicate_says_the_same() {
    let task = DrawTask::SetBindGroup {
        index: 1,
        bind_group: BindGroup { id: 4 },
        offsets: vec![0, 256],
    };
    match task.duplicate() {
        DrawTask::SetBindGroup { index, bind_group, offsets } => {
            assert_eq!(index, 1);
            assert_eq!(bind_group, BindGroup { id: 4 });
            assert_eq!(offsets, vec![0, 256]);
        }
        _ => panic!("the copy is another kind of task"),
    }
    match draw(2..5, 1..3).duplicate() {
        DrawTask::Draw { vertices, instances } => {
            assert_eq!(vertices, 2..5);
            assert_eq!(instances, 1..3);
        }
        _ => panic!("the copy is another kind of task"),
    }
}
