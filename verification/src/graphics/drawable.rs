use vstd::prelude::*;
use vstd::seq_lib::{to_multiset_build, to_multiset_remove};
use std::collections::HashMap;
use std::ops::Range;
use crate::context::AppContext;
use crate::game::GameError;
use crate::graphics::handle::{BindGroup, Buffer, BufferBinding, Pipeline};

verus! {

broadcast use vstd::std_specs::hash::group_hash_axioms;

/// One entry of a command list.
///
/// A command list describes what to draw without touching the GPU: it is a
/// value that drawing code builds and hands back, and that the backend later
/// runs against one render pass. The `Set*` entries bind state, which stays
/// bound until another entry of the same kind and place replaces it or the
/// pass ends; the two draw entries draw with what is bound at that moment.
#[derive(Debug)]
pub enum DrawTask {
    /// Binds the pipeline that the following draws use.
    SetPipeline(Pipeline),
    /// Binds a part of a buffer as the vertex buffer of a slot.
    SetVertexBuffer { slot: u32, buffer: Buffer, offset: u64, size: u64 },
    /// Binds a part of a buffer as the index buffer.
    SetIndexBuffer { buffer: Buffer, offset: u64, size: u64 },
    /// Binds a group of resources at an index, with its dynamic offsets.
    SetBindGroup { index: u32, bind_group: BindGroup, offsets: Vec<u32> },
    /// Draws primitives from the bound vertex buffers: `vertices` is the
    /// range of vertex indices, `instances` the range of instance indices.
    Draw { vertices: Range<u32>, instances: Range<u32> },
    /// Draws primitives through the bound index buffer.
    DrawIndexed { indices: Range<u32>, base_vertex: i32, instances: Range<u32> },
}

/// Something that can be drawn.
///
/// Drawing gives a command list and leaves the render pass to the backend.
/// A drawable can so keep its pipelines and buffers in its own state, build
/// them when it likes, and never has to prove that they outlive a pass: the
/// handles in the list are shared with the backend, not borrowed from the
/// drawable.
pub trait Drawable {
    fn draw(&self, actx: &mut AppContext) -> Result<Vec<DrawTask>, GameError>;
}

/// What a [`DrawTask`] says, as a mathematical value.
pub enum DrawTaskView {
    SetPipeline(Pipeline),
    SetVertexBuffer { slot: u32, binding: BufferBinding },
    SetIndexBuffer { binding: BufferBinding },
    SetBindGroup { index: u32, group: GroupBindingView },
    Draw(DrawCommand),
}

/// The parameters of one draw.
#[derive(Debug, PartialEq, Eq)]
pub enum DrawCommand {
    Draw { vertices: Range<u32>, instances: Range<u32> },
    DrawIndexed { indices: Range<u32>, base_vertex: i32, instances: Range<u32> },
}

/// A draw as the pass issued it: the parameters, and the pipeline that was
/// bound when it ran.
#[derive(Debug, PartialEq, Eq)]
pub struct DrawCall {
    pub pipeline: Pipeline,
    pub command: DrawCommand,
}

/// A bound group of resources with its dynamic offsets.
#[derive(Debug)]
pub struct GroupBinding {
    pub bind_group: BindGroup,
    pub offsets: Vec<u32>,
}

/// What a [`GroupBinding`] holds, as a mathematical value.
pub struct GroupBindingView {
    pub bind_group: BindGroup,
    pub offsets: Seq<u32>,
}

impl View for GroupBinding {
    type V = GroupBindingView;

    open spec fn view(&self) -> GroupBindingView {
        GroupBindingView { bind_group: self.bind_group, offsets: self.offsets@ }
    }
}

impl View for DrawTask {
    type V = DrawTaskView;

    open spec fn view(&self) -> DrawTaskView {
        match *self {
            DrawTask::SetPipeline(pipeline) => DrawTaskView::SetPipeline(pipeline),
            DrawTask::SetVertexBuffer { slot, buffer, offset, size } => DrawTaskView::SetVertexBuffer {
                slot,
                binding: BufferBinding { buffer, offset, size },
            },
            DrawTask::SetIndexBuffer { buffer, offset, size } => DrawTaskView::SetIndexBuffer {
                binding: BufferBinding { buffer, offset, size },
            },
            DrawTask::SetBindGroup { index, bind_group, offsets } => DrawTaskView::SetBindGroup {
                index,
                group: GroupBindingView { bind_group, offsets: offsets@ },
            },
            DrawTask::Draw { vertices, instances } => DrawTaskView::Draw(
                DrawCommand::Draw { vertices, instances },
            ),
            DrawTask::DrawIndexed { indices, base_vertex, instances } => DrawTaskView::Draw(
                DrawCommand::DrawIndexed { indices, base_vertex, instances },
            ),
        }
    }
}

impl DrawTask {
    /// A second task that says the same.
    pub fn duplicate(&self) -> (copy: DrawTask)
        ensures
            copy@ == self@,
    {
        match self {
            DrawTask::SetPipeline(pipeline) => DrawTask::SetPipeline(*pipeline),
            DrawTask::SetVertexBuffer { slot, buffer, offset, size } => DrawTask::SetVertexBuffer {
                slot: *slot,
                buffer: *buffer,
                offset: *offset,
                size: *size,
            },
            DrawTask::SetIndexBuffer { buffer, offset, size } => DrawTask::SetIndexBuffer {
                buffer: *buffer,
                offset: *offset,
                size: *size,
            },
            DrawTask::SetBindGroup { index, bind_group, offsets } => {
                let copy = offsets.clone();
                assert(copy@ =~= offsets@);
                DrawTask::SetBindGroup { index: *index, bind_group: *bind_group, offsets: copy }
            },
            DrawTask::Draw { vertices, instances } => DrawTask::Draw {
                vertices: Range { start: vertices.start, end: vertices.end },
                instances: Range { start: instances.start, end: instances.end },
            },
            DrawTask::DrawIndexed { indices, base_vertex, instances } => DrawTask::DrawIndexed {
                indices: Range { start: indices.start, end: indices.end },
                base_vertex: *base_vertex,
                instances: Range { start: instances.start, end: instances.end },
            },
        }
    }
}

/// The command list that a vector of tasks stands for.
pub open spec fn list_view(tasks: Seq<DrawTask>) -> Seq<DrawTaskView> {
    tasks.map_values(|t: DrawTask| t@)
}

/// The state of a render pass, as a mathematical value: what is bound, and
/// the draws issued so far, oldest first.
pub struct PassModel {
    pub pipeline: Option<Pipeline>,
    pub vertex_buffers: Map<u32, BufferBinding>,
    pub index_buffer: Option<BufferBinding>,
    pub bind_groups: Map<u32, GroupBindingView>,
    pub draws: Seq<DrawCall>,
}

impl PassModel {
    /// The state of a pass that has just been opened: nothing is bound and
    /// nothing has been drawn.
    pub open spec fn empty() -> PassModel {
        PassModel {
            pipeline: None,
            vertex_buffers: Map::empty(),
            index_buffer: None,
            bind_groups: Map::empty(),
            draws: Seq::empty(),
        }
    }

    /// The state after one entry, or `None` where the entry is a draw and no
    /// pipeline is bound.
    pub open spec fn apply(self, task: DrawTaskView) -> Option<PassModel> {
        match task {
            DrawTaskView::SetPipeline(pipeline) => Some(
                PassModel { pipeline: Some(pipeline), ..self },
            ),
            DrawTaskView::SetVertexBuffer { slot, binding } => Some(
                PassModel { vertex_buffers: self.vertex_buffers.insert(slot, binding), ..self },
            ),
            DrawTaskView::SetIndexBuffer { binding } => Some(
                PassModel { index_buffer: Some(binding), ..self },
            ),
            DrawTaskView::SetBindGroup { index, group } => Some(
                PassModel { bind_groups: self.bind_groups.insert(index, group), ..self },
            ),
            DrawTaskView::Draw(command) => match self.pipeline {
                Some(pipeline) => Some(
                    PassModel { draws: self.draws.push(DrawCall { pipeline, command }), ..self },
                ),
                None => None,
            },
        }
    }

    /// The state after the entries of `tasks`, applied in list order, or the
    /// position of the first entry that fails.
    pub open spec fn run(self, tasks: Seq<DrawTaskView>) -> Result<PassModel, int>
        decreases tasks.len(),
    {
        if tasks.len() == 0 {
            Ok(self)
        } else {
            match self.run(tasks.drop_last()) {
                Ok(before) => match before.apply(tasks.last()) {
                    Some(after) => Ok(after),
                    None => Err(tasks.len() - 1),
                },
                Err(at) => Err(at),
            }
        }
    }
}

/// The draws among the entries of a command list, in list order.
pub open spec fn draw_commands(tasks: Seq<DrawTaskView>) -> Seq<DrawCommand>
    decreases tasks.len(),
{
    if tasks.len() == 0 {
        Seq::empty()
    } else {
        match tasks.last() {
            DrawTaskView::Draw(command) => draw_commands(tasks.drop_last()).push(command),
            _ => draw_commands(tasks.drop_last()),
        }
    }
}

/// The parameters of the draws that a pass issued, oldest first.
pub open spec fn issued(draws: Seq<DrawCall>) -> Seq<DrawCommand> {
    draws.map_values(|c: DrawCall| c.command)
}

/// Why a command list could not be run.
#[derive(Debug, Clone, Copy, PartialEq, Eq, Structural)]
pub enum ExecError {
    /// The entry at `index` is a draw, and no pipeline was bound before it.
    NoPipeline { index: usize },
}

/// A render pass that records what is bound and what was drawn.
pub struct PassState {
    pipeline: Option<Pipeline>,
    vertex_buffers: HashMap<u32, BufferBinding>,
    index_buffer: Option<BufferBinding>,
    bind_groups: HashMap<u32, GroupBinding>,
    draws: Vec<DrawCall>,
}

impl View for PassState {
    type V = PassModel;

    closed spec fn view(&self) -> PassModel {
        PassModel {
            pipeline: self.pipeline,
            vertex_buffers: self.vertex_buffers@,
            index_buffer: self.index_buffer,
            bind_groups: self.bind_groups@.map_values(|g: GroupBinding| g@),
            draws: self.draws@,
        }
    }
}

impl PassState {
    /// Opens a pass: nothing is bound and nothing has been drawn.
    pub fn new() -> (pass: PassState)
        ensures
            pass@ == PassModel::empty(),
    {
        let pass = PassState {
            pipeline: None,
            vertex_buffers: HashMap::new(),
            index_buffer: None,
            bind_groups: HashMap::new(),
            draws: Vec::new(),
        };
        assert(pass@.bind_groups =~= Map::empty());
        pass
    }

    /// Applies one entry of a command list to the pass.
    ///
    /// A `Set*` entry replaces what was bound at its place. A draw is issued
    /// with the pipeline that is bound; with none bound it fails and leaves
    /// the pass as it was.
    pub fn apply(&mut self, task: &DrawTask) -> (done: bool)
        ensures
            done == old(self)@.apply(task@).is_some(),
            done ==> final(self)@ == old(self)@.apply(task@).unwrap(),
            !done ==> final(self)@ == old(self)@,
    {
        match task {
            DrawTask::SetPipeline(pipeline) => {
                self.pipeline = Some(*pipeline);
                true
            },
            DrawTask::SetVertexBuffer { slot, buffer, offset, size } => {
                self.vertex_buffers.insert(
                    *slot,
                    BufferBinding { buffer: *buffer, offset: *offset, size: *size },
                );
                true
            },
            DrawTask::SetIndexBuffer { buffer, offset, size } => {
                self.index_buffer = Some(
                    BufferBinding { buffer: *buffer, offset: *offset, size: *size },
                );
                true
            },
            DrawTask::SetBindGroup { index, bind_group, offsets } => {
                let binding = GroupBinding { bind_group: *bind_group, offsets: offsets.clone() };
                assert(binding.offsets@ =~= offsets@);
                self.bind_groups.insert(*index, binding);
                assert(final(self)@.bind_groups =~= old(self)@.bind_groups.insert(*index, binding@));
                true
            },
            DrawTask::Draw { vertices, instances } => {
                match self.pipeline {
                    Some(pipeline) => {
                        self.draws.push(
                            DrawCall {
                                pipeline,
                                command: DrawCommand::Draw {
                                    vertices: Range { start: vertices.start, end: vertices.end },
                                    instances: Range { start: instances.start, end: instances.end },
                                },
                            },
                        );
                        true
                    },
                    None => false,
                }
            },
            DrawTask::DrawIndexed { indices, base_vertex, instances } => {
                match self.pipeline {
                    Some(pipeline) => {
                        self.draws.push(
                            DrawCall {
                                pipeline,
                                command: DrawCommand::DrawIndexed {
                                    indices: Range { start: indices.start, end: indices.end },
                                    base_vertex: *base_vertex,
                                    instances: Range { start: instances.start, end: instances.end },
                                },
                            },
                        );
                        true
                    },
                    None => false,
                }
            },
        }
    }

    /// The pipeline that is bound, if one is.
    pub fn pipeline(&self) -> (pipeline: Option<Pipeline>)
        ensures
            pipeline == self@.pipeline,
    {
        self.pipeline
    }

    /// The index buffer that is bound, if one is.
    pub fn index_buffer(&self) -> (binding: Option<BufferBinding>)
        ensures
            binding == self@.index_buffer,
    {
        self.index_buffer
    }

    /// The vertex buffer that is bound at `slot`, if one is.
    pub fn vertex_buffer(&self, slot: u32) -> (binding: Option<BufferBinding>)
        ensures
            binding == (if self@.vertex_buffers.contains_key(slot) {
                Some(self@.vertex_buffers[slot])
            } else {
                None
            }),
    {
        match self.vertex_buffers.get(&slot) {
            Some(binding) => Some(*binding),
            None => None,
        }
    }

    /// The group of resources that is bound at `index`, if one is.
    pub fn bind_group(&self, index: u32) -> (bind_group: Option<BindGroup>)
        ensures
            bind_group == (if self@.bind_groups.contains_key(index) {
                Some(self@.bind_groups[index].bind_group)
            } else {
                None
            }),
    {
        match self.bind_groups.get(&index) {
            Some(binding) => Some(binding.bind_group),
            None => None,
        }
    }

    /// The draws that the pass has issued, oldest first.
    pub fn draws(&self) -> (draws: &Vec<DrawCall>)
        ensures
            draws@ == self@.draws,
    {
        &self.draws
    }
}

/// Runs a command list against a pass that has just been opened.
///
/// The entries are applied strictly in list order. The run stops at the
/// first draw that finds no pipeline bound and reports its position;
/// otherwise it gives the pass as the last entry left it.
pub fn execute(tasks: &Vec<DrawTask>) -> (result: Result<PassState, ExecError>)
    ensures
        match PassModel::empty().run(list_view(tasks@)) {
            Ok(model) => result matches Ok(pass) && pass@ == model,
            Err(at) => result matches Err(ExecError::NoPipeline { index }) && index == at,
        },
{
    let mut pass = PassState::new();
    let mut i: usize = 0;
    assert(list_view(tasks@).take(0) =~= Seq::empty());
    while i < tasks.len()
        invariant
            i <= tasks.len(),
            PassModel::empty().run(list_view(tasks@).take(i as int)) == Ok::<PassModel, int>(pass@),
        decreases tasks.len() - i,
    {
        let ghost list = list_view(tasks@);
        let done = pass.apply(&tasks[i]);
        proof {
            assert(list.take(i + 1).drop_last() =~= list.take(i as int));
            assert(list.take(i + 1).last() == tasks[i as int]@);
        }
        if !done {
            proof {
                lemma_error_persists(PassModel::empty(), list, i + 1);
            }
            return Err(ExecError::NoPipeline { index: i });
        }
        i += 1;
    }
    assert(list_view(tasks@).take(i as int) =~= list_view(tasks@));
    Ok(pass)
}

/// Once an entry has failed, the rest of the list does not matter: a list
/// fails where its prefix failed.
pub proof fn lemma_error_persists(start: PassModel, tasks: Seq<DrawTaskView>, k: int)
    requires
        0 <= k <= tasks.len(),
        start.run(tasks.take(k)) is Err,
    ensures
        start.run(tasks) == start.run(tasks.take(k)),
    decreases tasks.len() - k,
{
    if k == tasks.len() {
        assert(tasks.take(k) =~= tasks);
    } else {
        assert(tasks.drop_last().take(k) =~= tasks.take(k));
        lemma_error_persists(start, tasks.drop_last(), k);
    }
}

/// A run keeps the order of the list: the draws that a pass has issued after
/// a list are those it had issued before, followed by the draws of the list
/// in list order.
pub proof fn lemma_run_issues_draws_in_order(start: PassModel, tasks: Seq<DrawTaskView>)
    requires
        start.run(tasks) is Ok,
    ensures
        issued(start.run(tasks)->Ok_0.draws) == issued(start.draws) + draw_commands(tasks),
    decreases tasks.len(),
{
    if tasks.len() == 0 {
        assert(issued(start.draws) + draw_commands(tasks) =~= issued(start.draws));
    } else {
        lemma_run_issues_draws_in_order(start, tasks.drop_last());
        let before = start.run(tasks.drop_last())->Ok_0;
        let after = start.run(tasks)->Ok_0;
        match tasks.last() {
            DrawTaskView::Draw(command) => {
                assert(issued(after.draws) =~= issued(before.draws).push(command));
                assert(issued(start.draws) + draw_commands(tasks) =~= (issued(start.draws)
                    + draw_commands(tasks.drop_last())).push(command));
            },
            _ => {
                assert(after.draws == before.draws);
            },
        }
    }
}

/// The draws of a list with the entry at `at` taken out are the draws of
/// the list less that entry, where it is a draw.
proof fn lemma_draws_without(tasks: Seq<DrawTaskView>, at: int)
    requires
        0 <= at < tasks.len(),
    ensures
        draw_commands(tasks).to_multiset() == (match tasks[at] {
            DrawTaskView::Draw(command) => draw_commands(tasks.remove(at)).to_multiset().insert(
                command,
            ),
            _ => draw_commands(tasks.remove(at)).to_multiset(),
        }),
    decreases tasks.len(),
{
    let rest = tasks.remove(at);
    if at == tasks.len() - 1 {
        assert(rest =~= tasks.drop_last());
        match tasks.last() {
            DrawTaskView::Draw(command) => {
                to_multiset_build(draw_commands(rest), command);
            },
            _ => {},
        }
    } else {
        assert(rest.drop_last() =~= tasks.drop_last().remove(at));
        assert(rest.last() == tasks.last());
        assert(tasks.drop_last()[at] == tasks[at]);
        lemma_draws_without(tasks.drop_last(), at);
        match tasks.last() {
            DrawTaskView::Draw(last) => {
                to_multiset_build(draw_commands(tasks.drop_last()), last);
                to_multiset_build(draw_commands(rest.drop_last()), last);
                match tasks[at] {
                    DrawTaskView::Draw(command) => {
                        assert(draw_commands(rest.drop_last()).to_multiset().insert(command).insert(
                            last,
                        ) =~= draw_commands(rest.drop_last()).to_multiset().insert(last).insert(
                            command,
                        ));
                    },
                    _ => {},
                }
            },
            _ => {},
        }
    }
}

/// Reordering a command list changes only what is bound when a draw runs,
/// never which draws there are: two lists with the same entries, in whatever
/// order, hold the same draws, each as often in the one as in the other.
pub proof fn lemma_reorder_keeps_draws(a: Seq<DrawTaskView>, b: Seq<DrawTaskView>)
    requires
        a.to_multiset() == b.to_multiset(),
    ensures
        draw_commands(a).to_multiset() == draw_commands(b).to_multiset(),
    decreases a.len(),
{
    a.to_multiset_ensures();
    b.to_multiset_ensures();
    if a.len() == 0 {
        assert(b.len() == 0);
    } else {
        let x = a.last();
        assert(a.contains(x));
        assert(a.to_multiset().count(x) > 0);
        assert(b.to_multiset().count(x) > 0);
        assert(b.contains(x));
        let at = choose|at: int| 0 <= at < b.len() && b[at] == x;
        assert(a.drop_last() =~= a.remove(a.len() - 1));
        to_multiset_remove(a, a.len() - 1);
        to_multiset_remove(b, at);
        lemma_reorder_keeps_draws(a.drop_last(), b.remove(at));
        lemma_draws_without(b, at);
        match x {
            DrawTaskView::Draw(command) => {
                to_multiset_build(draw_commands(a.drop_last()), command);
            },
            _ => {},
        }
    }
}

} // verus!
