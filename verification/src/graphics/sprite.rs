use vstd::prelude::*;
use std::rc::Rc;
use crate::graphics::drawable::{DrawTask, DrawTaskView, GroupBindingView};
use crate::graphics::handle::BindGroup;

verus! {

/// An image in GPU memory, ready to be drawn from.
///
/// A sheet is known by the handle of the resource group that holds its
/// texture. Sheets are shared: any number of batches can draw from one.
#[derive(Debug, Clone, Copy, PartialEq, Eq, Hash, Structural)]
pub struct SpriteSheet {
    pub bind_group: BindGroup,
}

/// The entry that binds a sheet: its resource group at index 0, with no
/// dynamic offsets.
pub open spec fn sheet_binding(sheet: SpriteSheet) -> DrawTaskView {
    DrawTaskView::SetBindGroup {
        index: 0,
        group: GroupBindingView { bind_group: sheet.bind_group, offsets: Seq::empty() },
    }
}

/// Draw operations that sample one sprite sheet.
///
/// A batch is a command list that begins by binding its sheet. The entries
/// added to it follow in the order in which they were added.
#[derive(Debug)]
pub struct SpriteBatch {
    sheet: Rc<SpriteSheet>,
    /// The entries that follow the binding of the sheet.
    added: Vec<DrawTask>,
}

/// What a [`SpriteBatch`] holds, as a mathematical value.
pub struct SpriteBatchView {
    pub sheet: SpriteSheet,
    /// The whole command list, the binding of the sheet first.
    pub tasks: Seq<DrawTaskView>,
}

impl View for SpriteBatch {
    type V = SpriteBatchView;

    closed spec fn view(&self) -> SpriteBatchView {
        SpriteBatchView {
            sheet: *self.sheet,
            tasks: seq![sheet_binding(*self.sheet)] + self.added@.map_values(|t: DrawTask| t@),
        }
    }
}

impl SpriteBatch {
    /// A batch for the given sheet. Its command list holds one entry, which
    /// binds the sheet.
    pub fn new(sheet: Rc<SpriteSheet>) -> (batch: SpriteBatch)
        ensures
            batch@.sheet == *sheet,
            batch@.tasks == seq![sheet_binding(*sheet)],
    {
        let batch = SpriteBatch { sheet, added: Vec::new() };
        assert(batch@.tasks =~= seq![sheet_binding(*sheet)]);
        batch
    }

    /// The sheet that the batch draws from.
    pub fn sheet(&self) -> (sheet: &Rc<SpriteSheet>)
        ensures
            **sheet == self@.sheet,
    {
        &self.sheet
    }

    /// Adds an entry at the end of the command list of the batch.
    pub fn add(&mut self, task: DrawTask)
        ensures
            final(self)@.sheet == old(self)@.sheet,
            final(self)@.tasks == old(self)@.tasks.push(task@),
    {
        self.added.push(task);
        assert(final(self)@.tasks =~= old(self)@.tasks.push(task@));
    }

    /// The entries that were added to the batch, without the binding of the
    /// sheet that goes before them.
    pub fn added(&self) -> (added: &Vec<DrawTask>)
        ensures
            self@.tasks == seq![sheet_binding(self@.sheet)] + added@.map_values(|t: DrawTask| t@),
    {
        &self.added
    }

    /// The entry that binds the sheet of the batch.
    pub fn binding(&self) -> (task: DrawTask)
        ensures
            task@ == sheet_binding(self@.sheet),
    {
        DrawTask::SetBindGroup {
            index: 0,
            bind_group: self.sheet.bind_group,
            offsets: Vec::new(),
        }
    }

    /// The command list of the batch: the binding of the sheet, then the
    /// entries that were added.
    pub fn tasks(&self) -> (tasks: Vec<DrawTask>)
        ensures
            tasks@.map_values(|t: DrawTask| t@) == self@.tasks,
            tasks@.len() > 0,
            tasks@[0]@ == sheet_binding(self@.sheet),
    {
        let mut tasks: Vec<DrawTask> = Vec::new();
        tasks.push(self.binding());
        let ghost head = tasks@.map_values(|t: DrawTask| t@);
        assert(head =~= seq![sheet_binding(self@.sheet)]);
        let mut i: usize = 0;
        assert(self.added@.take(0) =~= Seq::empty());
        assert(head + self.added@.take(0).map_values(|t: DrawTask| t@) =~= head);
        while i < self.added.len()
            invariant
                i <= self.added.len(),
                tasks@.len() == i + 1,
                tasks@[0]@ == sheet_binding(self@.sheet),
                head == seq![sheet_binding(self@.sheet)],
                tasks@.map_values(|t: DrawTask| t@) == head + self.added@.take(i as int).map_values(
                    |t: DrawTask| t@,
                ),
            decreases self.added.len() - i,
        {
            let ghost so_far = tasks@.map_values(|t: DrawTask| t@);
            let copy = self.added[i].duplicate();
            tasks.push(copy);
            proof {
                assert(tasks@.map_values(|t: DrawTask| t@) =~= so_far.push(copy@));
                assert(self.added@.take(i + 1).map_values(|t: DrawTask| t@) =~= self.added@.take(
                    i as int,
                ).map_values(|t: DrawTask| t@).push(self.added@[i as int]@));
                assert(tasks@.map_values(|t: DrawTask| t@) =~= head + self.added@.take(
                    i + 1,
                ).map_values(|t: DrawTask| t@));
            }
            i += 1;
        }
        assert(self.added@.take(i as int) =~= self.added@);
        tasks
    }

    /// Every batch begins with the binding of its sheet.
    pub proof fn lemma_begins_with_sheet(&self)
        ensures
            self@.tasks.len() > 0,
            self@.tasks[0] == sheet_binding(self@.sheet),
    {
    }
}

/// The command list of a frame that draws the given batches: the command
/// lists of the batches, one after the other in the order of the batches.
pub open spec fn frame_list(batches: Seq<SpriteBatchView>) -> Seq<DrawTaskView>
    decreases batches.len(),
{
    if batches.len() == 0 {
        Seq::empty()
    } else {
        frame_list(batches.drop_last()) + batches.last().tasks
    }
}

} // verus!
