//! A list of a project as it is shown: its tasks, how many of their rows
//! are loaded, and what dragging a row or the list itself does.

use vstd::prelude::*;
use crate::models::{list_at_index, list_indices, task_at_position, task_positions, List, Task};
use crate::order::{closed, dense, joined, lemma_join_keeps_dense, moved};
use crate::reorder::{move_list, move_task, take_task};

verus! {

/// How the lists of a project are laid out.
#[derive(Clone, Copy, PartialEq, Eq, Structural, Debug)]
pub enum ProjectLayout {
    Vertical,
    Horizontal,
}

/// What a drop target answers while something is dragged over it.
#[derive(Clone, Copy, PartialEq, Eq, Structural, Debug)]
pub enum DragAction {
    /// The drag cannot be dropped here.
    Empty,
    /// The drag would be moved here.
    Move,
}

/// A list with its tasks. `tasks` holds them in the order of their rows: as
/// they were read, with later arrivals in front. The first `loaded` of them
/// have a row. The rows are shown by position, whatever their order here.
/// While `renaming` holds, the name of the list is being edited.
#[derive(Clone, Debug, PartialEq, Eq)]
pub struct ProjectList {
    pub list: List,
    pub tasks: Vec<Task>,
    pub loaded: usize,
    pub renaming: bool,
}

/// The task as it enters the list `list` at `position`: it is a task of
/// that list and holds that position.
pub open spec fn entered(task: Task, list: i64, position: i32) -> Task {
    Task { list, position, ..task }
}

/// `j` is the place of the row that is shown directly before a row at
/// `position`: among the first `loaded` tasks, the first of those that hold
/// the last position before it.
pub open spec fn shown_directly_before(
    tasks: Seq<Task>,
    loaded: int,
    position: i32,
    j: int,
) -> bool {
    &&& 0 <= j < loaded
    &&& tasks[j].position < position
    &&& forall|k: int|
        0 <= k < loaded && (#[trigger] tasks[k]).position < position ==> tasks[k].position
            <= tasks[j].position
    &&& forall|k: int| 0 <= k < j ==> (#[trigger] tasks[k]).position != tasks[j].position
}

impl ProjectList {
    /// No more rows are loaded than there are tasks.
    pub open spec fn wf(&self) -> bool {
        self.loaded <= self.tasks.len()
    }

    /// Whether a task row dragged over this list renumbers its tasks: not in
    /// a list of exactly two, and only where a dragged task and another task
    /// under it are known.
    pub open spec fn renumbers(
        tasks: Seq<Task>,
        source: Option<usize>,
        target: Option<usize>,
    ) -> bool {
        &&& tasks.len() != 2
        &&& source is Some
        &&& target is Some
        &&& tasks[source->0 as int].id != tasks[target->0 as int].id
    }

    /// A list that is shown for the first time. In the horizontal layout a
    /// list longer than a page loads one page of rows; every other list
    /// loads all its rows.
    pub fn new(list: List, layout: ProjectLayout, page_size: usize, tasks: Vec<Task>) -> (r: Self)
        ensures
            r.list == list,
            r.tasks == tasks,
            !r.renaming,
            r.loaded == (if tasks.len() > page_size && layout == ProjectLayout::Horizontal {
                page_size
            } else {
                tasks.len()
            }),
            r.wf(),
    {
        let loaded = if tasks.len() > page_size && layout == ProjectLayout::Horizontal {
            page_size
        } else {
            tasks.len()
        };
        ProjectList { list, tasks, loaded, renaming: false }
    }

    /// Finds the row to focus for `target_task`: the first task with its
    /// position. Rows are loaded up to and including that one. Where no task
    /// has the position, every row ends up loaded and there is nothing to
    /// focus.
    pub fn select_task(&mut self, target_task: &Task) -> (row: Option<usize>)
        requires
            old(self).wf(),
        ensures
            final(self).wf(),
            final(self).list == old(self).list,
            final(self).renaming == old(self).renaming,
            final(self).tasks == old(self).tasks,
            match row {
                Some(i) => {
                    &&& i < old(self).tasks.len()
                    &&& old(self).tasks[i as int].position == target_task.position
                    &&& forall|j: int|
                        0 <= j < i ==> (#[trigger] old(self).tasks[j]).position
                            != target_task.position
                    &&& final(self).loaded == (if i < old(self).loaded {
                        old(self).loaded
                    } else {
                        (i + 1) as usize
                    })
                },
                None => {
                    &&& forall|j: int|
                        0 <= j < old(self).tasks.len() ==> (#[trigger] old(self).tasks[j]).position
                            != target_task.position
                    &&& final(self).loaded == old(self).tasks.len()
                },
            },
    {
        let n = self.tasks.len();
        let mut i: usize = 0;
        while i < self.loaded
            invariant
                *self == *old(self),
                self.wf(),
                n == self.tasks.len(),
                i <= self.loaded,
                forall|j: int|
                    0 <= j < i ==> (#[trigger] self.tasks[j]).position != target_task.position,
            decreases self.loaded - i,
        {
            if self.tasks[i].position == target_task.position {
                return Some(i);
            }
            i += 1;
        }
        while self.loaded < n
            invariant
                self.list == old(self).list,
                self.renaming == old(self).renaming,
                self.tasks == old(self).tasks,
                old(self).loaded <= self.loaded,
                self.wf(),
                n == self.tasks.len(),
                forall|j: int|
                    0 <= j < self.loaded ==> (#[trigger] self.tasks[j]).position
                        != target_task.position,
            decreases n - self.loaded,
        {
            let next = self.loaded;
            self.loaded = next + 1;
            if self.tasks[next].position == target_task.position {
                return Some(next);
            }
        }
        None
    }

    /// Loads the row of the next task when the end of the loaded rows is
    /// reached, and says whether there was one.
    pub fn load_next_row(&mut self) -> (grown: bool)
        requires
            old(self).wf(),
        ensures
            final(self).wf(),
            final(self).list == old(self).list,
            final(self).renaming == old(self).renaming,
            final(self).tasks == old(self).tasks,
            grown == (old(self).loaded < old(self).tasks.len()),
            final(self).loaded == old(self).loaded + (if grown {
                1int
            } else {
                0int
            }),
    {
        if self.loaded < self.tasks.len() {
            self.loaded = self.loaded + 1;
            true
        } else {
            false
        }
    }

    /// Whether the row of `first` is shown before the row of `second`: rows
    /// are shown by position, from the first position on.
    pub fn row_shown_before(first: &Task, second: &Task) -> (before: bool)
        ensures
            before == (first.position < second.position),
    {
        first.position < second.position
    }

    /// Whether the row of `task` is shown: not while the task is suspended,
    /// and not while the row is being dragged out of the list.
    pub fn row_visible(task: &Task, moving_out: bool) -> (shown: bool)
        ensures
            shown == (!task.suspended && !moving_out),
    {
        if task.suspended {
            false
        } else {
            !moving_out
        }
    }

    /// The name of the list was clicked: it is being edited from now on.
    pub fn handle_name_button_clicked(&mut self)
        ensures
            final(self).renaming,
            final(self).list == old(self).list,
            final(self).tasks == old(self).tasks,
            final(self).loaded == old(self).loaded,
    {
        self.renaming = true;
    }

    /// The edited name was entered: the list takes it, the editing is over,
    /// and the list must be written.
    pub fn handle_name_entry_activate(&mut self, name: String)
        ensures
            !final(self).renaming,
            final(self).list == (List { name, ..old(self).list }),
            final(self).tasks == old(self).tasks,
            final(self).loaded == old(self).loaded,
    {
        self.renaming = false;
        self.list.name = name;
    }

    /// Whether the list can be picked up to be dragged: not while its name
    /// is being edited.
    pub fn list_drag_prepare(&self) -> (draggable: bool)
        ensures
            draggable == !self.renaming,
    {
        !self.renaming
    }

    /// A task was made for the list: it gets the first row.
    pub fn handle_new_button_clicked(&mut self, task: Task)
        requires
            old(self).wf(),
        ensures
            final(self).wf(),
            final(self).list == old(self).list,
            final(self).renaming == old(self).renaming,
            final(self).tasks@ == old(self).tasks@.insert(0, task),
            final(self).loaded == old(self).loaded + 1,
    {
        self.tasks.insert(0, task);
        assert(self.loaded < self.tasks.len());
        self.loaded = self.loaded + 1;
    }

    /// The window of the task of the row at `row` was closed, and `task` is
    /// that task as it is stored now. A task that was done there loses its
    /// row; any other task is shown as it is now, and the answer says that
    /// the project's figures must be brought up to date.
    pub fn handle_task_window_closed(&mut self, row: usize, task: Task) -> (update: bool)
        requires
            old(self).wf(),
            row < old(self).loaded,
        ensures
            final(self).wf(),
            final(self).list == old(self).list,
            final(self).renaming == old(self).renaming,
            update == !task.done,
            task.done ==> final(self).tasks@ == old(self).tasks@.remove(row as int)
                && final(self).loaded == old(self).loaded - 1,
            !task.done ==> final(self).tasks@ == old(self).tasks@.update(row as int, task)
                && final(self).loaded == old(self).loaded,
    {
        if task.done {
            self.tasks.remove(row);
            self.loaded = self.loaded - 1;
            false
        } else {
            self.tasks[row] = task;
            true
        }
    }

    /// The task of the row at `row` was checked off: its row leaves the
    /// list, and the row that is shown directly before it, if there is one,
    /// gets the focus. The answer is the task, for the toast that offers to
    /// undo this, and the place of the row to focus in the list as it is
    /// now. No position changes.
    pub fn check_task(&mut self, row: usize) -> (r: (Task, Option<usize>))
        requires
            old(self).wf(),
            row < old(self).loaded,
        ensures
            final(self).wf(),
            final(self).list == old(self).list,
            final(self).renaming == old(self).renaming,
            final(self).tasks@ == old(self).tasks@.remove(row as int),
            final(self).loaded == old(self).loaded - 1,
            r.0 == old(self).tasks[row as int],
            match r.1 {
                Some(j) => shown_directly_before(
                    final(self).tasks@,
                    final(self).loaded as int,
                    r.0.position,
                    j as int,
                ),
                None => forall|k: int|
                    0 <= k < final(self).loaded ==> (#[trigger] final(self).tasks[k]).position
                        >= r.0.position,
            },
    {
        let task = self.tasks.remove(row);
        self.loaded = self.loaded - 1;
        let mut focus: Option<usize> = None;
        let mut k: usize = 0;
        while k < self.loaded
            invariant
                self.wf(),
                k <= self.loaded,
                self.list == old(self).list,
                self.renaming == old(self).renaming,
                self.tasks@ == old(self).tasks@.remove(row as int),
                self.loaded == old(self).loaded - 1,
                match focus {
                    Some(j) => shown_directly_before(
                        self.tasks@,
                        k as int,
                        task.position,
                        j as int,
                    ),
                    None => forall|i: int|
                        0 <= i < k ==> (#[trigger] self.tasks[i]).position >= task.position,
                },
            decreases self.loaded - k,
        {
            let p = self.tasks[k].position;
            if p < task.position {
                let better = match focus {
                    Some(j) => p > self.tasks[j].position,
                    None => true,
                };
                if better {
                    focus = Some(k);
                }
            }
            k += 1;
        }
        (task, focus)
    }

    /// The check of `task` is undone: the task is not done any more, must be
    /// written, and gets a row behind the rows that are loaded.
    pub fn undo_check(&mut self, task: Task)
        requires
            old(self).wf(),
        ensures
            final(self).wf(),
            final(self).list == old(self).list,
            final(self).renaming == old(self).renaming,
            final(self).tasks@ == old(self).tasks@.insert(
                old(self).loaded as int,
                Task { done: false, ..task },
            ),
            final(self).loaded == old(self).loaded + 1,
    {
        let mut task = task;
        task.done = false;
        self.tasks.insert(self.loaded, task);
        assert(self.loaded < self.tasks.len());
        self.loaded = self.loaded + 1;
    }

    /// The list at `index` was deleted: it leaves the lists of the project,
    /// whose other lists keep their indices. The answer says whether no list
    /// is left, so that the placeholder must take their place.
    pub fn list_deleted(lists: &mut Vec<List>, index: usize) -> (empty: bool)
        requires
            index < old(lists).len(),
        ensures
            final(lists)@ == old(lists)@.remove(index as int),
            empty == (old(lists).len() == 1),
    {
        lists.remove(index);
        lists.len() == 0
    }

    /// A task row is dragged over the row at `target`. In a list of exactly
    /// two tasks the drag is welcome and nothing is renumbered. Otherwise,
    /// without a dragged row or a row under it there is nothing to drop on;
    /// with both, the dragged task moves onto the target unless they are one
    /// and the same task.
    pub fn task_drop_target_motion(
        &mut self,
        source: Option<usize>,
        target: Option<usize>,
    ) -> (action: DragAction)
        requires
            source is Some ==> source->0 < old(self).tasks.len(),
            target is Some ==> target->0 < old(self).tasks.len(),
        ensures
            final(self).list == old(self).list,
            final(self).renaming == old(self).renaming,
            final(self).loaded == old(self).loaded,
            final(self).tasks.len() == old(self).tasks.len(),
            dense(task_positions(old(self).tasks@)) ==> dense(task_positions(final(self).tasks@)),
            action == (if old(self).tasks.len() != 2 && (source is None || target is None) {
                DragAction::Empty
            } else {
                DragAction::Move
            }),
            !Self::renumbers(old(self).tasks@, source, target) ==> final(self).tasks@ == old(
                self
            ).tasks@,
            Self::renumbers(old(self).tasks@, source, target) ==> {
                &&& task_positions(final(self).tasks@) =~= moved(
                    task_positions(old(self).tasks@),
                    source->0 as int,
                    target->0 as int,
                )
                &&& forall|k: int|
                    0 <= k < old(self).tasks.len() ==> #[trigger] final(self).tasks[k]
                        == task_at_position(
                        old(self).tasks[k],
                        moved(
                            task_positions(old(self).tasks@),
                            source->0 as int,
                            target->0 as int,
                        )[k] as i32,
                    )
            },
    {
        if self.tasks.len() == 2 {
            return DragAction::Move;
        }
        match (source, target) {
            (Some(source), Some(target)) => {
                if self.tasks[source].id != self.tasks[target].id {
                    move_task(&mut self.tasks, source, target);
                }
                DragAction::Move
            },
            _ => DragAction::Empty,
        }
    }

    /// The task at `source` of the list `origin` is dragged into this list.
    /// A task of this list is left alone. A task of another list joins this
    /// one at `new_position`, the position that storage has free behind the
    /// tasks of this list; its row is the first of the rows. The list it left
    /// closes the gap. Where `new_position` is the number of tasks of a dense
    /// list, the list is dense again.
    pub fn task_drop_target_enter(
        &mut self,
        origin: &mut ProjectList,
        source: usize,
        new_position: i32,
    ) -> (action: DragAction)
        requires
            old(self).wf(),
            old(origin).wf(),
            source < old(origin).tasks.len(),
        ensures
            action == DragAction::Move,
            final(self).wf(),
            final(origin).wf(),
            dense(task_positions(old(self).tasks@)) && new_position == old(self).tasks.len()
                ==> dense(task_positions(final(self).tasks@)),
            dense(task_positions(old(origin).tasks@)) ==> dense(
                task_positions(final(origin).tasks@),
            ),
            final(self).list == old(self).list,
            final(self).renaming == old(self).renaming,
            final(origin).list == old(origin).list,
            final(origin).renaming == old(origin).renaming,
            old(origin).tasks[source as int].list == old(self).list.id ==> *final(self) == *old(
                self
            ) && *final(origin) == *old(origin),
            old(origin).tasks[source as int].list != old(self).list.id ==> {
                &&& final(self).tasks@ == old(self).tasks@.insert(
                    0,
                    entered(old(origin).tasks[source as int], old(self).list.id, new_position),
                )
                &&& task_positions(final(self).tasks@) =~= task_positions(
                    old(self).tasks@,
                ).insert(0, new_position as int)
                &&& final(self).loaded == old(self).loaded + 1
                &&& final(origin).tasks.len() == old(origin).tasks.len() - 1
                &&& task_positions(final(origin).tasks@) =~= closed(
                    task_positions(old(origin).tasks@),
                    source as int,
                )
                &&& forall|k: int|
                    0 <= k < final(origin).tasks.len() ==> #[trigger] final(origin).tasks[k]
                        == task_at_position(
                        old(origin).tasks@.remove(source as int)[k],
                        closed(task_positions(old(origin).tasks@), source as int)[k] as i32,
                    )
                &&& final(origin).loaded == (if source < old(origin).loaded {
                    old(origin).loaded - 1
                } else {
                    old(origin).loaded as int
                })
            },
    {
        if origin.tasks[source].list != self.list.id {
            proof {
                let to = task_positions(self.tasks@);
                if dense(to) {
                    lemma_join_keeps_dense(to);
                }
            }
            let had_row = source < origin.loaded;
            let mut task = take_task(&mut origin.tasks, source);
            if had_row {
                origin.loaded = origin.loaded - 1;
            }
            task.list = self.list.id;
            task.position = new_position;
            self.tasks.insert(0, task);
            assert(self.loaded < self.tasks.len());
            self.loaded = self.loaded + 1;
            assert(task_positions(self.tasks@) =~= task_positions(old(self).tasks@).insert(
                0,
                new_position as int,
            ));
            assert(new_position == old(self).tasks.len() ==> task_positions(self.tasks@)
                =~= joined(task_positions(old(self).tasks@)));
        }
        DragAction::Move
    }

    /// A task row was dropped. The motion already moved it, so all that is
    /// left to decide is whether the task must be written: only if it is
    /// not where storage has it.
    pub fn task_drop_target_drop(task: &Task, stored: &Task) -> (write: bool)
        ensures
            write == (stored.position != task.position || stored.list != task.list),
    {
        stored.position != task.position || stored.list != task.list
    }

    /// A list is dragged over the list at `target`. Without a dragged list
    /// there is nothing to drop; with one, it moves onto the target unless
    /// the two are one and the same list.
    pub fn list_drop_target_motion(
        lists: &mut Vec<List>,
        source: Option<usize>,
        target: usize,
    ) -> (action: DragAction)
        requires
            source is Some ==> source->0 < old(lists).len(),
            target < old(lists).len(),
        ensures
            final(lists).len() == old(lists).len(),
            dense(list_indices(old(lists)@)) ==> dense(list_indices(final(lists)@)),
            action == (if source is Some {
                DragAction::Move
            } else {
                DragAction::Empty
            }),
            source is None || old(lists)[source->0 as int].id == old(lists)[target as int].id
                ==> final(lists)@ == old(lists)@,
            source is Some && old(lists)[source->0 as int].id != old(lists)[target as int].id ==> {
                &&& list_indices(final(lists)@) =~= moved(
                    list_indices(old(lists)@),
                    source->0 as int,
                    target as int,
                )
                &&& forall|k: int|
                    0 <= k < old(lists).len() ==> #[trigger] final(lists)[k] == list_at_index(
                        old(lists)[k],
                        moved(
                            list_indices(old(lists)@),
                            source->0 as int,
                            target as int,
                        )[k] as i32,
                    )
            },
    {
        match source {
            Some(source) => {
                if lists[source].id != lists[target].id {
                    move_list(lists, source, target);
                }
                DragAction::Move
            },
            None => DragAction::Empty,
        }
    }

    /// This list was dropped. It must be written only if its index is not
    /// the one that storage has.
    pub fn list_drop_target_drop(&self, stored: &List) -> (write: bool)
        ensures
            write == (self.list.index != stored.index),
    {
        self.list.index != stored.index
    }
}

} // verus!
