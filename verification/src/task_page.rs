//! The page of one task: the task, its subtasks and its records.

use vstd::prelude::*;
use crate::models::{Record, Task};

verus! {

/// The page of a task. Of its two lists, the subtasks and the records, the
/// records are always shown; the subtasks are shown on top of them while
/// `subtasks_shown` holds.
#[derive(Clone, Debug, PartialEq, Eq)]
pub struct TaskPage {
    pub task: Task,
    pub subtasks: Vec<Task>,
    pub records: Vec<Record>,
    pub subtasks_shown: bool,
}

/// `i` is the first place in `tasks` at which a task has the id `id`.
pub open spec fn first_subtask_with_id(tasks: Seq<Task>, id: i64, i: int) -> bool {
    &&& 0 <= i < tasks.len()
    &&& tasks[i].id == id
    &&& forall|j: int| 0 <= j < i ==> (#[trigger] tasks[j]).id != id
}

/// Whether a task of `tasks` has the id `id`.
pub open spec fn has_subtask(tasks: Seq<Task>, id: i64) -> bool {
    exists|i: int| first_subtask_with_id(tasks, id, i)
}

/// The subtasks after the row of `task` was brought up to date: `task`
/// stands in place of the first subtask with its id, if there is one, and
/// every other subtask is as it was.
pub open spec fn refreshed(subtasks: Seq<Task>, task: Task) -> Seq<Task> {
    if has_subtask(subtasks, task.id) {
        subtasks.update(choose|i: int| first_subtask_with_id(subtasks, task.id, i), task)
    } else {
        subtasks
    }
}

/// `m` is the place of the newest record: none has a greater id, and none
/// behind it has the same.
pub open spec fn is_newest(records: Seq<Record>, m: int) -> bool {
    &&& 0 <= m < records.len()
    &&& forall|j: int| 0 <= j < records.len() ==> (#[trigger] records[j]).id <= records[m].id
    &&& forall|j: int| m < j < records.len() ==> (#[trigger] records[j]).id < records[m].id
}

/// The first place of an id is the only first place of it.
pub proof fn lemma_first_subtask_is_unique(tasks: Seq<Task>, id: i64, i: int)
    requires
        first_subtask_with_id(tasks, id, i),
    ensures
        has_subtask(tasks, id),
        (choose|j: int| first_subtask_with_id(tasks, id, j)) == i,
{
    let c = choose|j: int| first_subtask_with_id(tasks, id, j);
    assert(first_subtask_with_id(tasks, id, c));
    if c < i {
        assert(tasks[c].id != id);
    } else if i < c {
        assert(tasks[i].id != id);
    }
}

impl TaskPage {
    /// The page of `task` with its subtasks and records, as first shown:
    /// with the subtasks on top.
    pub fn new(task: Task, subtasks: Vec<Task>, records: Vec<Record>) -> (r: Self)
        ensures
            r.task == task,
            r.subtasks == subtasks,
            r.records == records,
            r.subtasks_shown,
    {
        TaskPage { task, subtasks, records, subtasks_shown: true }
    }

    /// Whether the row of a subtask is shown: not while it is suspended.
    pub fn subtask_visible(subtask: &Task) -> (shown: bool)
        ensures
            shown == !subtask.suspended,
    {
        !subtask.suspended
    }

    /// Whether the row of `first` is shown before the row of `second`:
    /// records are shown from the latest start to the earliest, and of two
    /// that start together the second goes first.
    pub fn record_shown_before(first: &Record, second: &Record) -> (before: bool)
        ensures
            before == (first.start > second.start),
    {
        first.start > second.start
    }

    /// A record was made for the task: it gets a row behind the others.
    pub fn add_record(&mut self, record: Record)
        ensures
            final(self).records@ == old(self).records@.push(record),
            final(self).task == old(self).task,
            final(self).subtasks == old(self).subtasks,
            final(self).subtasks_shown == old(self).subtasks_shown,
    {
        self.records.push(record);
    }

    /// A subtask was made for the task: it gets a row before the others.
    pub fn add_subtask(&mut self, subtask: Task)
        ensures
            final(self).subtasks@ == old(self).subtasks@.insert(0, subtask),
            final(self).task == old(self).task,
            final(self).records == old(self).records,
            final(self).subtasks_shown == old(self).subtasks_shown,
    {
        self.subtasks.insert(0, subtask);
    }

    /// A row of the menu of lists was chosen: the first row shows the
    /// subtasks, the second the records alone. The menu has no other row.
    pub fn handle_lists_menu_row_activated(&mut self, index: i32)
        requires
            index == 0 || index == 1,
        ensures
            final(self).subtasks_shown == (index == 0),
            final(self).task == old(self).task,
            final(self).subtasks == old(self).subtasks,
            final(self).records == old(self).records,
    {
        self.subtasks_shown = index == 0;
    }

    /// The description was edited. Where the text differs from the task's
    /// description the task takes it and must be written; where it does not,
    /// nothing happens.
    pub fn handle_description_buffer_changed(&mut self, text: String) -> (write: bool)
        ensures
            write == (old(self).task.description@ != text@),
            write ==> final(self).task == (Task { description: text, ..old(self).task }),
            !write ==> final(self).task == old(self).task,
            final(self).subtasks == old(self).subtasks,
            final(self).records == old(self).records,
            final(self).subtasks_shown == old(self).subtasks_shown,
    {
        if self.task.description != text {
            self.task.description = text;
            true
        } else {
            false
        }
    }

    /// The records of the task were read again. Where their number is not
    /// the number of rows, the newest of them gets a row behind the others;
    /// the answer is its place in `stored`. There must be a record to show in
    /// that case.
    pub fn sync_records(&mut self, stored: &Vec<Record>) -> (added: Option<usize>)
        requires
            stored.len() > 0 || old(self).records.len() == 0,
        ensures
            final(self).task == old(self).task,
            final(self).subtasks == old(self).subtasks,
            final(self).subtasks_shown == old(self).subtasks_shown,
            added is Some <==> old(self).records.len() != stored.len(),
            match added {
                Some(m) => {
                    &&& is_newest(stored@, m as int)
                    &&& final(self).records@ == old(self).records@.push(stored[m as int])
                },
                None => final(self).records == old(self).records,
            },
    {
        if self.records.len() == stored.len() {
            return None;
        }
        let n = stored.len();
        let mut m: usize = 0;
        let mut j: usize = 1;
        while j < n
            invariant
                n == stored.len(),
                m < j <= n,
                forall|i: int| 0 <= i < j ==> (#[trigger] stored[i]).id <= stored[m as int].id,
                forall|i: int| m < i < j ==> (#[trigger] stored[i]).id < stored[m as int].id,
            decreases n - j,
        {
            if stored[j].id >= stored[m].id {
                m = j;
            }
            j += 1;
        }
        self.records.push(stored[m]);
        Some(m)
    }

    /// The task of a row was worked on elsewhere and comes back as `task`:
    /// it replaces the first subtask with its id, and no other row changes.
    /// The answer says whether there was such a subtask.
    pub fn refresh_subtask(&mut self, task: Task) -> (found: bool)
        ensures
            found == has_subtask(old(self).subtasks@, task.id),
            final(self).subtasks@ == refreshed(old(self).subtasks@, task),
            final(self).task == old(self).task,
            final(self).records == old(self).records,
            final(self).subtasks_shown == old(self).subtasks_shown,
    {
        let n = self.subtasks.len();
        let mut i: usize = 0;
        while i < n
            invariant
                *self == *old(self),
                n == self.subtasks.len(),
                i <= n,
                forall|j: int| 0 <= j < i ==> (#[trigger] self.subtasks[j]).id != task.id,
            decreases n - i,
        {
            if self.subtasks[i].id == task.id {
                proof {
                    lemma_first_subtask_is_unique(self.subtasks@, task.id, i as int);
                }
                self.subtasks[i] = task;
                return true;
            }
            i += 1;
        }
        false
    }

    /// Takes the suspension off the first subtask with the id `id`, as the
    /// undo of a toast asks. The answer is the place of that subtask.
    pub fn unsuspend_subtask(&mut self, id: i64) -> (place: Option<usize>)
        ensures
            final(self).task == old(self).task,
            final(self).records == old(self).records,
            final(self).subtasks_shown == old(self).subtasks_shown,
            match place {
                Some(i) => {
                    &&& first_subtask_with_id(old(self).subtasks@, id, i as int)
                    &&& final(self).subtasks@ == old(self).subtasks@.update(
                        i as int,
                        Task { suspended: false, ..old(self).subtasks[i as int] },
                    )
                },
                None => final(self).subtasks == old(self).subtasks && forall|j: int|
                    0 <= j < old(self).subtasks.len() ==> (#[trigger] old(self).subtasks[j]).id
                        != id,
            },
    {
        let n = self.subtasks.len();
        let mut i: usize = 0;
        while i < n
            invariant
                *self == *old(self),
                n == self.subtasks.len(),
                i <= n,
                forall|j: int| 0 <= j < i ==> (#[trigger] self.subtasks[j]).id != id,
            decreases n - i,
        {
            if self.subtasks[i].id == id {
                self.subtasks[i].suspended = false;
                return Some(i);
            }
            i += 1;
        }
        None
    }
}

} // verus!
