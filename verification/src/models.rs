//! Plain records that mirror the rows of the planner's storage.

use vstd::prelude::*;

verus! {

/// A task: a row of a list, or a subtask of another task.
#[derive(Clone, Debug, PartialEq, Eq)]
pub struct Task {
    pub id: i64,
    pub name: String,
    pub done: bool,
    pub project: i64,
    pub list: i64,
    pub duration: i64,
    pub position: i32,
    pub suspended: bool,
    pub parent: i64,
    pub description: String,
}

/// A list of tasks inside a project.
#[derive(Clone, Debug, PartialEq, Eq)]
pub struct List {
    pub id: i64,
    pub name: String,
    pub project: i64,
    pub index: i32,
}

/// A stretch of time spent on a task.
#[derive(Clone, Copy, PartialEq, Eq, Structural, Debug)]
pub struct Record {
    pub id: i64,
    pub start: i64,
    pub duration: i64,
    pub task: i64,
}

/// A project: a row of the sidebar.
#[derive(Clone, Debug, PartialEq, Eq)]
pub struct Project {
    pub id: i64,
    pub name: String,
    pub archive: bool,
    pub index: i32,
    pub icon: String,
    pub description: String,
}

/// The positions of a sequence of tasks.
pub open spec fn task_positions(tasks: Seq<Task>) -> Seq<int> {
    Seq::new(tasks.len(), |k: int| tasks[k].position as int)
}

/// The indices of a sequence of lists.
pub open spec fn list_indices(lists: Seq<List>) -> Seq<int> {
    Seq::new(lists.len(), |k: int| lists[k].index as int)
}

/// The task `t` with another position and, but for that, unchanged.
pub open spec fn task_at_position(t: Task, position: i32) -> Task {
    Task { position, ..t }
}

/// The list `l` with another index and, but for that, unchanged.
pub open spec fn list_at_index(l: List, index: i32) -> List {
    List { index, ..l }
}

/// The time spent on the tasks among `tasks` that stand directly under the
/// project `project`: its tasks that are no subtasks.
pub open spec fn total_duration(tasks: Seq<Task>, project: i64) -> int
    decreases tasks.len(),
{
    if tasks.len() == 0 {
        0
    } else {
        total_duration(tasks.drop_last(), project) + (if tasks.last().project == project
            && tasks.last().parent == 0 {
            tasks.last().duration as int
        } else {
            0
        })
    }
}

impl Project {
    /// A project with the given attributes.
    pub fn new(
        id: i64,
        name: String,
        archive: bool,
        index: i32,
        icon: String,
        description: String,
    ) -> (r: Self)
        ensures
            r == (Project { id, name, archive, index, icon, description }),
    {
        Project { id, name, archive, index, icon, description }
    }

    /// The time spent on the project, or nothing where the sum does not fit
    /// the machine's number.
    pub fn checked_duration(&self, tasks: &Vec<Task>) -> (total: Option<i64>)
        ensures
            total is Some <==> i64::MIN <= total_duration(tasks@, self.id) <= i64::MAX,
            total is Some ==> total->0 == total_duration(tasks@, self.id),
    {
        let n = tasks.len();
        let mut sum: i128 = 0;
        let mut k: usize = 0;
        while k < n
            invariant
                n == tasks.len(),
                k <= n,
                sum == total_duration(tasks@.take(k as int), self.id),
                -(k as int) * 0x8000_0000_0000_0000 <= sum <= (k as int) * 0x8000_0000_0000_0000,
            decreases n - k,
        {
            proof {
                assert(tasks@.take(k + 1).drop_last() =~= tasks@.take(k as int));
            }
            if tasks[k].project == self.id && tasks[k].parent == 0 {
                sum = sum + tasks[k].duration as i128;
            }
            k += 1;
        }
        proof {
            assert(tasks@.take(n as int) =~= tasks@);
        }
        if sum < i64::MIN as i128 || sum > i64::MAX as i128 {
            None
        } else {
            Some(sum as i64)
        }
    }

    /// The time spent on the project: the sum of the durations of its tasks
    /// that are no subtasks.
    pub fn duration(&self, tasks: &Vec<Task>) -> (total: i64)
        requires
            i64::MIN <= total_duration(tasks@, self.id) <= i64::MAX,
        ensures
            total == total_duration(tasks@, self.id),
    {
        match self.checked_duration(tasks) {
            Some(total) => total,
            None => 0,
        }
    }
}

impl Default for Project {
    /// The project that a fresh store starts with: the first, unnamed.
    fn default() -> (r: Self)
        ensures
            r.id == 1,
            r.name@ == Seq::<char>::empty(),
            !r.archive,
            r.index == 0,
            r.icon@ == Seq::<char>::empty(),
            r.description@ == Seq::<char>::empty(),
    {
        Project::new(1, String::new(), false, 0, String::new(), String::new())
    }
}

} // verus!
