//! The window of a task: a stack of task pages, entered by opening a
//! subtask of the page on top and left by going back to its parent.

use vstd::prelude::*;
use crate::models::{Record, Task};
use crate::task_page::{refreshed, TaskPage};

verus! {

/// The direction in which the pages slide when the page on top changes.
#[derive(Clone, Copy, PartialEq, Eq, Structural, Debug)]
pub enum StackTransition {
    /// Towards a subtask.
    SlideLeft,
    /// Back to the parent.
    SlideRight,
}

/// The window that a task window was opened from.
#[derive(Clone, Copy, PartialEq, Eq, Structural, Debug)]
pub enum Owner {
    MainWindow,
    DoneTasksWindow,
    Other,
}

/// What becomes of a toast about a task, and of the window with it.
#[derive(Clone, Copy, PartialEq, Eq, Structural, Debug)]
pub enum ToastAction {
    /// The window shows the toast and stays as it is.
    ShowHere,
    /// The window closes; the main window shows the toast, whose button
    /// opens the project again.
    CloseForMainWindow,
    /// The window closes; the window of done tasks shows the toast, whose
    /// button takes the suspension off the task's row there.
    CloseForDoneTasksWindow,
    /// The window closes and nobody shows the toast.
    Close,
    /// The window went back to the parent's page and shows the toast, whose
    /// button takes the suspension off the task's row on that page.
    BackThenShowHere,
}

/// A task window. The page on top of `pages` is the one that is shown;
/// `parent_task` is the id of the task to go back to, 0 where there is none.
#[derive(Clone, Debug, PartialEq, Eq)]
pub struct TaskWindow {
    pub parent_task: i64,
    pub pages: Vec<TaskPage>,
    pub back_button_visible: bool,
    pub back_button_label: String,
}

/// What a toast about a task with the parent `task_parent` leads to in a
/// window whose parent task is `parent_task` and that `owner` opened. A toast
/// about any other task than one shown on top is shown in place. One about
/// the root task closes the window and goes to its owner. One about a subtask
/// takes the window back to the parent.
pub open spec fn toast_action(parent_task: i64, task_parent: i64, owner: Owner) -> ToastAction {
    if parent_task != task_parent {
        ToastAction::ShowHere
    } else if task_parent == 0 {
        match owner {
            Owner::MainWindow => ToastAction::CloseForMainWindow,
            Owner::DoneTasksWindow => ToastAction::CloseForDoneTasksWindow,
            Owner::Other => ToastAction::Close,
        }
    } else {
        ToastAction::BackThenShowHere
    }
}

/// `after` is `before` gone back by one page: the top page is gone, the page
/// below it is on top with the row of the task that was left brought up to
/// date, and the parent task is the parent of the task now on top. Without
/// such a parent the back button is hidden; with one it stays as it was. Its
/// label stays until it is set anew.
pub open spec fn went_back(before: TaskWindow, after: TaskWindow) -> bool {
    let n = before.pages.len() as int;
    &&& after.pages.len() == n - 1
    &&& forall|i: int| 0 <= i < n - 2 ==> #[trigger] after.pages[i] == before.pages[i]
    &&& after.pages[n - 2].task == before.pages[n - 2].task
    &&& after.pages[n - 2].subtasks@ == refreshed(
        before.pages[n - 2].subtasks@,
        before.pages[n - 1].task,
    )
    &&& after.pages[n - 2].records == before.pages[n - 2].records
    &&& after.pages[n - 2].subtasks_shown == before.pages[n - 2].subtasks_shown
    &&& after.parent_task == before.pages[n - 2].task.parent
    &&& after.back_button_visible == (after.parent_task != 0 && before.back_button_visible)
    &&& after.back_button_label == before.back_button_label
}

impl TaskWindow {
    /// There is a page, each page above the first is the page of a subtask
    /// of the task below it, and the parent task is the task of the page
    /// below the top, if there is one.
    pub open spec fn wf(&self) -> bool {
        &&& self.pages.len() >= 1
        &&& forall|i: int|
            1 <= i < self.pages.len() ==> (#[trigger] self.pages[i]).task.parent == self.pages[i
                - 1].task.id
        &&& self.pages.len() >= 2 ==> self.parent_task == self.pages[self.pages.len()
            - 2].task.id
    }

    /// The window is at its root: one page, and no task to go back to.
    pub open spec fn at_root(&self) -> bool {
        self.pages.len() == 1 && self.parent_task == 0
    }

    /// A window on the page of a task. It starts at its root, with no way
    /// back.
    pub fn new(page: TaskPage) -> (r: Self)
        ensures
            r.wf(),
            r.at_root(),
            r.pages@ == seq![page],
            !r.back_button_visible,
            r.back_button_label@ == Seq::<char>::empty(),
    {
        let mut pages: Vec<TaskPage> = Vec::new();
        pages.push(page);
        TaskWindow {
            parent_task: 0,
            pages,
            back_button_visible: false,
            back_button_label: String::new(),
        }
    }

    /// Whether the window is as `wf` asks, computed.
    pub fn is_well_formed(&self) -> (ok: bool)
        ensures
            ok == self.wf(),
    {
        let n = self.pages.len();
        if n == 0 {
            return false;
        }
        let mut i: usize = 1;
        while i < n
            invariant
                n == self.pages.len(),
                1 <= i <= n,
                forall|j: int|
                    1 <= j < i ==> (#[trigger] self.pages[j]).task.parent == self.pages[j
                        - 1].task.id,
            decreases n - i,
        {
            if self.pages[i].task.parent != self.pages[i - 1].task.id {
                return false;
            }
            i += 1;
        }
        n < 2 || self.parent_task == self.pages[n - 2].task.id
    }

    /// The id of the task to go back to, 0 where there is none.
    pub fn parent_task(&self) -> (id: i64)
        ensures
            id == self.parent_task,
    {
        self.parent_task
    }

    /// Whether there is a page below the one on top.
    pub fn can_go_back(&self) -> (r: bool)
        ensures
            r == (self.pages.len() >= 2),
    {
        self.pages.len() >= 2
    }

    /// Opens the page of a subtask of the task on top. The page goes on top
    /// of the stack, sliding in from the right; the task that was on top
    /// becomes the parent task and lends the back button its name. A page of
    /// any other task is not opened, and the window stays as it is.
    pub fn open_subtask(&mut self, page: TaskPage) -> (opened: Option<StackTransition>)
        requires
            old(self).wf(),
        ensures
            final(self).wf(),
            opened is Some <==> page.task.parent == old(self).pages@.last().task.id,
            opened is Some ==> {
                &&& opened->0 == StackTransition::SlideLeft
                &&& final(self).pages@ == old(self).pages@.push(page)
                &&& final(self).parent_task == old(self).pages@.last().task.id
                &&& final(self).back_button_visible
                &&& final(self).back_button_label == old(self).pages@.last().task.name
            },
            opened is None ==> *final(self) == *old(self),
    {
        let top = self.pages.len() - 1;
        if page.task.parent != self.pages[top].task.id {
            return None;
        }
        self.parent_task = self.pages[top].task.id;
        self.back_button_label = self.pages[top].task.name.clone();
        self.back_button_visible = true;
        self.pages.push(page);
        Some(StackTransition::SlideLeft)
    }

    /// A record was made for the task on top: its page gets the row.
    pub fn add_record(&mut self, record: Record)
        requires
            old(self).wf(),
        ensures
            final(self).wf(),
            final(self).parent_task == old(self).parent_task,
            final(self).back_button_visible == old(self).back_button_visible,
            final(self).back_button_label == old(self).back_button_label,
            final(self).pages.len() == old(self).pages.len(),
            forall|i: int|
                0 <= i < old(self).pages.len() - 1 ==> #[trigger] final(self).pages[i]
                    == old(self).pages[i],
            final(self).pages@.last().records@ == old(self).pages@.last().records@.push(record),
            final(self).pages@.last().task == old(self).pages@.last().task,
            final(self).pages@.last().subtasks == old(self).pages@.last().subtasks,
            final(self).pages@.last().subtasks_shown == old(self).pages@.last().subtasks_shown,
    {
        let top = self.pages.len() - 1;
        self.pages[top].add_record(record);
    }

    /// Goes back to the parent: the page on top is removed, sliding out to
    /// the right, and the page of the parent task, the one below it, is
    /// shown with the task that was left as it is now. There must be a page
    /// below.
    pub fn handle_back_button_clicked(&mut self) -> (transition: StackTransition)
        requires
            old(self).wf(),
            old(self).pages.len() >= 2,
        ensures
            final(self).wf(),
            went_back(*old(self), *final(self)),
            final(self).pages@.last().task.id == old(self).parent_task,
            transition == StackTransition::SlideRight,
    {
        let from_page = self.pages.pop().unwrap();
        let top = self.pages.len() - 1;
        self.pages[top].refresh_subtask(from_page.task);
        let parent_id = self.pages[top].task.parent;
        self.parent_task = parent_id;
        if parent_id == 0 {
            self.back_button_visible = false;
        }
        StackTransition::SlideRight
    }

    /// The task to go back to was read: the back button takes its name.
    pub fn set_back_label(&mut self, parent: &Task)
        requires
            old(self).parent_task != 0,
            parent.id == old(self).parent_task,
        ensures
            final(self).back_button_label == parent.name,
            final(self).parent_task == old(self).parent_task,
            final(self).pages == old(self).pages,
            final(self).back_button_visible == old(self).back_button_visible,
    {
        self.back_button_label = parent.name.clone();
    }

    /// A toast is to be shown about `task`, which was checked off or
    /// removed. What happens is `toast_action` of the window's parent task,
    /// the task's parent and the owner; only going back changes the window.
    /// Going back needs a page below the one on top.
    pub fn add_toast(&mut self, task: &Task, owner: Owner) -> (action: ToastAction)
        requires
            old(self).wf(),
            old(self).parent_task == task.parent && task.parent != 0 ==> old(self).pages.len()
                >= 2,
        ensures
            final(self).wf(),
            action == toast_action(old(self).parent_task, task.parent, owner),
            action == ToastAction::BackThenShowHere ==> went_back(*old(self), *final(self))
                && final(self).pages@.last().task.id == old(self).parent_task,
            action != ToastAction::BackThenShowHere ==> *final(self) == *old(self),
    {
        if self.parent_task != task.parent {
            return ToastAction::ShowHere;
        }
        if task.parent == 0 {
            match owner {
                Owner::MainWindow => ToastAction::CloseForMainWindow,
                Owner::DoneTasksWindow => ToastAction::CloseForDoneTasksWindow,
                Owner::Other => ToastAction::Close,
            }
        } else {
            self.handle_back_button_clicked();
            ToastAction::BackThenShowHere
        }
    }
}

} // verus!
