//! View models of a task and project planner: projects, lists and tasks, the
//! bookkeeping that keeps the positions of siblings dense while rows are
//! dragged around, and the stack of task pages inside a task window.

pub mod models;
pub mod order;
pub mod reorder;
pub mod project_list;
pub mod project_row;
pub mod task_page;
pub mod task_window;
pub mod text;
pub mod drag;
