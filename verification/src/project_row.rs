//! A project as a row of the sidebar, and what happens to the rows of the
//! sidebar when a drag is called off.

use vstd::prelude::*;
use crate::models::Project;

verus! {

/// The row of a project. The name of an archived project is dimmed.
#[derive(Clone, Debug, PartialEq, Eq)]
pub struct ProjectRow {
    pub project: Project,
    pub dimmed: bool,
}

/// `j` is the first place in `projects` at which a project has the id `id`.
pub open spec fn first_with_id(projects: Seq<Project>, id: i64, j: int) -> bool {
    &&& 0 <= j < projects.len()
    &&& projects[j].id == id
    &&& forall|i: int| 0 <= i < j ==> (#[trigger] projects[i]).id != id
}

/// Whether `projects` holds a project with the id `id`.
pub open spec fn is_stored(projects: Seq<Project>, id: i64) -> bool {
    exists|j: int| first_with_id(projects, id, j)
}

/// The index that storage has for the project with the id `id`: that of the
/// first project in `projects` with this id, or `current` where there is none.
pub open spec fn stored_index(projects: Seq<Project>, id: i64, current: i32) -> i32 {
    if is_stored(projects, id) {
        projects[choose|j: int| first_with_id(projects, id, j)].index
    } else {
        current
    }
}

/// The project `p` with the index that storage has for it.
pub open spec fn resynced(projects: Seq<Project>, p: Project) -> Project {
    Project { index: stored_index(projects, p.id, p.index), ..p }
}

/// Every row shows a project of `stored`, at the index that it has there.
pub open spec fn in_sync(rows: Seq<ProjectRow>, stored: Seq<Project>) -> bool {
    forall|k: int|
        0 <= k < rows.len() ==> is_stored(stored, (#[trigger] rows[k]).project.id)
            && stored_index(stored, rows[k].project.id, rows[k].project.index)
            == rows[k].project.index
}

/// The first project with the id `id`, looked up.
pub fn find_project(projects: &Vec<Project>, id: i64) -> (found: Option<usize>)
    ensures
        match found {
            Some(j) => first_with_id(projects@, id, j as int),
            None => !is_stored(projects@, id),
        },
{
    let n = projects.len();
    let mut j: usize = 0;
    while j < n
        invariant
            n == projects.len(),
            j <= n,
            forall|i: int| 0 <= i < j ==> (#[trigger] projects[i]).id != id,
        decreases n - j,
    {
        if projects[j].id == id {
            return Some(j);
        }
        j += 1;
    }
    None
}

/// The first place of an id is the only first place of it.
pub proof fn lemma_first_is_unique(projects: Seq<Project>, id: i64, j: int)
    requires
        first_with_id(projects, id, j),
    ensures
        is_stored(projects, id),
        (choose|i: int| first_with_id(projects, id, i)) == j,
{
    let c = choose|i: int| first_with_id(projects, id, i);
    assert(first_with_id(projects, id, c));
    if c < j {
        assert(projects[c].id != id);
    } else if j < c {
        assert(projects[j].id != id);
    }
}

impl ProjectRow {
    /// The row of `project`.
    pub fn new(project: Project) -> (r: Self)
        ensures
            r.project == project,
            r.dimmed == project.archive,
    {
        let dimmed = project.archive;
        ProjectRow { project, dimmed }
    }

    /// The project that the row shows.
    pub fn project(&self) -> (p: &Project)
        ensures
            *p == self.project,
    {
        &self.project
    }

    /// A drag of a sidebar row was called off. Whatever the drag did to the
    /// indices of the rows is undone: each row whose project is in
    /// `projects`, the projects as they are stored, gets the index that
    /// storage has for it. The answer is always `false`: the drag's own
    /// ending is left to run.
    pub fn handle_drag_cancel(rows: &mut Vec<ProjectRow>, projects: &Vec<Project>) -> (handled:
        bool)
        ensures
            !handled,
            final(rows).len() == old(rows).len(),
            forall|k: int|
                0 <= k < old(rows).len() ==> (#[trigger] final(rows)[k]).project == resynced(
                    projects@,
                    old(rows)[k].project,
                ) && final(rows)[k].dimmed == old(rows)[k].dimmed,
    {
        let n = rows.len();
        let mut k: usize = 0;
        while k < n
            invariant
                n == rows.len(),
                n == old(rows).len(),
                k <= n,
                forall|i: int|
                    0 <= i < k ==> (#[trigger] rows[i]).project == resynced(
                        projects@,
                        old(rows)[i].project,
                    ) && rows[i].dimmed == old(rows)[i].dimmed,
                forall|i: int| k <= i < n ==> #[trigger] rows[i] == old(rows)[i],
            decreases n - k,
        {
            match find_project(projects, rows[k].project.id) {
                Some(j) => {
                    proof {
                        lemma_first_is_unique(projects@, rows[k as int].project.id, j as int);
                    }
                    rows[k].project.index = projects[j].index;
                },
                None => {},
            }
            k += 1;
        }
        false
    }
}

/// Calling a drag off restores what was there before it began. If the rows
/// were in step with storage before the drag, and the drag changed nothing
/// but indices, then the indices that the cancellation hands out are those
/// from before the drag, whatever the drag had made of them.
pub proof fn lemma_cancel_restores(
    before: Seq<ProjectRow>,
    dragged: Seq<ProjectRow>,
    stored: Seq<Project>,
)
    requires
        in_sync(before, stored),
        dragged.len() == before.len(),
        forall|k: int| 0 <= k < before.len() ==> dragged[k].project.id == before[k].project.id,
    ensures
        forall|k: int|
            0 <= k < before.len() ==> (#[trigger] resynced(stored, dragged[k].project)).index
                == before[k].project.index,
{
    assert forall|k: int| 0 <= k < before.len() implies (#[trigger] resynced(
        stored,
        dragged[k].project,
    )).index == before[k].project.index by {
        assert(is_stored(stored, before[k].project.id));
    }
}

} // verus!
