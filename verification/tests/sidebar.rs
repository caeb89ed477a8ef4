use iplan::models::{Project, Task};
use iplan::project_row::{find_project, ProjectRow};

fn project(id: i64, index: i32) -> Project {
    Project::new(id, format!("p{}", id), false, index, String::from("i"), String::new())
}

fn task(project: i64, parent: i64, duration: i64) -> Task {
    Task {
        id: 1,
        name: String::new(),
        done: false,
        project,
        list: 1,
        duration,
        position: 0,
        suspended: false,
        parent,
        description: String::new(),
    }
}

#[test]
fn project_new_keeps_its_arguments() {
    let p = Project::new(
        7,
        String::from("Garden"),
        true,
        3,
        String::from("G"),
        String::from("beds and paths"),
    );
    assert_eq!(p.id, 7);
    assert_eq!(p.name, "Garden");
    assert!(p.archive);
    assert_eq!(p.index, 3);
    assert_eq!(p.icon, "G");
    assert_eq!(p.description, "beds and paths");
}

#[test]
fn project_default_is_the_first_and_unnamed() {
    let p = Project::default();
    assert_eq!(p, Project::new(1, String::new(), false, 0, String::new(), String::new()));
}

#[test]
fn project_duration_sums_its_own_top_level_tasks() {
    let p = project(2, 0);
    let tasks = vec![task(2, 0, 30), task(2, 5, 100), task(3, 0, 1000), task(2, 0, 12)];
    assert_eq!(p.duration(&tasks), 42);
    assert_eq!(p.checked_duration(&tasks), Some(42));
}

#[test]
fn project_duration_of_no_tasks_is_zero() {
    assert_eq!(project(2, 0).duration(&Vec::new()), 0);
}

#[test]
fn project_checked_duration_gives_up_on_overflow() {
    let p = project(2, 0);
    let tasks = vec![task(2, 0, i64::MAX), task(2, 0, 1)];
    assert_eq!(p.checked_duration(&tasks), None);
    let tasks = vec![task(2, 0, i64::MAX), task(2, 0, 1), task(2, 0, -1)];
    assert_eq!(p.checked_duration(&tasks), Some(i64::MAX));
    let tasks = vec![task(2, 0, i64::MIN), task(2, 0, -1)];
    assert_eq!(p.checked_duration(&tasks), None);
}

#[test]
fn project_row_of_an_archived_project_is_dimmed() {
    let mut p = project(1, 0);
    assert!(!ProjectRow::new(p.clone()).dimmed);
    p.archive = true;
    let row = ProjectRow::new(p.clone());
    assert!(row.dimmed);
    assert_eq!(*row.project(), p);
}

#[test]
fn find_project_gives_the_first_with_the_id() {
    let stored = vec![project(4, 0), project(5, 1), project(5, 2)];
    assert_eq!(find_project(&stored, 5), Some(1));
    assert_eq!(find_project(&stored, 4), Some(0));
    assert_eq!(find_project(&stored, 6), None);
    assert_eq!(find_project(&Vec::new(), 6), None);
}

#[test]
fn drag_cancel_restores_the_stored_indices() {
    let stored = vec![project(1, 0), project(2, 1), project(3, 2)];
    let mut rows: Vec<ProjectRow> = stored.iter().map(|p| ProjectRow::new(p.clone())).collect();
    let before = rows.clone();
    rows[0].project.index = 2;
    rows[1].project.index = 0;
    rows[2].project.index = 1;
    assert!(!ProjectRow::handle_drag_cancel(&mut rows, &stored));
    assert_eq!(rows, before);
}

#[test]
fn drag_cancel_whatever_the_drag_did() {
    let stored = vec![project(3, 2), project(1, 0), project(2, 1)];
    for a in -2..4 {
        for b in -2..4 {
            let mut rows =
                vec![ProjectRow::new(project(1, a)), ProjectRow::new(project(2, b))];
            assert!(!ProjectRow::handle_drag_cancel(&mut rows, &stored));
            assert_eq!(rows[0].project, project(1, 0));
            assert_eq!(rows[1].project, project(2, 1));
        }
    }
}

#[test]
fn drag_cancel_leaves_an_unstored_row_alone() {
    let stored = vec![project(1, 0)];
    let mut rows = vec![ProjectRow::new(project(9, 5)), ProjectRow::new(project(1, 3))];
    assert!(!ProjectRow::handle_drag_cancel(&mut rows, &stored));
    assert_eq!(rows[0].project, project(9, 5));
    assert_eq!(rows[1].project, project(1, 0));
}

#[test]
fn drag_cancel_keeps_everything_but_the_index() {
    let stored = vec![project(1, 4)];
    let mut shown = Project::new(
        1,
        String::from("shown"),
        true,
        0,
        String::from("s"),
        String::from("d"),
    );
    let mut rows = vec![ProjectRow::new(shown.clone())];
    assert!(!ProjectRow::handle_drag_cancel(&mut rows, &stored));
    shown.index = 4;
    assert_eq!(rows[0].project, shown);
    assert!(rows[0].dimmed);
}
