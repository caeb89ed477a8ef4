use iplan::models::{List, Task};
use iplan::order::{is_between, shifted_position};
use iplan::reorder::{
    lists_are_neighbours, move_list, move_task, take_task, tasks_are_neighbours,
};

fn task(id: i64, position: i32) -> Task {
    Task {
        id,
        name: format!("task {}", id),
        done: false,
        project: 1,
        list: 1,
        duration: 0,
        position,
        suspended: false,
        parent: 0,
        description: String::new(),
    }
}

fn scope(n: i32) -> Vec<Task> {
    let mut tasks = Vec::new();
    for p in 0..n {
        tasks.push(task(100 + p as i64, p));
    }
    tasks
}

fn list(id: i64, index: i32) -> List {
    List { id, name: format!("list {}", id), project: 1, index }
}

fn positions(tasks: &Vec<Task>) -> Vec<i32> {
    tasks.iter().map(|t| t.position).collect()
}

fn is_dense(positions: &Vec<i32>) -> bool {
    let mut sorted = positions.clone();
    sorted.sort();
    sorted == (0..positions.len() as i32).collect::<Vec<i32>>()
}

#[test]
fn shifted_position_between_target_and_source_steps_up() {
    assert_eq!(shifted_position(2, 5, 2), 3);
    assert_eq!(shifted_position(4, 5, 2), 5);
}

#[test]
fn shifted_position_between_source_and_target_steps_down() {
    assert_eq!(shifted_position(3, 0, 3), 2);
    assert_eq!(shifted_position(1, 0, 3), 0);
}

#[test]
fn shifted_position_outside_the_move_stays() {
    assert_eq!(shifted_position(1, 5, 2), 1);
    assert_eq!(shifted_position(6, 5, 2), 6);
    assert_eq!(shifted_position(5, 5, 2), 5);
    assert_eq!(shifted_position(0, 1, 3), 0);
    assert_eq!(shifted_position(4, 1, 3), 4);
}

#[test]
fn shifted_position_at_the_machine_limits() {
    assert_eq!(shifted_position(i32::MAX - 1, i32::MAX, i32::MIN), i32::MAX);
    assert_eq!(shifted_position(i32::MIN + 1, i32::MIN, i32::MAX), i32::MIN);
    assert_eq!(shifted_position(i32::MAX, i32::MAX, i32::MAX), i32::MAX);
}

#[test]
fn positions_between_two_others() {
    assert!(is_between(2, 1, 3));
    assert!(is_between(2, 3, 1));
    assert!(!is_between(1, 1, 3));
    assert!(!is_between(3, 1, 3));
    assert!(!is_between(2, 2, 2));
    assert!(is_between(0, i32::MIN, i32::MAX));
    assert!(!is_between(i32::MAX, i32::MIN, i32::MAX));
}

#[test]
fn neighbours_are_shown_next_to_each_other() {
    let tasks = vec![task(1, 0), task(2, 1), task(3, 3), task(4, 7)];
    assert!(tasks_are_neighbours(&tasks, 0, 1));
    assert!(tasks_are_neighbours(&tasks, 1, 0));
    assert!(tasks_are_neighbours(&tasks, 2, 1));
    assert!(tasks_are_neighbours(&tasks, 2, 3));
    assert!(!tasks_are_neighbours(&tasks, 0, 2));
    assert!(!tasks_are_neighbours(&tasks, 3, 1));
    assert!(!tasks_are_neighbours(&tasks, 2, 2));
    let lists = vec![list(1, 5), list(2, 0), list(3, 2)];
    assert!(lists_are_neighbours(&lists, 1, 2));
    assert!(lists_are_neighbours(&lists, 0, 2));
    assert!(!lists_are_neighbours(&lists, 0, 1));
    assert!(!lists_are_neighbours(&lists, 1, 1));
}

#[test]
fn move_onto_the_neighbour_across_a_gap_swaps_the_two() {
    let mut tasks = vec![task(1, 0), task(2, 1), task(3, 3)];
    move_task(&mut tasks, 2, 1);
    assert_eq!(positions(&tasks), vec![0, 3, 1]);
    let mut lists = vec![list(1, 0), list(2, 4), list(3, 9)];
    move_list(&mut lists, 0, 1);
    let indices: Vec<i32> = lists.iter().map(|l| l.index).collect();
    assert_eq!(indices, vec![4, 0, 9]);
}

#[test]
fn move_over_a_distance_in_a_scope_with_gaps() {
    let mut tasks = vec![task(1, 0), task(2, 2), task(3, 5)];
    move_task(&mut tasks, 2, 0);
    assert_eq!(positions(&tasks), vec![1, 3, 0]);
}

#[test]
fn adjacent_move_up_swaps_the_two() {
    let mut tasks = scope(5);
    move_task(&mut tasks, 3, 2);
    assert_eq!(positions(&tasks), vec![0, 1, 3, 2, 4]);
}

#[test]
fn adjacent_move_down_swaps_the_two() {
    let mut tasks = scope(5);
    move_task(&mut tasks, 1, 2);
    assert_eq!(positions(&tasks), vec![0, 2, 1, 3, 4]);
}

#[test]
fn move_from_five_to_two_in_six() {
    let mut tasks = scope(6);
    move_task(&mut tasks, 5, 2);
    assert_eq!(positions(&tasks), vec![0, 1, 3, 4, 5, 2]);
}

#[test]
fn move_from_zero_to_three_in_six() {
    let mut tasks = scope(6);
    move_task(&mut tasks, 0, 3);
    assert_eq!(positions(&tasks), vec![3, 0, 1, 2, 4, 5]);
}

#[test]
fn move_onto_itself_changes_nothing() {
    let mut tasks = scope(4);
    move_task(&mut tasks, 2, 2);
    assert_eq!(tasks, scope(4));
}

#[test]
fn move_changes_positions_only() {
    let mut tasks = scope(6);
    move_task(&mut tasks, 4, 1);
    for (k, t) in tasks.iter().enumerate() {
        let mut before = task(100 + k as i64, k as i32);
        before.position = t.position;
        assert_eq!(*t, before);
    }
}

#[test]
fn moves_keep_a_scope_dense() {
    let n = 7;
    for source in 0..n {
        for target in 0..n {
            let mut tasks = scope(n as i32);
            move_task(&mut tasks, source, target);
            assert!(is_dense(&positions(&tasks)));
            assert_eq!(tasks[source].position, target as i32);
        }
    }
}

#[test]
fn moves_in_a_shuffled_scope_keep_it_dense() {
    let order = vec![3, 0, 4, 1, 2];
    for source in 0..5 {
        for target in 0..5 {
            let mut tasks: Vec<Task> = Vec::new();
            for (k, p) in order.iter().enumerate() {
                tasks.push(task(k as i64, *p));
            }
            let target_p = tasks[target].position;
            move_task(&mut tasks, source, target);
            assert!(is_dense(&positions(&tasks)));
            assert_eq!(tasks[source].position, target_p);
        }
    }
}

#[test]
fn move_there_and_back_restores_the_scope() {
    let mut tasks = scope(6);
    move_task(&mut tasks, 1, 4);
    assert_eq!(positions(&tasks), vec![0, 4, 1, 2, 3, 5]);
    let holder = tasks.iter().position(|t| t.position == 1).unwrap();
    move_task(&mut tasks, 1, holder);
    assert_eq!(tasks, scope(6));
}

#[test]
fn move_list_from_three_to_zero() {
    let mut lists = vec![list(1, 0), list(2, 1), list(3, 2), list(4, 3)];
    move_list(&mut lists, 3, 0);
    let indices: Vec<i32> = lists.iter().map(|l| l.index).collect();
    assert_eq!(indices, vec![1, 2, 3, 0]);
    assert_eq!(lists[3], List { id: 4, name: String::from("list 4"), project: 1, index: 0 });
}

#[test]
fn move_list_onto_its_neighbour() {
    let mut lists = vec![list(1, 0), list(2, 1), list(3, 2)];
    move_list(&mut lists, 0, 1);
    let indices: Vec<i32> = lists.iter().map(|l| l.index).collect();
    assert_eq!(indices, vec![1, 0, 2]);
}

#[test]
fn take_task_closes_the_gap() {
    let mut tasks = scope(4);
    let taken = take_task(&mut tasks, 1);
    assert_eq!(taken, task(101, 1));
    assert_eq!(positions(&tasks), vec![0, 1, 2]);
    let ids: Vec<i64> = tasks.iter().map(|t| t.id).collect();
    assert_eq!(ids, vec![100, 102, 103]);
}

#[test]
fn take_last_task_moves_nobody() {
    let mut tasks = scope(3);
    let taken = take_task(&mut tasks, 2);
    assert_eq!(taken.id, 102);
    assert_eq!(tasks, scope(2));
}
