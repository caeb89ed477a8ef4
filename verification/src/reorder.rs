//! Moves of tasks and lists, carried out on the records themselves.

use vstd::prelude::*;
use crate::models::{list_at_index, list_indices, task_at_position, task_positions, List, Task};
use crate::order::{
    between, closed, dense, is_between, lemma_leave_keeps_dense, lemma_move_keeps_dense, moved,
    neighbours, shifted, shifted_position,
};

verus! {

/// Whether the tasks at `a` and `b` are shown next to each other.
pub fn tasks_are_neighbours(tasks: &Vec<Task>, a: usize, b: usize) -> (r: bool)
    requires
        a < tasks.len(),
        b < tasks.len(),
    ensures
        r == neighbours(task_positions(tasks@), a as int, b as int),
{
    let first = tasks[a].position;
    let second = tasks[b].position;
    if first == second {
        return false;
    }
    let ghost ps = task_positions(tasks@);
    let n = tasks.len();
    let mut k: usize = 0;
    while k < n
        invariant
            n == tasks.len(),
            k <= n,
            ps == task_positions(tasks@),
            first == ps[a as int],
            second == ps[b as int],
            forall|j: int| 0 <= j < k ==> !between(#[trigger] ps[j], ps[a as int], ps[b as int]),
        decreases n - k,
    {
        if is_between(tasks[k].position, first, second) {
            assert(between(ps[k as int], ps[a as int], ps[b as int]));
            return false;
        }
        k += 1;
    }
    true
}

/// Whether the lists at `a` and `b` are shown next to each other.
pub fn lists_are_neighbours(lists: &Vec<List>, a: usize, b: usize) -> (r: bool)
    requires
        a < lists.len(),
        b < lists.len(),
    ensures
        r == neighbours(list_indices(lists@), a as int, b as int),
{
    let first = lists[a].index;
    let second = lists[b].index;
    if first == second {
        return false;
    }
    let ghost ps = list_indices(lists@);
    let n = lists.len();
    let mut k: usize = 0;
    while k < n
        invariant
            n == lists.len(),
            k <= n,
            ps == list_indices(lists@),
            first == ps[a as int],
            second == ps[b as int],
            forall|j: int| 0 <= j < k ==> !between(#[trigger] ps[j], ps[a as int], ps[b as int]),
        decreases n - k,
    {
        if is_between(lists[k].index, first, second) {
            assert(between(ps[k as int], ps[a as int], ps[b as int]));
            return false;
        }
        k += 1;
    }
    true
}

/// Drags the task at `source` onto the task at `target`: the positions of
/// the scope change as `moved` says, and nothing else does.
pub fn move_task(tasks: &mut Vec<Task>, source: usize, target: usize)
    requires
        source < old(tasks).len(),
        target < old(tasks).len(),
    ensures
        final(tasks).len() == old(tasks).len(),
        dense(task_positions(old(tasks)@)) ==> dense(task_positions(final(tasks)@)),
        task_positions(final(tasks)@) =~= moved(
            task_positions(old(tasks)@),
            source as int,
            target as int,
        ),
        forall|k: int|
            0 <= k < old(tasks).len() ==> #[trigger] final(tasks)[k] == task_at_position(
                old(tasks)[k],
                moved(task_positions(old(tasks)@), source as int, target as int)[k] as i32,
            ),
{
    proof {
        if dense(task_positions(tasks@)) {
            lemma_move_keeps_dense(task_positions(tasks@), source as int, target as int);
        }
    }
    let source_p = tasks[source].position;
    let target_p = tasks[target].position;
    if tasks_are_neighbours(tasks, source, target) {
        tasks[source].position = target_p;
        tasks[target].position = source_p;
    } else {
        let n = tasks.len();
        let mut k: usize = 0;
        while k < n
            invariant
                n == tasks.len(),
                n == old(tasks).len(),
                k <= n,
                source < n,
                target < n,
                source_p == old(tasks)[source as int].position,
                target_p == old(tasks)[target as int].position,
                forall|j: int|
                    0 <= j < k ==> #[trigger] tasks[j] == task_at_position(
                        old(tasks)[j],
                        tasks[j].position,
                    ),
                forall|j: int|
                    0 <= j < k && j != source ==> (#[trigger] tasks[j]).position == shifted(
                        old(tasks)[j].position as int,
                        source_p as int,
                        target_p as int,
                    ),
                source < k ==> tasks[source as int].position == target_p,
                forall|j: int| k <= j < n ==> #[trigger] tasks[j] == old(tasks)[j],
            decreases n - k,
        {
            if k == source {
                tasks[k].position = target_p;
            } else {
                let p = tasks[k].position;
                tasks[k].position = shifted_position(p, source_p, target_p);
            }
            k += 1;
        }
    }
    assert(task_positions(tasks@) =~= moved(
        task_positions(old(tasks)@),
        source as int,
        target as int,
    ));
}

/// Drags the list at `source` onto the list at `target`: the indices of the
/// scope change as `moved` says, and nothing else does.
pub fn move_list(lists: &mut Vec<List>, source: usize, target: usize)
    requires
        source < old(lists).len(),
        target < old(lists).len(),
    ensures
        final(lists).len() == old(lists).len(),
        dense(list_indices(old(lists)@)) ==> dense(list_indices(final(lists)@)),
        list_indices(final(lists)@) =~= moved(
            list_indices(old(lists)@),
            source as int,
            target as int,
        ),
        forall|k: int|
            0 <= k < old(lists).len() ==> #[trigger] final(lists)[k] == list_at_index(
                old(lists)[k],
                moved(list_indices(old(lists)@), source as int, target as int)[k] as i32,
            ),
{
    proof {
        if dense(list_indices(lists@)) {
            lemma_move_keeps_dense(list_indices(lists@), source as int, target as int);
        }
    }
    let source_i = lists[source].index;
    let target_i = lists[target].index;
    if lists_are_neighbours(lists, source, target) {
        lists[source].index = target_i;
        lists[target].index = source_i;
    } else {
        let n = lists.len();
        let mut k: usize = 0;
        while k < n
            invariant
                n == lists.len(),
                n == old(lists).len(),
                k <= n,
                source < n,
                target < n,
                source_i == old(lists)[source as int].index,
                target_i == old(lists)[target as int].index,
                forall|j: int|
                    0 <= j < k ==> #[trigger] lists[j] == list_at_index(
                        old(lists)[j],
                        lists[j].index,
                    ),
                forall|j: int|
                    0 <= j < k && j != source ==> (#[trigger] lists[j]).index == shifted(
                        old(lists)[j].index as int,
                        source_i as int,
                        target_i as int,
                    ),
                source < k ==> lists[source as int].index == target_i,
                forall|j: int| k <= j < n ==> #[trigger] lists[j] == old(lists)[j],
            decreases n - k,
        {
            if k == source {
                lists[k].index = target_i;
            } else {
                let i = lists[k].index;
                lists[k].index = shifted_position(i, source_i, target_i);
            }
            k += 1;
        }
    }
    assert(list_indices(lists@) =~= moved(list_indices(old(lists)@), source as int, target as int));
}

/// Takes the task at `source` out of its scope and closes the gap: the
/// tasks behind it step down by one, as `closed` says.
pub fn take_task(tasks: &mut Vec<Task>, source: usize) -> (task: Task)
    requires
        source < old(tasks).len(),
    ensures
        task == old(tasks)[source as int],
        final(tasks).len() == old(tasks).len() - 1,
        dense(task_positions(old(tasks)@)) ==> dense(task_positions(final(tasks)@)),
        task_positions(final(tasks)@) =~= closed(task_positions(old(tasks)@), source as int),
        forall|k: int|
            0 <= k < final(tasks).len() ==> #[trigger] final(tasks)[k] == task_at_position(
                old(tasks)@.remove(source as int)[k],
                closed(task_positions(old(tasks)@), source as int)[k] as i32,
            ),
{
    proof {
        if dense(task_positions(tasks@)) {
            lemma_leave_keeps_dense(task_positions(tasks@), source as int);
        }
    }
    let task = tasks.remove(source);
    let ghost rest = tasks@;
    assert(task_positions(old(tasks)@).remove(source as int) =~= task_positions(rest));
    let n = tasks.len();
    let mut k: usize = 0;
    while k < n
        invariant
            n == tasks.len(),
            n == rest.len(),
            k <= n,
            forall|j: int|
                0 <= j < k ==> #[trigger] tasks[j] == task_at_position(rest[j], tasks[j].position),
            forall|j: int|
                0 <= j < k ==> (#[trigger] tasks[j]).position == (if rest[j].position
                    > task.position {
                    rest[j].position - 1
                } else {
                    rest[j].position as int
                }),
            forall|j: int| k <= j < n ==> #[trigger] tasks[j] == rest[j],
        decreases n - k,
    {
        let p = tasks[k].position;
        if p > task.position {
            tasks[k].position = p - 1;
        }
        k += 1;
    }
    assert(task_positions(tasks@) =~= closed(task_positions(old(tasks)@), source as int));
    task
}

} // verus!
