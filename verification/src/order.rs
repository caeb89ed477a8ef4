//! The arithmetic of positions.
//!
//! Siblings (the tasks of a list, the lists of a project, the projects of the
//! sidebar) each carry a position. The positions of a scope of `N` siblings
//! are dense: they are the numbers `0..N`, each taken once. Siblings are shown
//! sorted by position, so in a dense scope the place at which a sibling is
//! shown is its position. This module states, over plain sequences of
//! positions, what a move does and proves that moves keep scopes dense.

use vstd::prelude::*;
use vstd::set_lib::*;

verus! {

/// The positions lie in `0..N` and no two siblings share one.
pub open spec fn dense(ps: Seq<int>) -> bool {
    &&& forall|i: int| 0 <= i < ps.len() ==> 0 <= #[trigger] ps[i] < ps.len()
    &&& forall|i: int, j: int| 0 <= i < j < ps.len() ==> ps[i] != ps[j]
}

/// Whether the two positions differ by one.
pub open spec fn adjacent(a: int, b: int) -> bool {
    a - b == 1 || b - a == 1
}

/// Whether the position `p` lies strictly between the positions `a` and `b`.
pub open spec fn between(p: int, a: int, b: int) -> bool {
    a < p < b || b < p < a
}

/// Whether the siblings at `a` and `b` are shown next to each other: they
/// hold different positions and no sibling holds a position between the two.
pub open spec fn neighbours(ps: Seq<int>, a: int, b: int) -> bool {
    &&& ps[a] != ps[b]
    &&& forall|k: int| 0 <= k < ps.len() ==> !between(#[trigger] ps[k], ps[a], ps[b])
}

/// Where a bystander at position `p` ends up when a sibling leaves
/// `source_p` for `target_p`: those between the two make room by one step
/// towards the place that was left, the rest stay.
pub open spec fn shifted(p: int, source_p: int, target_p: int) -> int {
    if target_p <= p < source_p {
        p + 1
    } else if source_p < p <= target_p {
        p - 1
    } else {
        p
    }
}

/// The positions of a scope after the sibling at `source` was dragged onto
/// the sibling at `target`. Siblings shown next to each other exchange their
/// positions; otherwise
/// the dragged sibling takes the target's position and the siblings in
/// between shift by one.
pub open spec fn moved(ps: Seq<int>, source: int, target: int) -> Seq<int> {
    if neighbours(ps, source, target) {
        ps.update(source, ps[target]).update(target, ps[source])
    } else {
        Seq::new(
            ps.len(),
            |k: int|
                if k == source {
                    ps[target]
                } else {
                    shifted(ps[k], ps[source], ps[target])
                },
        )
    }
}

/// The positions of the siblings that remain after the one at `gone` left
/// the scope: those behind it step down by one to close the gap.
pub open spec fn closed(ps: Seq<int>, gone: int) -> Seq<int> {
    Seq::new(
        (ps.len() - 1) as nat,
        |k: int|
            {
                let p = ps.remove(gone)[k];
                if p > ps[gone] {
                    p - 1
                } else {
                    p
                }
            },
    )
}

/// The positions of a scope after a newcomer joined it at the end: it is
/// listed first and holds the position behind all others.
pub open spec fn joined(ps: Seq<int>) -> Seq<int> {
    ps.insert(0, ps.len() as int)
}

/// One position after a move, computed.
pub fn shifted_position(p: i32, source_p: i32, target_p: i32) -> (r: i32)
    ensures
        r == shifted(p as int, source_p as int, target_p as int),
{
    if target_p <= p && p < source_p {
        p + 1
    } else if source_p < p && p <= target_p {
        p - 1
    } else {
        p
    }
}

/// Whether a position lies strictly between two others, computed.
pub fn is_between(p: i32, a: i32, b: i32) -> (r: bool)
    ensures
        r == between(p as int, a as int, b as int),
{
    (a < p && p < b) || (b < p && p < a)
}

/// A dense scope holds exactly the positions `0..N`.
pub proof fn lemma_dense_is_range(ps: Seq<int>)
    requires
        dense(ps),
    ensures
        ps.to_set() =~= set_int_range(0, ps.len() as int),
        forall|p: int| 0 <= p < ps.len() ==> ps.contains(p),
{
    assert(ps.no_duplicates());
    ps.unique_seq_to_set();
    lemma_int_range(0, ps.len() as int);
    assert(ps.to_set().subset_of(set_int_range(0, ps.len() as int))) by {
        assert forall|p: int| ps.to_set().contains(p) implies set_int_range(
            0,
            ps.len() as int,
        ).contains(p) by {
            let i = choose|i: int| 0 <= i < ps.len() && ps[i] == p;
            assert(0 <= ps[i] < ps.len());
        }
    }
    lemma_subset_equality(ps.to_set(), set_int_range(0, ps.len() as int));
    assert forall|p: int| 0 <= p < ps.len() implies ps.contains(p) by {
        assert(set_int_range(0, ps.len() as int).contains(p));
        assert(ps.to_set().contains(p));
    }
}

/// In a dense scope the siblings shown next to each other are those whose
/// positions differ by one.
pub proof fn lemma_dense_neighbours(ps: Seq<int>, a: int, b: int)
    requires
        dense(ps),
        0 <= a < ps.len(),
        0 <= b < ps.len(),
    ensures
        neighbours(ps, a, b) <==> adjacent(ps[a], ps[b]),
{
    lemma_dense_is_range(ps);
    assert(0 <= ps[a] < ps.len());
    assert(0 <= ps[b] < ps.len());
    if neighbours(ps, a, b) && !adjacent(ps[a], ps[b]) {
        let mid = if ps[a] < ps[b] {
            ps[a] + 1
        } else {
            ps[b] + 1
        };
        assert(ps.contains(mid));
        let k = choose|k: int| 0 <= k < ps.len() && ps[k] == mid;
        assert(between(ps[k], ps[a], ps[b]));
    }
}

/// After any move inside a dense scope the scope is dense again: its
/// positions are the numbers `0..N`, with no gap and none twice.
pub proof fn lemma_move_keeps_dense(ps: Seq<int>, source: int, target: int)
    requires
        dense(ps),
        0 <= source < ps.len(),
        0 <= target < ps.len(),
    ensures
        moved(ps, source, target).len() == ps.len(),
        dense(moved(ps, source, target)),
        moved(ps, source, target).to_set() =~= set_int_range(0, ps.len() as int),
{
    let qs = moved(ps, source, target);
    assert(0 <= ps[source] < ps.len());
    assert(0 <= ps[target] < ps.len());
    assert forall|i: int| 0 <= i < qs.len() implies 0 <= #[trigger] qs[i] < qs.len() by {
        assert(0 <= ps[i] < ps.len());
    }
    assert forall|i: int, j: int| 0 <= i < j < qs.len() implies qs[i] != qs[j] by {
        assert(ps[i] != ps[j]);
        assert(i != source ==> ps[i] != ps[source]);
        assert(j != source ==> ps[j] != ps[source]);
        assert(i != target ==> ps[i] != ps[target]);
        assert(j != target ==> ps[j] != ps[target]);
    }
    lemma_dense_is_range(qs);
}

/// Dragging a sibling onto the one shown next to it exchanges the positions
/// of the two and leaves every other position as it was.
pub proof fn lemma_adjacent_move_swaps(ps: Seq<int>, source: int, target: int)
    requires
        0 <= source < ps.len(),
        0 <= target < ps.len(),
        neighbours(ps, source, target),
    ensures
        moved(ps, source, target).len() == ps.len(),
        moved(ps, source, target)[source] == ps[target],
        moved(ps, source, target)[target] == ps[source],
        forall|k: int|
            0 <= k < ps.len() && k != source && k != target ==> moved(ps, source, target)[k]
                == ps[k],
{
}

/// A move over a distance takes the dragged sibling to the target's position;
/// the siblings shown from the target up to the place that was left move by
/// one towards that place, and all others keep their positions.
pub proof fn lemma_distant_move_shifts(ps: Seq<int>, source: int, target: int)
    requires
        dense(ps),
        0 <= source < ps.len(),
        0 <= target < ps.len(),
    ensures
        moved(ps, source, target)[source] == ps[target],
        forall|k: int|
            0 <= k < ps.len() && k != source && ps[target] <= ps[k] < ps[source] ==> moved(
                ps,
                source,
                target,
            )[k] == ps[k] + 1,
        forall|k: int|
            0 <= k < ps.len() && k != source && ps[source] < ps[k] <= ps[target] ==> moved(
                ps,
                source,
                target,
            )[k] == ps[k] - 1,
        forall|k: int|
            0 <= k < ps.len() && (ps[k] < ps[source] && ps[k] < ps[target] || ps[k] > ps[source]
                && ps[k] > ps[target]) ==> moved(ps, source, target)[k] == ps[k],
{
    let qs = moved(ps, source, target);
    lemma_dense_neighbours(ps, source, target);
    assert forall|k: int|
        0 <= k < ps.len() && k != source && ps[target] <= ps[k] < ps[source] implies qs[k]
        == ps[k] + 1 by {
        if neighbours(ps, source, target) {
            assert(ps[k] == ps[target]);
            assert(k == target) by {
                if k < target {
                    assert(ps[k] != ps[target]);
                } else if target < k {
                    assert(ps[target] != ps[k]);
                }
            }
        }
    }
    assert forall|k: int|
        0 <= k < ps.len() && k != source && ps[source] < ps[k] <= ps[target] implies qs[k]
        == ps[k] - 1 by {
        if neighbours(ps, source, target) {
            assert(ps[k] == ps[target]);
            assert(k == target) by {
                if k < target {
                    assert(ps[k] != ps[target]);
                } else if target < k {
                    assert(ps[target] != ps[k]);
                }
            }
        }
    }
}

/// Dragging a sibling away and then back onto whoever now holds its first
/// position restores every position of a dense scope.
pub proof fn lemma_move_back_restores(ps: Seq<int>, source: int, target: int, holder: int)
    requires
        dense(ps),
        0 <= source < ps.len(),
        0 <= target < ps.len(),
        0 <= holder < ps.len(),
        moved(ps, source, target)[holder] == ps[source],
    ensures
        moved(moved(ps, source, target), source, holder) =~= ps,
{
    let qs = moved(ps, source, target);
    lemma_move_keeps_dense(ps, source, target);
    lemma_distant_move_shifts(ps, source, target);
    lemma_dense_neighbours(ps, source, target);
    lemma_dense_neighbours(qs, source, holder);
    let rs = moved(qs, source, holder);
    assert(rs.len() == ps.len());
    assert forall|k: int| 0 <= k < ps.len() implies rs[k] == ps[k] by {
        assert(0 <= ps[k] < ps.len());
        assert(k != source ==> ps[k] != ps[source]) by {
            if k < source {
                assert(ps[k] != ps[source]);
            } else if source < k {
                assert(ps[source] != ps[k]);
            }
        }
        assert(k != holder ==> qs[k] != qs[holder]) by {
            if k < holder {
                assert(qs[k] != qs[holder]);
            } else if holder < k {
                assert(qs[holder] != qs[k]);
            }
        }
        assert(k != target ==> ps[k] != ps[target]) by {
            if k < target {
                assert(ps[k] != ps[target]);
            } else if target < k {
                assert(ps[target] != ps[k]);
            }
        }
    }
}

/// When a sibling leaves a dense scope and the gap is closed, the scope is
/// dense again, with one position fewer.
pub proof fn lemma_leave_keeps_dense(from: Seq<int>, gone: int)
    requires
        dense(from),
        0 <= gone < from.len(),
    ensures
        closed(from, gone).len() == from.len() - 1,
        dense(closed(from, gone)),
{
    let cs = closed(from, gone);
    assert forall|i: int| 0 <= i < cs.len() implies 0 <= #[trigger] cs[i] < cs.len() by {
        let o = if i < gone { i } else { i + 1 };
        assert(from.remove(gone)[i] == from[o]);
        assert(0 <= from[o] < from.len());
        assert(0 <= from[gone] < from.len());
        if o < gone {
            assert(from[o] != from[gone]);
        } else {
            assert(from[gone] != from[o]);
        }
    }
    assert forall|i: int, j: int| 0 <= i < j < cs.len() implies cs[i] != cs[j] by {
        let oi = if i < gone { i } else { i + 1 };
        let oj = if j < gone { j } else { j + 1 };
        assert(from.remove(gone)[i] == from[oi]);
        assert(from.remove(gone)[j] == from[oj]);
        assert(from[oi] != from[oj]);
        if oi < gone {
            assert(from[oi] != from[gone]);
        } else {
            assert(from[gone] != from[oi]);
        }
        if oj < gone {
            assert(from[oj] != from[gone]);
        } else {
            assert(from[gone] != from[oj]);
        }
    }
}

/// When a newcomer joins a dense scope at the end, the scope is dense again,
/// with one position more, and the newcomer holds the last.
pub proof fn lemma_join_keeps_dense(to: Seq<int>)
    requires
        dense(to),
    ensures
        joined(to).len() == to.len() + 1,
        dense(joined(to)),
        joined(to)[0] == to.len(),
        forall|i: int| 0 <= i < to.len() ==> joined(to)[i + 1] == to[i],
{
    let js = joined(to);
    assert forall|i: int| 0 <= i < js.len() implies 0 <= #[trigger] js[i] < js.len() by {
        if i > 0 {
            assert(js[i] == to[i - 1]);
        }
    }
    assert forall|i: int, j: int| 0 <= i < j < js.len() implies js[i] != js[j] by {
        assert(js[j] == to[j - 1]);
        if i > 0 {
            assert(js[i] == to[i - 1]);
        }
    }
}

/// When a sibling leaves one dense scope for the end of another, both scopes
/// are dense afterwards: the one it left holds the positions `0..N-1`, the
/// one it joined the positions `0..M+1`, and the newcomer holds the last of
/// them, `M`.
pub proof fn lemma_transfer_keeps_dense(from: Seq<int>, gone: int, to: Seq<int>)
    requires
        dense(from),
        dense(to),
        0 <= gone < from.len(),
    ensures
        dense(closed(from, gone)),
        closed(from, gone).to_set() =~= set_int_range(0, from.len() - 1),
        dense(joined(to)),
        joined(to).to_set() =~= set_int_range(0, to.len() as int + 1),
        joined(to)[0] == to.len(),
{
    lemma_leave_keeps_dense(from, gone);
    lemma_join_keeps_dense(to);
    lemma_dense_is_range(closed(from, gone));
    lemma_dense_is_range(joined(to));
}

} // verus!
