//! The course of one drag: it is prepared, moves any number of times, and
//! ends dropped or called off. Moves renumber what is in memory; only the
//! drop writes, and only a drag that is called off reads storage again.

use vstd::prelude::*;

verus! {

/// Where a drag stands. The number is the id of what is dragged.
#[derive(Clone, Copy, PartialEq, Eq, Structural, Debug)]
pub enum DragState {
    Idle,
    Dragging(i64),
    Dropped(i64),
    Cancelled(i64),
}

/// What the toolkit reports of a drag.
#[derive(Clone, Copy, PartialEq, Eq, Structural, Debug)]
pub enum DragEvent {
    /// A drag of the item with this id begins.
    Prepare(i64),
    /// The drag moved over a target.
    Motion,
    /// The drag was dropped.
    Drop,
    /// The drag was called off.
    Cancel,
}

/// What is to be done about an event.
#[derive(Clone, Copy, PartialEq, Eq, Structural, Debug)]
pub enum DragEffect {
    Nothing,
    /// Renumber the siblings in memory.
    Renumber,
    /// Write the dragged item if it is not where storage has it.
    WriteIfMoved,
    /// Read storage again and take its positions.
    Resync,
}

/// The state after `event` came in `state`. A drag begins unless one is
/// under way; only a drag under way moves, drops or is called off; any other
/// event leaves the state as it is.
pub open spec fn next_state(state: DragState, event: DragEvent) -> DragState {
    match (state, event) {
        (DragState::Dragging(id), DragEvent::Motion) => DragState::Dragging(id),
        (DragState::Dragging(id), DragEvent::Drop) => DragState::Dropped(id),
        (DragState::Dragging(id), DragEvent::Cancel) => DragState::Cancelled(id),
        (DragState::Dragging(id), DragEvent::Prepare(_)) => DragState::Dragging(id),
        (_, DragEvent::Prepare(id)) => DragState::Dragging(id),
        (_, _) => state,
    }
}

/// What `event` asks for when it comes in `state`: events of a drag under
/// way ask for what their kind says, all others for nothing.
pub open spec fn effect_of(state: DragState, event: DragEvent) -> DragEffect {
    match (state, event) {
        (DragState::Dragging(_), DragEvent::Motion) => DragEffect::Renumber,
        (DragState::Dragging(_), DragEvent::Drop) => DragEffect::WriteIfMoved,
        (DragState::Dragging(_), DragEvent::Cancel) => DragEffect::Resync,
        (_, _) => DragEffect::Nothing,
    }
}

/// Takes one event of a drag: the answer is the state that follows and what
/// is to be done.
pub fn drag_step(state: DragState, event: DragEvent) -> (r: (DragState, DragEffect))
    ensures
        r.0 == next_state(state, event),
        r.1 == effect_of(state, event),
{
    match state {
        DragState::Dragging(id) => match event {
            DragEvent::Motion => (DragState::Dragging(id), DragEffect::Renumber),
            DragEvent::Drop => (DragState::Dropped(id), DragEffect::WriteIfMoved),
            DragEvent::Cancel => (DragState::Cancelled(id), DragEffect::Resync),
            DragEvent::Prepare(_) => (DragState::Dragging(id), DragEffect::Nothing),
        },
        _ => match event {
            DragEvent::Prepare(id) => (DragState::Dragging(id), DragEffect::Nothing),
            _ => (state, DragEffect::Nothing),
        },
    }
}

/// Nothing is written but at the drop of a drag under way, and storage is
/// read again only when a drag under way is called off.
pub proof fn lemma_writes_only_on_drop(state: DragState, event: DragEvent)
    ensures
        effect_of(state, event) == DragEffect::WriteIfMoved <==> state is Dragging && event
            == DragEvent::Drop,
        effect_of(state, event) == DragEffect::Resync <==> state is Dragging && event
            == DragEvent::Cancel,
        effect_of(state, event) == DragEffect::Renumber <==> state is Dragging && event
            == DragEvent::Motion,
{
}

} // verus!
