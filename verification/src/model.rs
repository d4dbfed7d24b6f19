//! The mathematical model of the store: the `tasks` table as a sequence of
//! task views in creation order, and what each mutating operation does to it.

use vstd::prelude::*;
use crate::task::TaskView;

verus! {

/// No two stored tasks share an id.
pub open spec fn ids_unique(s: Seq<TaskView>) -> bool {
    forall|i: int, j: int| 0 <= i < j < s.len() ==> s[i].id != s[j].id
}

/// Some stored task carries the given id.
pub open spec fn has_id(s: Seq<TaskView>, id: int) -> bool {
    exists|i: int| 0 <= i < s.len() && s[i].id == id
}

/// The row that a create operation inserts: the caller's name, estimate and
/// priority, no completed work, not complete, no notes.
pub open spec fn created_task(id: int, name: Seq<char>, estimated: int, priority: Seq<char>) -> TaskView {
    TaskView {
        id: id,
        name: name,
        estimated_pomodoros: estimated,
        completed_pomodoros: 0,
        is_complete: false,
        priority: priority,
        notes: None,
    }
}

/// One task after an update: every mutable field replaced, while the id and
/// the notes are kept (no operation ever writes `notes`).
pub open spec fn updated_task(
    t: TaskView,
    name: Seq<char>,
    estimated: int,
    completed: int,
    complete: bool,
    priority: Seq<char>,
) -> TaskView {
    TaskView {
        id: t.id,
        name: name,
        estimated_pomodoros: estimated,
        completed_pomodoros: completed,
        is_complete: complete,
        priority: priority,
        notes: t.notes,
    }
}

/// The table after an update: every row carrying the id is overwritten as
/// `updated_task` says, every other row is untouched, and no row moves.
pub open spec fn update_model(
    s: Seq<TaskView>,
    id: int,
    name: Seq<char>,
    estimated: int,
    completed: int,
    complete: bool,
    priority: Seq<char>,
) -> Seq<TaskView> {
    s.map(|i: int, t: TaskView|
        if t.id == id {
            updated_task(t, name, estimated, completed, complete, priority)
        } else {
            t
        })
}

/// The table after a delete: every row carrying the id is gone, the rest
/// keep their order.
pub open spec fn delete_model(s: Seq<TaskView>, id: int) -> Seq<TaskView> {
    s.filter(|t: TaskView| t.id != id)
}

/// The id a create operation assigns: positive, and strictly above every id
/// already stored, so ids grow with creation order and never repeat.
pub open spec fn fresh_id(s: Seq<TaskView>, id: int) -> bool {
    id >= 1 && forall|i: int| 0 <= i < s.len() ==> s[i].id < id
}

} // verus!
