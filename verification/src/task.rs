//! The task record: the one entity the store persists.

use vstd::prelude::*;

verus! {

/// The mathematical image of a stored task: what one row of the `tasks`
/// table holds, with text as character sequences and integers unbounded.
pub ghost struct TaskView {
    pub id: int,
    pub name: Seq<char>,
    pub estimated_pomodoros: int,
    pub completed_pomodoros: int,
    pub is_complete: bool,
    pub priority: Seq<char>,
    pub notes: Option<Seq<char>>,
}

/// A task as callers see it: a system-assigned id, a name, the estimated and
/// completed work-unit counts, a completion flag, a free-text priority, and
/// optional notes. Creation leaves `notes` empty and no operation sets it.
#[derive(Debug)]
pub struct Task {
    pub id: i64,
    pub name: String,
    pub estimated_pomodoros: i32,
    pub completed_pomodoros: i32,
    pub is_complete: bool,
    pub priority: String,
    pub notes: Option<String>,
}

impl View for Task {
    type V = TaskView;

    open spec fn view(&self) -> TaskView {
        TaskView {
            id: self.id as int,
            name: self.name@,
            estimated_pomodoros: self.estimated_pomodoros as int,
            completed_pomodoros: self.completed_pomodoros as int,
            is_complete: self.is_complete,
            priority: self.priority@,
            notes: match self.notes {
                Some(ref n) => Some(n@),
                None => None,
            },
        }
    }
}

} // verus!
