//! Tasks of the cooperative kernel.
use vstd::prelude::*;

verus! {

/// A task's identifier.
#[derive(Clone, Copy, Debug, PartialEq, Eq, Structural)]
pub struct TaskId(pub u8);

/// Whether a task is entered by the kernel's loop.
#[derive(Clone, Copy, Debug, PartialEq, Eq, Structural)]
pub enum TaskState {
    Ready,
    Blocked,
    Suspended,
}

/// A task: its identifier, its state and the entry point the kernel calls
/// (of whatever type the caller uses to name code, such as `fn()`).
pub struct Task<E> {
    pub id: TaskId,
    pub state: TaskState,
    pub entry_point: E,
}

impl<E> Task<E> {
    /// A ready task with the given identifier and entry point.
    pub fn new(id: TaskId, entry: E) -> (t: Self)
        ensures
            t.id == id,
            t.state == TaskState::Ready,
            t.entry_point == entry,
    {
        Self { id, state: TaskState::Ready, entry_point: entry }
    }
}

} // verus!
