//! The cooperative kernel: tasks, the task table and its drivers.
pub mod kernel;
pub mod task;
pub mod driver;

use vstd::prelude::*;
use kernel::Kernel;
use task::{Task, TaskId, TaskState};

verus! {

/// The kernel the system boots with: tasks 1, 2 and 3 in slots 0, 1 and 2,
/// all ready, with the given entry points.
pub fn os_main<E>(task1: E, task2: E, task3: E) -> (k: Kernel<E>)
    ensures
        k.tasks().len() == 3,
        k.tasks()[0] == Some(Task { id: TaskId(1), state: TaskState::Ready, entry_point: task1 }),
        k.tasks()[1] == Some(Task { id: TaskId(2), state: TaskState::Ready, entry_point: task2 }),
        k.tasks()[2] == Some(Task { id: TaskId(3), state: TaskState::Ready, entry_point: task3 }),
{
    let mut kernel = Kernel::new();
    assert(kernel::first_free(kernel.tasks(), 0));
    kernel.add_task(Task::new(TaskId(1), task1));
    assert(kernel::first_free(kernel.tasks(), 1));
    kernel.add_task(Task::new(TaskId(2), task2));
    assert(kernel::first_free(kernel.tasks(), 2));
    kernel.add_task(Task::new(TaskId(3), task3));
    kernel
}

/// Entry point of task 1 (heartbeat).
pub fn task1_entry() {
}

/// Entry point of task 2 (SOS).
pub fn task2_entry() {
}

/// Entry point of task 3 (button-driven LED).
pub fn task3_entry() {
}

} // verus!
