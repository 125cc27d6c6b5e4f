use mini_os::os::driver::{ButtonPin, GpioPin};
use mini_os::os::kernel::Kernel;
use mini_os::os::task::{Task, TaskId, TaskState};
use mini_os::os::{os_main, task1_entry, task2_entry, task3_entry};

#[test]
fn kernel_fills_slots_in_order_and_drops_extra_tasks() {
    let mut k: Kernel<u32> = Kernel::new();
    assert!(k.run().is_empty());
    k.add_task(Task::new(TaskId(1), 10));
    k.add_task(Task::new(TaskId(2), 20));
    k.add_task(Task::new(TaskId(3), 30));
    k.add_task(Task::new(TaskId(4), 40));
    assert_eq!(k.run(), vec![0, 1, 2]);
    assert_eq!(*k.entry_point(0), 10);
    assert_eq!(*k.entry_point(2), 30);
}

#[test]
fn only_ready_tasks_are_entered() {
    let mut k: Kernel<u32> = Kernel::new();
    let mut blocked = Task::new(TaskId(1), 1);
    blocked.state = TaskState::Blocked;
    k.add_task(blocked);
    k.add_task(Task::new(TaskId(2), 2));
    let mut suspended = Task::new(TaskId(3), 3);
    suspended.state = TaskState::Suspended;
    k.add_task(suspended);
    assert_eq!(k.run(), vec![1]);
}

#[test]
fn added_ready_task_runs() {
    let mut k: Kernel<u32> = Kernel::new();
    k.add_task(Task::new(TaskId(1), 1));
    let before = k.run();
    k.add_task(Task::new(TaskId(2), 2));
    let after = k.run();
    assert!(before.iter().all(|i| after.contains(i)));
    assert!(after.contains(&1));
}

#[test]
fn boot_kernel_has_three_ready_tasks() {
    let k = os_main(task1_entry as fn(), task2_entry as fn(), task3_entry as fn());
    let order = k.run();
    assert_eq!(order, vec![0, 1, 2]);
    for i in order {
        (k.entry_point(i))();
    }
    let t = Task::new(TaskId(7), ());
    assert_eq!(t.id, TaskId(7));
    assert_eq!(t.state, TaskState::Ready);
}

#[test]
fn driver_pin_levels() {
    let mut p = GpioPin::new();
    assert!(p.is_low() && !p.is_high());
    p.on();
    assert!(p.is_high());
    p.toggle();
    assert!(p.is_low());
    p.toggle();
    p.toggle();
    assert!(p.is_low());
    p.on();
    p.off();
    assert!(p.is_low());
    assert!(!ButtonPin::new().is_pressed());
}
