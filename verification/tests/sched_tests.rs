use mini_os::registry::AppMetadata;
use mini_os::sched::{
    init_app_stack_and_tcb, InitError, Scheduler, TaskState, Tcb, APP_STACK_WORDS, MAX_APPS,
};

fn app(id: u32, name: &'static str, entry_fn: Option<usize>) -> AppMetadata {
    AppMetadata {
        id,
        name,
        entry: 0,
        entry_fn,
        stack_ptr: 0,
        stack_size: 256,
        stack_ptr_fn: None,
    }
}

fn addrs() -> Vec<usize> {
    (0..MAX_APPS).map(|i| 0x2000_0000 + i * 4 * APP_STACK_WORDS).collect()
}

#[test]
fn stack_frame_and_tcb_are_set_up() {
    let mut a = app(3, "timer", Some(0x0800_1234));
    let mut tcb = Tcb::default();
    let mut stack = vec![0u32; 16];
    let r = init_app_stack_and_tcb(&mut a, &mut tcb, &mut stack, 0x2000_0000);
    assert_eq!(r, Ok(()));
    assert_eq!(a.entry, 0x0800_1234);
    assert_eq!(
        &stack[8..],
        &[0, 0x0101_0101, 0x0202_0202, 0x0303_0303, 0x1212_1212, 0xFFFF_FFFE, 0x0800_1235, 0x0100_0000]
    );
    assert_eq!(&stack[..8], &[0u32; 8]);
    assert_eq!(tcb.sp, 0x2000_0020);
    assert_eq!(tcb.r4, 0x4444_4444);
    assert_eq!(tcb.r11, 0xBBBB_BBBB);
    assert_eq!(tcb.control, 2);
    assert_eq!(tcb.state, TaskState::Ready);
    assert_eq!(tcb.app_id, 3);
    assert_eq!(tcb.name, "timer");
    assert_eq!(tcb.stack_base, 0x2000_0000);
    assert_eq!(tcb.stack_size, 16);
}

#[test]
fn entry_outside_flash_is_refused() {
    let mut a = app(4, "bad", Some(0x2000_0000));
    let mut tcb = Tcb::default();
    let mut stack = vec![7u32; 8];
    let r = init_app_stack_and_tcb(&mut a, &mut tcb, &mut stack, 0x1000);
    assert_eq!(r, Err(InitError::EntryOutOfFlash { id: 4, entry: 0x2000_0000 }));
    assert_eq!(stack, vec![7u32; 8]);
    assert_eq!(tcb.sp, 0);
}

#[test]
fn missing_entry_is_refused() {
    let mut a = app(5, "none", None);
    let mut tcb = Tcb::default();
    let mut stack = vec![0u32; 8];
    let r = init_app_stack_and_tcb(&mut a, &mut tcb, &mut stack, 0x1000);
    assert_eq!(r, Err(InitError::NoEntryFunction { id: 5 }));
}

#[test]
fn round_robin_switching() {
    let mut s = Scheduler::new();
    let mut apps = vec![
        app(0, "a", Some(0x0800_0100)),
        app(1, "b", Some(0x0800_0200)),
        app(2, "c", Some(0x0800_0300)),
    ];
    assert_eq!(s.init_kernel_and_tasks(&mut apps, &addrs()), Ok(()));
    assert_eq!(s.task_count(), 3);
    let first = s.pend_sv_switch_rust();
    assert_eq!(first, 0);
    assert_eq!(s.tcb(0).state, TaskState::Running);
    assert_eq!(s.next_psp(), s.tcb(0).sp);
    let order: Vec<usize> = (0..5).map(|_| s.pend_sv_switch_rust()).collect();
    assert_eq!(order, vec![1, 2, 0, 1, 2]);
    assert_eq!(s.tcb(2).state, TaskState::Running);
    assert_eq!(s.tcb(0).state, TaskState::Ready);
    assert_eq!(s.tcb(1).state, TaskState::Ready);
}

#[test]
fn init_errors() {
    let mut s = Scheduler::new();
    let mut none: Vec<AppMetadata> = vec![];
    assert_eq!(s.init_kernel_and_tasks(&mut none, &addrs()), Err(InitError::NoApps));
    let mut many: Vec<AppMetadata> = (0..17).map(|i| app(i, "x", Some(0x0800_0000))).collect();
    assert_eq!(
        s.init_kernel_and_tasks(&mut many, &addrs()),
        Err(InitError::TooManyApps { count: 17 })
    );
    let mut bad = vec![app(0, "a", Some(0x0800_0100)), app(1, "b", None), app(2, "c", None)];
    assert_eq!(s.init_kernel_and_tasks(&mut bad, &addrs()), Err(InitError::NoEntryFunction { id: 1 }));
    assert_eq!(bad[0].entry, 0x0800_0100);
    assert_eq!(s.task_count(), 3);
    assert_eq!(s.current(), 0);
}

#[test]
fn failed_init_counts_the_registered_apps() {
    let mut s = Scheduler::new();
    let mut apps = vec![app(0, "a", Some(0x0800_0100)), app(1, "b", Some(0x0800_0200))];
    s.init_kernel_and_tasks(&mut apps, &addrs()).unwrap();
    assert_eq!(s.task_count(), 2);
    let mut none: Vec<AppMetadata> = vec![];
    assert_eq!(s.init_kernel_and_tasks(&mut none, &addrs()), Err(InitError::NoApps));
    assert_eq!(s.task_count(), 0);
    let mut many: Vec<AppMetadata> = (0..17).map(|i| app(i, "x", Some(0x0800_0000))).collect();
    assert_eq!(
        s.init_kernel_and_tasks(&mut many, &addrs()),
        Err(InitError::TooManyApps { count: 17 })
    );
    assert_eq!(s.task_count(), 17);
    assert_eq!(s.tcb(0).name, "a");
}

#[test]
fn context_is_saved_into_current_tcb() {
    let mut s = Scheduler::new();
    let mut apps = vec![app(0, "a", Some(0x0800_0100)), app(1, "b", Some(0x0800_0200))];
    s.init_kernel_and_tasks(&mut apps, &addrs()).unwrap();
    s.pend_sv_switch_rust();
    s.save_current_context_rust(0x2000_0100, 4, 5, 6, 7, 8, 9, 10, 11);
    let t = s.tcb(0);
    assert_eq!((t.sp, t.r4, t.r11), (0x2000_0100, 4, 11));
    let next = s.pend_sv_switch_rust();
    assert_eq!(next, 1);
    assert_eq!(s.next_psp(), s.tcb(1).sp);
}

#[test]
fn preempted_task_resumes_with_saved_context() {
    let mut s = Scheduler::new();
    let mut apps = vec![
        app(0, "a", Some(0x0800_0100)),
        app(1, "b", Some(0x0800_0200)),
        app(2, "c", Some(0x0800_0300)),
    ];
    s.init_kernel_and_tasks(&mut apps, &addrs()).unwrap();
    assert_eq!(s.pend_sv_switch_rust(), 0);
    s.save_current_context_rust(0x2000_0f00, 1, 2, 3, 4, 5, 6, 7, 8);
    assert_eq!(s.pend_sv_switch_rust(), 1);
    assert_eq!(s.pend_sv_switch_rust(), 2);
    assert_eq!(s.pend_sv_switch_rust(), 0);
    assert_eq!(s.next_psp(), 0x2000_0f00);
    let t = s.tcb(0);
    assert_eq!([t.r4, t.r5, t.r6, t.r7, t.r8, t.r9, t.r10, t.r11], [1, 2, 3, 4, 5, 6, 7, 8]);
    assert_eq!(s.current(), 0);
}

#[test]
fn preempted_task_resumes_when_others_are_saved_in_between() {
    let mut s = Scheduler::new();
    let mut apps = vec![
        app(0, "a", Some(0x0800_0100)),
        app(1, "b", Some(0x0800_0200)),
        app(2, "c", Some(0x0800_0300)),
    ];
    s.init_kernel_and_tasks(&mut apps, &addrs()).unwrap();
    assert_eq!(s.pend_sv_switch_rust(), 0);
    s.save_current_context_rust(0x2000_0f00, 1, 2, 3, 4, 5, 6, 7, 8);
    assert_eq!(s.pend_sv_switch_rust(), 1);
    s.save_current_context_rust(0x2000_1f00, 11, 12, 13, 14, 15, 16, 17, 18);
    assert_eq!(s.pend_sv_switch_rust(), 2);
    s.save_current_context_rust(0x2000_2f00, 21, 22, 23, 24, 25, 26, 27, 28);
    assert_eq!(s.pend_sv_switch_rust(), 0);
    assert_eq!(s.next_psp(), 0x2000_0f00);
    let t = s.tcb(0);
    assert_eq!([t.r4, t.r5, t.r6, t.r7, t.r8, t.r9, t.r10, t.r11], [1, 2, 3, 4, 5, 6, 7, 8]);
    assert_eq!(s.tcb(1).sp, 0x2000_1f00);
    assert_eq!(s.tcb(2).r11, 28);
}

#[test]
fn single_task_keeps_running() {
    let mut s = Scheduler::new();
    let mut apps = vec![app(0, "solo", Some(0x0800_0100))];
    s.init_kernel_and_tasks(&mut apps, &addrs()).unwrap();
    assert_eq!(s.pend_sv_switch_rust(), 0);
    assert_eq!(s.pend_sv_switch_rust(), 0);
    assert_eq!(s.tcb(0).state, TaskState::Running);
    assert_eq!(s.stack(0)[APP_STACK_WORDS - 2], 0x0800_0101);
}
