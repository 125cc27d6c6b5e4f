//! Task control blocks, process stack set-up and the round-robin context
//! switch decisions of the pre-emptive scheduler.
//!
//! The PendSV assembly saves and restores registers; the functions here
//! decide what is saved where, which task runs next and where its saved
//! context lives.
use vstd::prelude::*;
use crate::registry::AppMetadata;

verus! {

/// Maximum number of applications the scheduler can hold.
pub const MAX_APPS: usize = 16;

/// Words of the kernel (main) stack.
pub const KERNEL_STACK_WORDS: usize = 512;

/// Words of each application's process stack.
pub const APP_STACK_WORDS: usize = 1024;

/// First address of on-chip flash, where application code must live.
pub const FLASH_START: u32 = 0x0800_0000;

/// End (exclusive) of on-chip flash.
pub const FLASH_END: u32 = 0x0810_0000;

/// CONTROL register value for thread mode on the process stack.
pub const CONTROL_PSP: u32 = 0x02;

/// Words of the hardware exception frame (r0-r3, r12, lr, pc, xpsr).
pub const HW_FRAME_WORDS: usize = 8;

/// Scheduling state of a task.
#[derive(Clone, Copy, Debug, PartialEq, Eq, Structural)]
pub enum TaskState {
    Ready,
    Running,
    Blocked,
}

/// Task control block: the saved software context of a task and its
/// identity. `stack_base` is the address of the task's stack.
#[derive(Clone, Copy)]
pub struct Tcb {
    pub sp: u32,
    pub r4: u32,
    pub r5: u32,
    pub r6: u32,
    pub r7: u32,
    pub r8: u32,
    pub r9: u32,
    pub r10: u32,
    pub r11: u32,
    pub control: u32,
    pub state: TaskState,
    pub app_id: u32,
    pub name: &'static str,
    pub stack_base: usize,
    pub stack_size: u32,
}

/// The control block of a task that has not been set up.
pub open spec fn default_tcb() -> Tcb {
    Tcb {
        sp: 0,
        r4: 0,
        r5: 0,
        r6: 0,
        r7: 0,
        r8: 0,
        r9: 0,
        r10: 0,
        r11: 0,
        control: CONTROL_PSP,
        state: TaskState::Ready,
        app_id: 0,
        name: "",
        stack_base: 0,
        stack_size: 0,
    }
}

impl Default for Tcb {
    fn default() -> (t: Self)
        ensures
            t == default_tcb(),
    {
        Tcb {
            sp: 0,
            r4: 0,
            r5: 0,
            r6: 0,
            r7: 0,
            r8: 0,
            r9: 0,
            r10: 0,
            r11: 0,
            control: CONTROL_PSP,
            state: TaskState::Ready,
            app_id: 0,
            name: "",
            stack_base: 0,
            stack_size: 0,
        }
    }
}

/// One step the PendSV handler takes on the task table.
#[derive(Clone, Copy, Debug)]
pub enum PendSvStep {
    /// A context switch that restores task `next`.
    Switch { next: usize },
    /// A save of the current task's stack pointer and registers r4-r11.
    Save { psp: u32, regs: [u32; 8] },
}

/// Why the scheduler could not set up its tasks.
#[derive(Clone, Copy, Debug, PartialEq, Eq, Structural)]
pub enum InitError {
    /// No application is registered.
    NoApps,
    /// More applications are registered than the scheduler holds.
    TooManyApps { count: usize },
    /// An application has neither a resolved entry nor an entry function.
    NoEntryFunction { id: u32 },
    /// An application's entry point does not lie in flash.
    EntryOutOfFlash { id: u32, entry: usize },
}

/// The entry point of an application: the resolved one if there is one,
/// else the address of its entry function.
pub open spec fn resolved_entry(app: AppMetadata) -> Option<usize> {
    if app.entry != 0 {
        Some(app.entry)
    } else {
        app.entry_fn
    }
}

/// An entry point lies in flash (compared on its low 32 bits, the width of
/// a Cortex-M address).
pub open spec fn entry_in_flash(entry: usize) -> bool {
    FLASH_START <= (entry as u32) && (entry as u32) < FLASH_END
}

/// The entry point an application starts at, or why it cannot start.
pub open spec fn checked_entry(app: AppMetadata) -> Result<usize, InitError> {
    match resolved_entry(app) {
        None => Err(InitError::NoEntryFunction { id: app.id }),
        Some(e) => if entry_in_flash(e) {
            Ok(e)
        } else {
            Err(InitError::EntryOutOfFlash { id: app.id, entry: e })
        },
    }
}

/// The metadata after resolution: the entry is filled in where it resolves.
pub open spec fn resolved_app(app: AppMetadata) -> AppMetadata {
    AppMetadata {
        id: app.id,
        name: app.name,
        entry: match resolved_entry(app) {
            Some(e) => e,
            None => app.entry,
        },
        entry_fn: app.entry_fn,
        stack_ptr: app.stack_ptr,
        stack_size: app.stack_size,
        stack_ptr_fn: app.stack_ptr_fn,
    }
}

/// The hardware exception frame a new task is started from: r0-r3 and r12
/// hold recognisable patterns, lr the return trap, pc the entry point with
/// the Thumb bit and xPSR the Thumb state bit.
pub open spec fn initial_frame(entry: usize) -> Seq<u32> {
    seq![
        0x0000_0000u32,
        0x0101_0101u32,
        0x0202_0202u32,
        0x0303_0303u32,
        0x1212_1212u32,
        0xFFFF_FFFEu32,
        (entry as u32) | 1u32,
        0x0100_0000u32,
    ]
}

/// The stack pointer of a new task whose stack of `len` words starts at
/// `stack_addr`: the address of the hardware frame in its top eight words.
pub open spec fn initial_sp(stack_addr: usize, len: nat) -> u32 {
    (stack_addr + 4 * (len - 8)) as u32
}

/// The control block of a new task.
pub open spec fn initial_tcb(app: AppMetadata, stack_addr: usize, len: nat) -> Tcb {
    Tcb {
        sp: initial_sp(stack_addr, len),
        r4: 0x4444_4444,
        r5: 0x5555_5555,
        r6: 0x6666_6666,
        r7: 0x7777_7777,
        r8: 0x8888_8888,
        r9: 0x9999_9999,
        r10: 0xAAAA_AAAA,
        r11: 0xBBBB_BBBB,
        control: CONTROL_PSP,
        state: TaskState::Ready,
        app_id: app.id,
        name: app.name,
        stack_base: stack_addr,
        stack_size: len as u32,
    }
}

/// The stack of a new task: its top eight words replaced by the initial
/// hardware frame.
pub open spec fn initial_stack(stack: Seq<u32>, entry: usize) -> Seq<u32> {
    stack.subrange(0, stack.len() - 8) + initial_frame(entry)
}

/// The entry point of an application: the resolved entry if it is already
/// resolved, else the address of its entry function; `None` if it has
/// neither.
pub fn resolve_app_entry(app: &AppMetadata) -> (r: Option<usize>)
    ensures
        r == resolved_entry(*app),
{
    if app.entry != 0 {
        return Some(app.entry);
    }
    app.entry_fn
}

/// Sets up a task for `app`: resolves its entry point, checks that it lies
/// in flash, writes the initial hardware frame into the top of `stack`
/// (which starts at address `stack_addr`) and fills `tcb` with the initial
/// software context. When the entry point is missing or outside flash
/// nothing but the resolution of the entry is done and the error is
/// returned.
pub fn init_app_stack_and_tcb(
    app: &mut AppMetadata,
    tcb: &mut Tcb,
    stack: &mut [u32],
    stack_addr: usize,
) -> (r: Result<(), InitError>)
    requires
        old(stack)@.len() >= HW_FRAME_WORDS,
        stack_addr + 4 * old(stack)@.len() <= usize::MAX,
    ensures
        *final(app) == resolved_app(*old(app)),
        r is Ok ==> final(tcb).sp == (stack_addr + 4 * (old(stack)@.len() - 8)) as u32,
        r is Ok ==> final(stack)@.len() == old(stack)@.len(),
        r is Ok ==> final(stack)@[old(stack)@.len() - 2] == (final(app).entry as u32) | 1u32,
        r is Ok ==> final(stack)@[old(stack)@.len() - 3] == 0xFFFF_FFFEu32,
        r is Ok ==> final(stack)@[old(stack)@.len() - 1] == 0x0100_0000u32,
        r is Ok ==> final(stack)@.subrange(0, old(stack)@.len() - 8) == old(stack)@.subrange(0, old(stack)@.len() - 8),
        match checked_entry(*old(app)) {
            Ok(e) => {
                &&& r is Ok
                &&& final(stack)@ == initial_stack(old(stack)@, e)
                &&& *final(tcb) == initial_tcb(*old(app), stack_addr, old(stack)@.len())
            },
            Err(err) => {
                &&& r == Err::<(), InitError>(err)
                &&& final(stack)@ == old(stack)@
                &&& *final(tcb) == *old(tcb)
            },
        },
{
    if app.entry == 0 {
        match resolve_app_entry(app) {
            Some(e) => {
                app.entry = e;
            },
            None => {
                return Err(InitError::NoEntryFunction { id: app.id });
            },
        }
    }
    let entry = app.entry;
    let entry32 = entry as u32;
    if entry32 < FLASH_START || entry32 >= FLASH_END {
        return Err(InitError::EntryOutOfFlash { id: app.id, entry });
    }
    let len = stack.len();
    let top = len - HW_FRAME_WORDS;
    let sp = (stack_addr + 4 * top) as u32;
    stack[top] = 0x0000_0000;
    stack[top + 1] = 0x0101_0101;
    stack[top + 2] = 0x0202_0202;
    stack[top + 3] = 0x0303_0303;
    stack[top + 4] = 0x1212_1212;
    stack[top + 5] = 0xFFFF_FFFE;
    stack[top + 6] = entry32 | 1;
    stack[top + 7] = 0x0100_0000;
    assert(stack@ =~= initial_stack(old(stack)@, entry));
    tcb.sp = sp;
    tcb.r4 = 0x4444_4444;
    tcb.r5 = 0x5555_5555;
    tcb.r6 = 0x6666_6666;
    tcb.r7 = 0x7777_7777;
    tcb.r8 = 0x8888_8888;
    tcb.r9 = 0x9999_9999;
    tcb.r10 = 0xAAAA_AAAA;
    tcb.r11 = 0xBBBB_BBBB;
    tcb.control = CONTROL_PSP;
    tcb.state = TaskState::Ready;
    tcb.app_id = app.id;
    tcb.name = app.name;
    tcb.stack_base = stack_addr;
    tcb.stack_size = len as u32;
    Ok(())
}

/// A new task starts from its initial frame: for a stack of `len >= 8`
/// words at address `stack_addr` in the 32-bit address space, the task's
/// saved stack pointer is the address of word `len - 8`, and the eight
/// words from there are r0-r3, r12, the return trap, the entry point with
/// the Thumb bit as pc, and the Thumb state as xPSR; the words below are
/// untouched. Its control block holds the recognisable register patterns,
/// thread mode on the process stack, the ready state, the application's
/// identity and its stack.
pub proof fn lemma_new_task_starts_at_its_frame(app: AppMetadata, stack: Seq<u32>, stack_addr: usize, entry: usize)
    requires
        stack.len() >= HW_FRAME_WORDS,
        stack_addr + 4 * stack.len() <= u32::MAX,
    ensures
        ({
            let len = stack.len();
            let sp = initial_tcb(app, stack_addr, len).sp;
            let st = initial_stack(stack, entry);
            let w = (sp - stack_addr) / 4;
            &&& sp == stack_addr + 4 * (len - 8)
            &&& w == len - 8
            &&& st.len() == len
            &&& st[w] == 0u32
            &&& st[w + 1] == 0x0101_0101u32
            &&& st[w + 2] == 0x0202_0202u32
            &&& st[w + 3] == 0x0303_0303u32
            &&& st[w + 4] == 0x1212_1212u32
            &&& st[w + 5] == 0xFFFF_FFFEu32
            &&& st[w + 6] == (entry as u32) | 1u32
            &&& st[w + 7] == 0x0100_0000u32
            &&& forall|k: int| 0 <= k < w ==> st[k] == stack[k]
        }),
        ({
            let t = initial_tcb(app, stack_addr, stack.len());
            &&& t.r4 == 0x4444_4444u32 && t.r5 == 0x5555_5555u32 && t.r6 == 0x6666_6666u32
            &&& t.r7 == 0x7777_7777u32 && t.r8 == 0x8888_8888u32 && t.r9 == 0x9999_9999u32
            &&& t.r10 == 0xAAAA_AAAAu32 && t.r11 == 0xBBBB_BBBBu32
            &&& t.control == 2u32
            &&& t.state == TaskState::Ready
            &&& t.app_id == app.id && t.name == app.name
            &&& t.stack_base == stack_addr && t.stack_size == stack.len()
        }),
{
    let len = stack.len();
    let st = initial_stack(stack, entry);
    assert(st.len() == len);
}

/// A control block with its scheduling state replaced.
pub open spec fn with_state(t: Tcb, state: TaskState) -> Tcb {
    Tcb { state, ..t }
}

/// A control block with the software context of a preempted task saved.
pub open spec fn with_context(t: Tcb, psp: u32, regs: [u32; 8]) -> Tcb {
    Tcb {
        sp: psp,
        r4: regs[0],
        r5: regs[1],
        r6: regs[2],
        r7: regs[3],
        r8: regs[4],
        r9: regs[5],
        r10: regs[6],
        r11: regs[7],
        ..t
    }
}

/// Two control blocks hold the same saved context (stack pointer and
/// registers r4-r11).
pub open spec fn same_context(a: Tcb, b: Tcb) -> bool {
    &&& a.sp == b.sp
    &&& a.r4 == b.r4
    &&& a.r5 == b.r5
    &&& a.r6 == b.r6
    &&& a.r7 == b.r7
    &&& a.r8 == b.r8
    &&& a.r9 == b.r9
    &&& a.r10 == b.r10
    &&& a.r11 == b.r11
}

/// The task that runs after task `curr` among `n` tasks.
pub open spec fn next_task(curr: nat, n: nat) -> nat
    recommends
        n > 0,
{
    (curr + 1) % n
}

/// The task that runs `k` switches after task `curr` among `n` tasks.
pub open spec fn task_after(curr: nat, n: nat, k: nat) -> nat
    decreases k,
{
    if k == 0 {
        curr
    } else {
        next_task(task_after(curr, n, (k - 1) as nat), n)
    }
}

/// How many switches after task `curr` task `t` runs, among `n` tasks.
pub open spec fn switches_until(curr: nat, n: nat, t: nat) -> nat {
    if t > curr {
        (t - curr) as nat
    } else {
        (t + n - curr) as nat
    }
}

proof fn lemma_mod_below_twice(x: int, n: int)
    requires
        0 < n,
        0 <= x < 2 * n,
    ensures
        x % n == if x < n {
            x
        } else {
            x - n
        },
{
    if x < n {
        vstd::arithmetic::div_mod::lemma_small_mod(x as nat, n as nat);
    } else {
        vstd::arithmetic::div_mod::lemma_mod_add_multiples_vanish(x - n, n);
        vstd::arithmetic::div_mod::lemma_small_mod((x - n) as nat, n as nat);
    }
}

proof fn lemma_task_after_closed(curr: nat, n: nat, k: nat)
    requires
        0 < n,
        curr < n,
    ensures
        task_after(curr, n, k) == ((curr + k) as int) % (n as int),
    decreases k,
{
    if k == 0 {
        vstd::arithmetic::div_mod::lemma_small_mod(curr, n);
    } else {
        lemma_task_after_closed(curr, n, (k - 1) as nat);
        let x = curr + k - 1;
        vstd::arithmetic::div_mod::lemma_add_mod_noop_right(1, x as int, n as int);
    }
}

/// Round-robin fairness: among `n` tasks, the `n` switches that follow
/// task `curr` run every task exactly once, and the last of them runs
/// `curr` again.
pub proof fn lemma_round_robin_fair(curr: nat, n: nat)
    requires
        0 < n,
        curr < n,
    ensures
        forall|t: nat|
            t < n ==> 1 <= #[trigger] switches_until(curr, n, t) <= n && task_after(
                curr,
                n,
                switches_until(curr, n, t),
            ) == t,
        forall|k1: nat, k2: nat|
            1 <= k1 < k2 <= n ==> #[trigger] task_after(curr, n, k1) != #[trigger] task_after(
                curr,
                n,
                k2,
            ),
        task_after(curr, n, n) == curr,
{
    assert forall|k: nat| k <= n implies #[trigger] task_after(curr, n, k) == if curr + k < n {
        (curr + k) as int
    } else {
        curr + k - n
    } by {
        lemma_task_after_closed(curr, n, k);
        lemma_mod_below_twice((curr + k) as int, n as int);
    }
    assert forall|t: nat| t < n implies 1 <= #[trigger] switches_until(curr, n, t) <= n && task_after(
        curr,
        n,
        switches_until(curr, n, t),
    ) == t by {
        assert(task_after(curr, n, switches_until(curr, n, t)) == t);
    }
}

/// Every application in `apps[..k]` has an entry point in flash.
pub open spec fn entries_ok_upto(apps: Seq<AppMetadata>, k: int) -> bool {
    forall|j: int| 0 <= j < k ==> (#[trigger] checked_entry(apps[j])) is Ok
}

/// The entry point of an application that passed its check.
pub open spec fn ok_entry(app: AppMetadata) -> usize {
    match checked_entry(app) {
        Ok(e) => e,
        Err(_) => 0,
    }
}

/// The scheduler's task table, process stacks and switching state.
pub struct Scheduler {
    tcbs: Vec<Tcb>,
    stacks: Vec<Vec<u32>>,
    curr: usize,
    n_tasks: usize,
    first_switch: bool,
    next_task_psp: u32,
}

impl Scheduler {
    /// The control blocks, one per slot.
    pub closed spec fn tcbs(&self) -> Seq<Tcb> {
        self.tcbs@
    }

    /// The process stacks, one per slot.
    pub closed spec fn stacks(&self) -> Seq<Seq<u32>> {
        self.stacks@.map_values(|v: Vec<u32>| v@)
    }

    /// The index of the task that runs (or ran last).
    pub closed spec fn curr(&self) -> nat {
        self.curr as nat
    }

    /// The number of tasks that were set up.
    pub closed spec fn n_tasks(&self) -> nat {
        self.n_tasks as nat
    }

    /// Whether no task has been switched to yet.
    pub closed spec fn first_switch(&self) -> bool {
        self.first_switch
    }

    /// The process stack pointer of the task switched to last.
    pub closed spec fn next_task_psp(&self) -> u32 {
        self.next_task_psp
    }

    /// The table has one control block and one stack of the right size per
    /// slot, and the current task is one of its slots.
    pub closed spec fn wf(&self) -> bool {
        &&& self.tcbs@.len() == MAX_APPS
        &&& self.stacks@.len() == MAX_APPS
        &&& forall|i: int| 0 <= i < MAX_APPS ==> (#[trigger] self.stacks@[i])@.len() == APP_STACK_WORDS
        &&& self.curr < MAX_APPS
        &&& self.first_switch ==> self.curr == 0
    }

    /// What well-formedness gives callers: one control block and one stack
    /// of `APP_STACK_WORDS` words per slot, a current task that is a slot of
    /// the table (task 0 before the first switch).
    pub proof fn lemma_wf(&self)
        requires
            self.wf(),
        ensures
            self.tcbs().len() == MAX_APPS,
            self.stacks().len() == MAX_APPS,
            forall|i: int| 0 <= i < MAX_APPS ==> (#[trigger] self.stacks()[i]).len() == APP_STACK_WORDS,
            self.curr() < MAX_APPS,
            self.first_switch() ==> self.curr() == 0,
    {
    }

    /// Before the first switch every task with a control block is ready;
    /// after it, the current task is the one running and every other task
    /// is ready.
    pub open spec fn states_consistent(&self) -> bool {
        forall|i: int|
            0 <= i < self.n_tasks() && i < MAX_APPS ==> (#[trigger] self.tcbs()[i]).state == if !self.first_switch()
                && i == self.curr() {
                TaskState::Running
            } else {
                TaskState::Ready
            }
    }

    /// An empty task table: default control blocks and zeroed stacks.
    pub fn new() -> (s: Self)
        ensures
            s.wf(),
            s.tcbs() == Seq::new(MAX_APPS as nat, |i: int| default_tcb()),
            s.stacks() == Seq::new(MAX_APPS as nat, |i: int| Seq::new(APP_STACK_WORDS as nat, |j: int| 0u32)),
            s.curr() == 0,
            s.n_tasks() == 0,
            s.first_switch(),
            s.next_task_psp() == 0,
    {
        let mut tcbs: Vec<Tcb> = Vec::new();
        let mut stacks: Vec<Vec<u32>> = Vec::new();
        let mut i: usize = 0;
        while i < MAX_APPS
            invariant
                i <= MAX_APPS,
                tcbs@.len() == i,
                stacks@.len() == i,
                forall|k: int| 0 <= k < i ==> tcbs@[k] == default_tcb(),
                forall|k: int|
                    0 <= k < i ==> (#[trigger] stacks@[k])@ == Seq::new(APP_STACK_WORDS as nat, |j: int| 0u32),
            decreases MAX_APPS - i,
        {
            tcbs.push(Tcb::default());
            let mut stack: Vec<u32> = Vec::new();
            let mut j: usize = 0;
            while j < APP_STACK_WORDS
                invariant
                    j <= APP_STACK_WORDS,
                    stack@ == Seq::new(j as nat, |k: int| 0u32),
                decreases APP_STACK_WORDS - j,
            {
                stack.push(0);
                j = j + 1;
            }
            stacks.push(stack);
            i = i + 1;
        }
        let s = Scheduler { tcbs, stacks, curr: 0, n_tasks: 0, first_switch: true, next_task_psp: 0 };
        assert(s.tcbs() =~= Seq::new(MAX_APPS as nat, |i: int| default_tcb()));
        assert(s.stacks() =~= Seq::new(MAX_APPS as nat, |i: int| Seq::new(APP_STACK_WORDS as nat, |j: int| 0u32)));
        s
    }

    /// The index of the current task.
    pub fn current(&self) -> (c: usize)
        ensures
            c == self.curr(),
    {
        self.curr
    }

    /// The number of tasks that were set up.
    pub fn task_count(&self) -> (n: usize)
        ensures
            n == self.n_tasks(),
    {
        self.n_tasks
    }

    /// The process stack pointer of the task switched to last.
    pub fn next_psp(&self) -> (p: u32)
        ensures
            p == self.next_task_psp(),
    {
        self.next_task_psp
    }

    /// The control block of slot `i`.
    pub fn tcb(&self, i: usize) -> (t: Tcb)
        requires
            self.wf(),
            i < MAX_APPS,
        ensures
            t == self.tcbs()[i as int],
    {
        self.tcbs[i]
    }

    /// The process stack of slot `i`.
    pub fn stack(&self, i: usize) -> (st: &Vec<u32>)
        requires
            self.wf(),
            i < MAX_APPS,
        ensures
            st@ == self.stacks()[i as int],
    {
        &self.stacks[i]
    }
    /// Slots `..k` hold the tasks set up from `apps[..k]`, and the other
    /// slots are as they were in `old`.
    pub open spec fn set_up_upto(
        old: Scheduler,
        new: Scheduler,
        apps: Seq<AppMetadata>,
        stack_addrs: Seq<usize>,
        k: int,
    ) -> bool {
        &&& new.tcbs().len() == old.tcbs().len()
        &&& new.stacks().len() == old.stacks().len()
        &&& forall|j: int|
            0 <= j < k ==> #[trigger] new.tcbs()[j] == initial_tcb(
                apps[j],
                stack_addrs[j],
                APP_STACK_WORDS as nat,
            )
        &&& forall|j: int|
            0 <= j < k ==> #[trigger] new.stacks()[j] == initial_stack(
                old.stacks()[j],
                ok_entry(apps[j]),
            )
        &&& forall|j: int| k <= j < old.tcbs().len() ==> #[trigger] new.tcbs()[j] == old.tcbs()[j]
        &&& forall|j: int| k <= j < old.stacks().len() ==> #[trigger] new.stacks()[j] == old.stacks()[j]
    }

    /// Sets up one task per registered application, slot `i` for `apps[i]`
    /// with its stack at address `stack_addrs[i]`, and makes task 0 the
    /// current one. The task count is the number of applications from the
    /// start. Fails when no application or more than `MAX_APPS` are
    /// registered (nothing else changes), or at the first application whose
    /// entry point is missing or outside flash; the tasks before it are then
    /// set up, its entry is resolved, and the current task is left as it
    /// was.
    pub fn init_kernel_and_tasks(&mut self, apps: &mut Vec<AppMetadata>, stack_addrs: &Vec<usize>) -> (r:
        Result<(), InitError>)
        requires
            old(self).wf(),
            stack_addrs@.len() == MAX_APPS,
            forall|i: int| 0 <= i < MAX_APPS ==> #[trigger] stack_addrs@[i] + 4 * APP_STACK_WORDS <= usize::MAX,
        ensures
            final(self).wf(),
            final(self).first_switch() == old(self).first_switch(),
            final(self).next_task_psp() == old(self).next_task_psp(),
            old(apps)@.len() == 0 ==> r == Err::<(), InitError>(InitError::NoApps),
            old(apps)@.len() > MAX_APPS ==> r == Err::<(), InitError>(
                InitError::TooManyApps { count: old(apps).len() },
            ),
            (old(apps)@.len() == 0 || old(apps)@.len() > MAX_APPS) ==> {
                &&& final(apps)@ == old(apps)@
                &&& final(self).n_tasks() == old(apps)@.len()
                &&& final(self).tcbs() == old(self).tcbs()
                &&& final(self).stacks() == old(self).stacks()
                &&& final(self).curr() == old(self).curr()
            },
            (0 < old(apps)@.len() <= MAX_APPS && entries_ok_upto(old(apps)@, old(apps)@.len() as int))
                ==> {
                &&& r is Ok
                &&& final(apps)@ == old(apps)@.map_values(|a: AppMetadata| resolved_app(a))
                &&& Self::set_up_upto(*old(self), *final(self), old(apps)@, stack_addrs@, old(apps)@.len() as int)
                &&& final(self).n_tasks() == old(apps)@.len()
                &&& final(self).curr() == 0
                &&& old(self).first_switch() ==> final(self).states_consistent()
            },
            (0 < old(apps)@.len() <= MAX_APPS && !entries_ok_upto(old(apps)@, old(apps)@.len() as int))
                ==> exists|k: int|
                0 <= k < old(apps)@.len() && entries_ok_upto(old(apps)@, k)
                    && #[trigger] checked_entry(old(apps)@[k]) is Err && {
                    &&& r == Err::<(), InitError>(checked_entry(old(apps)@[k])->Err_0)
                    &&& final(apps)@ == old(apps)@.take(k + 1).map_values(|a: AppMetadata| resolved_app(a))
                        + old(apps)@.skip(k + 1)
                    &&& Self::set_up_upto(*old(self), *final(self), old(apps)@, stack_addrs@, k)
                    &&& final(self).n_tasks() == old(apps)@.len()
                    &&& final(self).curr() == old(self).curr()
                },
    {
        let ghost old_self = *self;
        let n = apps.len();
        self.n_tasks = n;
        if n == 0 {
            return Err(InitError::NoApps);
        }
        if n > MAX_APPS {
            return Err(InitError::TooManyApps { count: n });
        }
        let ghost old_apps = apps@;
        let mut idx: usize = 0;
        while idx < n
            invariant
                n == apps@.len(),
                n == old_apps.len(),
                old_apps == old(apps)@,
                old_self == *old(self),
                0 < n <= MAX_APPS,
                idx <= n,
                self.wf(),
                stack_addrs@.len() == MAX_APPS,
                forall|i: int| 0 <= i < MAX_APPS ==> #[trigger] stack_addrs@[i] + 4 * APP_STACK_WORDS <= usize::MAX,
                entries_ok_upto(old_apps, idx as int),
                apps@ == old_apps.take(idx as int).map_values(|a: AppMetadata| resolved_app(a))
                    + old_apps.skip(idx as int),
                Self::set_up_upto(old_self, *self, old_apps, stack_addrs@, idx as int),
                self.curr == old_self.curr,
                self.n_tasks == n,
                self.first_switch == old_self.first_switch,
                self.next_task_psp == old_self.next_task_psp,
            decreases n - idx,
        {
            let ghost before = *self;
            let ghost before_apps = apps@;
            assert(apps@[idx as int] == old_apps[idx as int]);
            let res = init_app_stack_and_tcb(
                &mut apps[idx],
                &mut self.tcbs[idx],
                self.stacks[idx].as_mut_slice(),
                stack_addrs[idx],
            );
            assert(self.first_switch == before.first_switch);
            assert(self.next_task_psp == before.next_task_psp);
            assert(self.stacks@[idx as int]@.len() == APP_STACK_WORDS);
            assert forall|i: int| 0 <= i < MAX_APPS implies (#[trigger] self.stacks@[i])@.len()
                == APP_STACK_WORDS by {
                if i != idx {
                    assert(self.stacks@[i] == before.stacks@[i]);
                }
            }
            match res {
                Err(e) => {
                    assert(apps@ =~= old_apps.take(idx + 1).map_values(|a: AppMetadata| resolved_app(a))
                        + old_apps.skip(idx + 1));
                    assert(self.stacks() =~= before.stacks());
                    return Err(e);
                },
                Ok(()) => {},
            }
            assert(apps@ =~= old_apps.take(idx + 1).map_values(|a: AppMetadata| resolved_app(a))
                + old_apps.skip(idx + 1));
            assert(self.tcbs@ == before.tcbs@.update(idx as int, self.tcbs@[idx as int]));
            assert(self.stacks@ == before.stacks@.update(idx as int, self.stacks@[idx as int]));
            assert(ok_entry(old_apps[idx as int]) == ok_entry(before_apps[idx as int]));
            assert(checked_entry(before_apps[idx as int]) is Ok);
            assert(self.stacks@[idx as int]@ == initial_stack(before.stacks@[idx as int]@, ok_entry(before_apps[idx as int])));
            assert(before.stacks()[idx as int] == before.stacks@[idx as int]@);
            assert(self.stacks()[idx as int] == initial_stack(old_self.stacks()[idx as int], ok_entry(old_apps[idx as int])));
            assert(Self::set_up_upto(old_self, *self, old_apps, stack_addrs@, idx + 1)) by {
                assert forall|j: int| 0 <= j < idx + 1 implies #[trigger] self.stacks()[j] == initial_stack(
                    old_self.stacks()[j],
                    ok_entry(old_apps[j]),
                ) by {
                    if j < idx {
                        assert(self.stacks()[j] == before.stacks()[j]);
                    }
                }
                assert forall|j: int| idx + 1 <= j < old_self.stacks().len() implies #[trigger] self.stacks()[j] == old_self.stacks()[j] by {
                    assert(self.stacks()[j] == before.stacks()[j]);
                }
            }
            assert(entries_ok_upto(old_apps, idx + 1)) by {
                assert forall|j: int| 0 <= j < idx + 1 implies (#[trigger] checked_entry(old_apps[j])) is Ok by {
                    if j < idx {
                        assert(entries_ok_upto(old_apps, idx as int));
                    }
                }
            }
            idx = idx + 1;
        }
        self.curr = 0;
        assert(apps@ =~= old_apps.map_values(|a: AppMetadata| resolved_app(a)));
        Ok(())
    }

    /// A switch from `before` to `after` that restores task `next`: no
    /// saved context changes, and the stack pointer left for the context
    /// restore is the one saved for `next`.
    pub open spec fn switched(before: Scheduler, after: Scheduler, next: nat) -> bool {
        &&& after.wf()
        &&& after.n_tasks() == before.n_tasks()
        &&& !after.first_switch()
        &&& next == if before.first_switch() {
            0
        } else {
            next_task(before.curr(), before.n_tasks())
        }
        &&& after.curr() == next
        &&& before.states_consistent() ==> after.states_consistent()
        &&& before.tcbs().len() == MAX_APPS
        &&& after.tcbs().len() == MAX_APPS
        &&& next < MAX_APPS
        &&& after.next_task_psp() == before.tcbs()[next as int].sp
        &&& forall|i: int| 0 <= i < MAX_APPS ==> same_context(#[trigger] after.tcbs()[i], before.tcbs()[i])
    }

    /// Context switches never alter a saved context: across any run of
    /// switches the saved contexts stay as they were, and every switch
    /// restores the stack pointer its task was last saved with.
    pub proof fn lemma_contexts_survive_switches(ss: Seq<Scheduler>, nexts: Seq<nat>)
        requires
            ss.len() == nexts.len() + 1,
            forall|j: int| 0 <= j < nexts.len() ==> #[trigger] Self::switched(ss[j], ss[j + 1], nexts[j]),
        ensures
            forall|i: int| 0 <= i < MAX_APPS ==> same_context(#[trigger] ss.last().tcbs()[i], ss[0].tcbs()[i]),
            forall|j: int|
                0 <= j < nexts.len() ==> (#[trigger] ss[j + 1]).next_task_psp() == ss[0].tcbs()[nexts[j] as int].sp,
        decreases nexts.len(),
    {
        if nexts.len() > 0 {
            let k = nexts.len() - 1;
            let ss0 = ss.drop_last();
            let n0 = nexts.drop_last();
            assert forall|j: int| 0 <= j < n0.len() implies #[trigger] Self::switched(ss0[j], ss0[j + 1], n0[j]) by {
                assert(Self::switched(ss[j], ss[j + 1], nexts[j]));
            }
            Self::lemma_contexts_survive_switches(ss0, n0);
            assert(Self::switched(ss[k], ss[k + 1], nexts[k]));
            assert(ss0.last() == ss[k]);
            assert forall|j: int| 0 <= j < nexts.len() implies (#[trigger] ss[j + 1]).next_task_psp()
                == ss[0].tcbs()[nexts[j] as int].sp by {
                if j < k {
                    assert(ss0[j + 1] == ss[j + 1]);
                    assert(n0[j] == nexts[j]);
                } else {
                    assert(same_context(ss[k].tcbs()[nexts[k] as int], ss[0].tcbs()[nexts[k] as int]));
                }
            }
        }
    }

    /// After one or more switches among `n > 0` tasks set up with every task
    /// ready (or any state where only the current task runs), exactly one
    /// task runs: the current one, which is one of the tasks.
    pub proof fn lemma_one_running_after_switches(ss: Seq<Scheduler>, nexts: Seq<nat>)
        requires
            ss.len() == nexts.len() + 1,
            nexts.len() >= 1,
            ss[0].wf(),
            0 < ss[0].n_tasks() <= MAX_APPS,
            ss[0].states_consistent(),
            forall|j: int| 0 <= j < nexts.len() ==> #[trigger] Self::switched(ss[j], ss[j + 1], nexts[j]),
        ensures
            ss.last().states_consistent(),
            !ss.last().first_switch(),
            ss.last().curr() < ss.last().n_tasks(),
            ss.last().n_tasks() == ss[0].n_tasks(),
            forall|i: int|
                0 <= i < ss.last().n_tasks() ==> ((#[trigger] ss.last().tcbs()[i]).state == TaskState::Running
                    <==> i == ss.last().curr()),
        decreases nexts.len(),
    {
        let k = nexts.len() - 1;
        if k > 0 {
            let ss0 = ss.drop_last();
            let n0 = nexts.drop_last();
            assert forall|j: int| 0 <= j < n0.len() implies #[trigger] Self::switched(ss0[j], ss0[j + 1], n0[j]) by {
                assert(Self::switched(ss[j], ss[j + 1], nexts[j]));
            }
            Self::lemma_one_running_after_switches(ss0, n0);
            assert(ss0.last() == ss[k]);
        }
        assert(Self::switched(ss[k], ss[k + 1], nexts[k]));
        assert(ss[k].states_consistent());
        assert(ss.last() == ss[k + 1]);
        let last = ss[k + 1];
        last.lemma_wf();
        assert forall|i: int| 0 <= i < last.n_tasks() implies ((#[trigger] last.tcbs()[i]).state
            == TaskState::Running <==> i == last.curr()) by {
            assert(last.states_consistent());
        }
    }

    /// Switches after the first go round-robin: starting from current task
    /// `c` among `n` tasks, switch `j` (counting from 0) restores task
    /// `task_after(c, n, j + 1)`; over `n` switches every task is restored
    /// exactly once, the last switch restoring `c`.
    pub proof fn lemma_switches_round_robin(ss: Seq<Scheduler>, nexts: Seq<nat>)
        requires
            ss.len() == nexts.len() + 1,
            !ss[0].first_switch(),
            ss[0].n_tasks() > 0,
            ss[0].curr() < ss[0].n_tasks(),
            forall|j: int| 0 <= j < nexts.len() ==> #[trigger] Self::switched(ss[j], ss[j + 1], nexts[j]),
        ensures
            forall|j: int|
                0 <= j < nexts.len() ==> #[trigger] nexts[j] == task_after(
                    ss[0].curr(),
                    ss[0].n_tasks(),
                    (j + 1) as nat,
                ),
            forall|j: int|
                0 <= j < ss.len() ==> (#[trigger] ss[j]).n_tasks() == ss[0].n_tasks() && ss[j].curr()
                    == task_after(ss[0].curr(), ss[0].n_tasks(), j as nat) && !ss[j].first_switch(),
            nexts.len() == ss[0].n_tasks() ==> {
                &&& forall|t: nat|
                    t < ss[0].n_tasks() ==> #[trigger] nexts[switches_until(ss[0].curr(), ss[0].n_tasks(), t)
                        - 1] == t
                &&& forall|j1: int, j2: int|
                    0 <= j1 < j2 < nexts.len() ==> #[trigger] nexts[j1] != #[trigger] nexts[j2]
                &&& nexts.last() == ss[0].curr()
            },
        decreases nexts.len(),
    {
        let c = ss[0].curr();
        let n = ss[0].n_tasks();
        if nexts.len() > 0 {
            let k = nexts.len() - 1;
            let ss0 = ss.drop_last();
            let n0 = nexts.drop_last();
            assert forall|j: int| 0 <= j < n0.len() implies #[trigger] Self::switched(ss0[j], ss0[j + 1], n0[j]) by {
                assert(Self::switched(ss[j], ss[j + 1], nexts[j]));
            }
            Self::lemma_switches_round_robin(ss0, n0);
            assert(Self::switched(ss[k], ss[k + 1], nexts[k]));
            assert(ss0[k] == ss[k]);
            assert(nexts[k] == task_after(c, n, (k + 1) as nat));
            assert forall|j: int| 0 <= j < ss.len() implies (#[trigger] ss[j]).n_tasks() == n && ss[j].curr()
                == task_after(c, n, j as nat) && !ss[j].first_switch() by {
                if j <= k {
                    assert(ss0[j] == ss[j]);
                }
            }
            assert forall|j: int| 0 <= j < nexts.len() implies #[trigger] nexts[j] == task_after(
                c,
                n,
                (j + 1) as nat,
            ) by {
                if j < k {
                    assert(n0[j] == nexts[j]);
                }
            }
            if nexts.len() == n {
                lemma_round_robin_fair(c, n);
                assert forall|t: nat| t < n implies #[trigger] nexts[switches_until(c, n, t) - 1] == t by {
                    let j = switches_until(c, n, t) - 1;
                    assert(nexts[j] == task_after(c, n, (j + 1) as nat));
                }
                assert forall|j1: int, j2: int| 0 <= j1 < j2 < nexts.len() implies #[trigger] nexts[j1]
                    != #[trigger] nexts[j2] by {
                    assert(nexts[j1] == task_after(c, n, (j1 + 1) as nat));
                    assert(nexts[j2] == task_after(c, n, (j2 + 1) as nat));
                }
            }
        }
    }

    /// `after` is `before` with the current task's context saved as `psp`
    /// and `regs` (r4-r11).
    pub open spec fn saved(before: Scheduler, after: Scheduler, psp: u32, regs: [u32; 8]) -> bool {
        &&& before.curr() < before.n_tasks()
        &&& after.tcbs() == before.tcbs().update(
            before.curr() as int,
            with_context(before.tcbs()[before.curr() as int], psp, regs),
        )
    }

    /// A preempted task resumes where it was preempted: when the current
    /// task's context is saved and switches follow, the first switch that
    /// restores that task leaves the saved stack pointer for the restore,
    /// and its saved registers are still in its control block.
    pub proof fn lemma_preempted_task_resumes(
        s0: Scheduler,
        ss: Seq<Scheduler>,
        nexts: Seq<nat>,
        psp: u32,
        regs: [u32; 8],
        j: int,
    )
        requires
            s0.wf(),
            ss.len() == nexts.len() + 1,
            Self::saved(s0, ss[0], psp, regs),
            forall|k: int| 0 <= k < nexts.len() ==> #[trigger] Self::switched(ss[k], ss[k + 1], nexts[k]),
            0 <= j < nexts.len(),
            nexts[j] == s0.curr(),
        ensures
            ss[j + 1].next_task_psp() == psp,
            same_context(
                ss[j + 1].tcbs()[s0.curr() as int],
                with_context(s0.tcbs()[s0.curr() as int], psp, regs),
            ),
    {
        let prefix = ss.take(j + 2);
        let pn = nexts.take(j + 1);
        assert forall|k: int| 0 <= k < pn.len() implies #[trigger] Self::switched(prefix[k], prefix[k + 1], pn[k]) by {
            assert(Self::switched(ss[k], ss[k + 1], nexts[k]));
        }
        Self::lemma_contexts_survive_switches(prefix, pn);
        assert(prefix[j + 1] == ss[j + 1]);
        assert(prefix.last() == ss[j + 1]);
        assert(Self::switched(ss[j], ss[j + 1], nexts[j]));
        assert(prefix[0] == ss[0]);
        assert(same_context(ss[j + 1].tcbs()[s0.curr() as int], ss[0].tcbs()[s0.curr() as int]));
    }

    /// `after` is what saving `psp` and `regs` (r4-r11) does to `before`:
    /// the current task's context is saved when a task is current, and
    /// nothing changes otherwise.
    pub open spec fn save_step(before: Scheduler, after: Scheduler, psp: u32, regs: [u32; 8]) -> bool {
        &&& after.curr() == before.curr()
        &&& after.n_tasks() == before.n_tasks()
        &&& after.tcbs() == if before.curr() < before.n_tasks() {
            before.tcbs().update(before.curr() as int, with_context(before.tcbs()[before.curr() as int], psp, regs))
        } else {
            before.tcbs()
        }
    }

    /// `after` follows `before` by one step of the PendSV handler.
    pub open spec fn pend_sv_step(before: Scheduler, after: Scheduler, step: PendSvStep) -> bool {
        match step {
            PendSvStep::Switch { next } => Self::switched(before, after, next as nat),
            PendSvStep::Save { psp, regs } => Self::save_step(before, after, psp, regs),
        }
    }

    proof fn lemma_context_kept_before_restore(ss: Seq<Scheduler>, steps: Seq<PendSvStep>, c: nat, m: int)
        requires
            ss.len() == steps.len() + 1,
            forall|k: int| 0 <= k < steps.len() ==> #[trigger] Self::pend_sv_step(ss[k], ss[k + 1], steps[k]),
            0 <= m < ss.len(),
            c < MAX_APPS,
            ss[0].tcbs().len() == MAX_APPS,
            ss[0].curr() == c,
            steps.len() > 0 ==> steps[0] is Switch,
            forall|k: int| 0 <= k < m ==> #[trigger] steps[k] != (PendSvStep::Switch { next: c as usize }),
        ensures
            ss[m].tcbs().len() == MAX_APPS,
            ss[m].curr() < MAX_APPS,
            same_context(ss[m].tcbs()[c as int], ss[0].tcbs()[c as int]),
            m > 0 ==> ss[m].curr() != c,
        decreases m,
    {
        if m > 0 {
            let k = m - 1;
            Self::lemma_context_kept_before_restore(ss, steps, c, k);
            let before = ss[k];
            let after = ss[k + 1];
            assert(Self::pend_sv_step(ss[k], ss[k + 1], steps[k]));
            assert(steps[k] != (PendSvStep::Switch { next: c as usize }));
            match steps[k] {
                PendSvStep::Switch { next } => {
                    assert(same_context(after.tcbs()[c as int], before.tcbs()[c as int]));
                },
                PendSvStep::Save { psp, regs } => {
                    assert(k > 0);
                    if before.curr() < before.n_tasks() {
                        assert(after.tcbs()[c as int] == before.tcbs()[c as int]);
                    }
                },
            }
        }
    }

    /// A preempted task resumes where it was preempted, also when the
    /// contexts of other tasks are saved in between: after the current
    /// task's context is saved as `psp` and `regs`, in a run of handler
    /// steps (switches and saves) that starts by switching away, the first
    /// switch that restores that task leaves the saved stack pointer for the
    /// restore, and its saved registers are still in its control block.
    pub proof fn lemma_preempted_task_resumes_among_saves(
        s0: Scheduler,
        ss: Seq<Scheduler>,
        steps: Seq<PendSvStep>,
        psp: u32,
        regs: [u32; 8],
        j: int,
    )
        requires
            s0.wf(),
            s0.curr() < s0.n_tasks(),
            Self::save_step(s0, ss[0], psp, regs),
            ss.len() == steps.len() + 1,
            forall|k: int| 0 <= k < steps.len() ==> #[trigger] Self::pend_sv_step(ss[k], ss[k + 1], steps[k]),
            steps.len() > 0 ==> steps[0] is Switch,
            0 <= j < steps.len(),
            steps[j] == (PendSvStep::Switch { next: s0.curr() as usize }),
            forall|k: int|
                0 <= k < j ==> #[trigger] steps[k] != (PendSvStep::Switch { next: s0.curr() as usize }),
        ensures
            ss[j + 1].next_task_psp() == psp,
            same_context(
                ss[j + 1].tcbs()[s0.curr() as int],
                with_context(s0.tcbs()[s0.curr() as int], psp, regs),
            ),
    {
        let c = s0.curr();
        assert(ss[0].tcbs()[c as int] == with_context(s0.tcbs()[c as int], psp, regs));
        Self::lemma_context_kept_before_restore(ss, steps, c, j);
        assert(Self::pend_sv_step(ss[j], ss[j + 1], steps[j]));
        assert(Self::switched(ss[j], ss[j + 1], c));
        assert(same_context(ss[j + 1].tcbs()[c as int], ss[j].tcbs()[c as int]));
    }

    /// The scheduling decision of the PendSV handler. On the first switch
    /// task 0 starts; afterwards the current task becomes ready and the
    /// next one in round-robin order runs. Returns the slot whose saved
    /// registers r4-r11 are to be restored; its saved stack pointer is left
    /// in `next_task_psp`. After the first switch there must be a task, and
    /// the next one must have a control block.
    pub fn pend_sv_switch_rust(&mut self) -> (next: usize)
        requires
            old(self).wf(),
            old(self).first_switch() || (old(self).n_tasks() > 0 && next_task(
                old(self).curr(),
                old(self).n_tasks(),
            ) < MAX_APPS),
        ensures
            final(self).wf(),
            final(self).n_tasks() == old(self).n_tasks(),
            final(self).stacks() == old(self).stacks(),
            !final(self).first_switch(),
            old(self).first_switch() ==> {
                &&& next == 0
                &&& final(self).curr() == 0
                &&& final(self).tcbs() == old(self).tcbs().update(
                    0,
                    with_state(old(self).tcbs()[0], TaskState::Running),
                )
            },
            !old(self).first_switch() ==> {
                &&& next == next_task(old(self).curr(), old(self).n_tasks())
                &&& final(self).curr() == next
                &&& final(self).tcbs() == old(self).tcbs().update(
                    old(self).curr() as int,
                    with_state(old(self).tcbs()[old(self).curr() as int], TaskState::Ready),
                ).update(
                    next as int,
                    with_state(old(self).tcbs()[next as int], TaskState::Running),
                )
            },
            final(self).next_task_psp() == old(self).tcbs()[next as int].sp,
            Self::switched(*old(self), *final(self), next as nat),
            old(self).states_consistent() ==> final(self).states_consistent(),
    {
        if self.first_switch {
            self.first_switch = false;
            let mut t = self.tcbs[0];
            t.state = TaskState::Running;
            self.tcbs.set(0, t);
            self.next_task_psp = self.tcbs[0].sp;
            0
        } else {
            let current_task = self.curr;
            let next_task = (current_task + 1) % self.n_tasks;
            let mut c = self.tcbs[current_task];
            c.state = TaskState::Ready;
            self.tcbs.set(current_task, c);
            let mut t = self.tcbs[next_task];
            t.state = TaskState::Running;
            self.tcbs.set(next_task, t);
            self.curr = next_task;
            self.next_task_psp = self.tcbs[next_task].sp;
            next_task
        }
    }

    /// Saves the software context of the preempted task: its process stack
    /// pointer and registers r4-r11 go into the current task's control
    /// block. Does nothing when no task has been set up.
    pub fn save_current_context_rust(
        &mut self,
        psp: u32,
        r4: u32,
        r5: u32,
        r6: u32,
        r7: u32,
        r8: u32,
        r9: u32,
        r10: u32,
        r11: u32,
    )
        requires
            old(self).wf(),
        ensures
            final(self).wf(),
            final(self).curr() == old(self).curr(),
            final(self).n_tasks() == old(self).n_tasks(),
            final(self).first_switch() == old(self).first_switch(),
            final(self).next_task_psp() == old(self).next_task_psp(),
            final(self).stacks() == old(self).stacks(),
            old(self).curr() < old(self).n_tasks() ==> Self::saved(
                *old(self),
                *final(self),
                psp,
                [r4, r5, r6, r7, r8, r9, r10, r11],
            ),
            old(self).curr() < old(self).n_tasks() ==> final(self).tcbs() == old(self).tcbs().update(
                old(self).curr() as int,
                with_context(
                    old(self).tcbs()[old(self).curr() as int],
                    psp,
                    [r4, r5, r6, r7, r8, r9, r10, r11],
                ),
            ),
            old(self).curr() >= old(self).n_tasks() ==> final(self).tcbs() == old(self).tcbs(),
            Self::save_step(*old(self), *final(self), psp, [r4, r5, r6, r7, r8, r9, r10, r11]),
            old(self).states_consistent() ==> final(self).states_consistent(),
    {
        if self.curr < self.n_tasks {
            let current_task = self.curr;
            let mut t = self.tcbs[current_task];
            t.sp = psp;
            t.r4 = r4;
            t.r5 = r5;
            t.r6 = r6;
            t.r7 = r7;
            t.r8 = r8;
            t.r9 = r9;
            t.r10 = r10;
            t.r11 = r11;
            self.tcbs.set(current_task, t);
        }
    }
}

} // verus!
