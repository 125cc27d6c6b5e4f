//! Applications, the system calls they make, and the choice of which
//! application the run loop ticks.
use vstd::prelude::*;
use crate::text::str_eq;
use crate::board::BoardOp;

verus! {

/// The logical output pins.
#[derive(Clone, Copy, Debug, PartialEq, Eq, Structural)]
pub enum GpioPin {
    Led1,
    Led2,
}

/// A system call an application makes during a tick, performed by the
/// board in the order the application gives.
#[derive(Clone, Copy, Debug, PartialEq, Eq, Structural)]
pub enum SysCall {
    GpioWrite { pin: GpioPin, high: bool },
    GpioToggle { pin: GpioPin },
    SleepMs { ms: u32 },
}

/// The system calls a board serves to applications. Each call returns the
/// hardware work it leaves to be done.
pub trait Syscalls {
    /// The board's lines are usable.
    spec fn valid(&self) -> bool;

    /// Drives a logical pin high or low.
    fn gpio_write(&mut self, pin: GpioPin, high: bool) -> (op: BoardOp)
        requires
            old(self).valid(),
    ;

    /// Inverts a logical pin.
    fn gpio_toggle(&mut self, pin: GpioPin) -> (op: BoardOp);

    /// Sleeps `ms` milliseconds.
    fn sleep_ms(&mut self, ms: u32) -> (op: BoardOp);

    /// Milliseconds slept since start-up.
    fn now_ms(&self) -> (t: u64);

    /// Whether the user button is pressed, given the input data register
    /// `idr` of its port.
    fn user_button_pressed(&self, idr: u32) -> (pressed: bool)
        requires
            self.valid(),
    ;
}

/// An application: it has a name, may do something once when the system
/// starts, and does one step of its work per tick. A tick is given the
/// clock read at its start and returns the system calls it makes.
pub trait App: Sized {
    /// The application's name.
    spec fn app_name(&self) -> Seq<char>;

    /// The application's name.
    fn name(&self) -> (n: &'static str)
        ensures
            n@ == self.app_name(),
    ;

    /// Start-up work may take the application from `self` to `after`,
    /// making `calls`.
    spec fn inits_to(&self, after: Self, calls: Seq<SysCall>) -> bool;

    /// One-time start-up work.
    fn init(&mut self) -> (calls: Vec<SysCall>)
        ensures
            old(self).inits_to(*final(self), calls@),
    ;

    /// A tick at clock `now_ms` may take the application from `self` to
    /// `after`, making `calls`.
    spec fn ticks_to(&self, now_ms: u64, after: Self, calls: Seq<SysCall>) -> bool;

    /// One step of the application's work.
    fn tick(&mut self, now_ms: u64) -> (calls: Vec<SysCall>)
        ensures
            old(self).ticks_to(now_ms, *final(self), calls@),
    ;
}

/// Which applications the run loop ticks.
pub enum AppCall<'a> {
    /// The first application with this name, or the first application if
    /// none has it.
    ByName(&'a str),
    /// The application at this index (modulo the number of applications).
    ByIndex(usize),
    /// Every application in turn.
    All,
    /// `primary` while the button is released, `secondary` while it is
    /// pressed (both modulo the number of applications), sleeping 1 ms
    /// after each tick.
    SwitchOnButton { primary: usize, secondary: usize },
}

/// The schedule the run loop follows, with indices already reduced to
/// valid ones.
#[derive(Clone, Copy, Debug, PartialEq, Eq, Structural)]
pub enum RunPlan {
    Fixed { index: usize },
    All,
    SwitchOnButton { primary: usize, secondary: usize },
}

impl RunPlan {
    /// The application ticked at step `step` of the loop among `n`
    /// applications, when the button reads `pressed` (only the button
    /// schedule reads it).
    pub open spec fn spec_app_at(self, step: nat, n: nat, pressed: bool) -> nat {
        match self {
            RunPlan::Fixed { index } => index as nat,
            RunPlan::All => step % n,
            RunPlan::SwitchOnButton { primary, secondary } => if pressed {
                secondary as nat
            } else {
                primary as nat
            },
        }
    }

    /// The indices of the plan are below `n`.
    pub open spec fn valid(self, n: nat) -> bool {
        match self {
            RunPlan::Fixed { index } => index < n,
            RunPlan::All => n > 0,
            RunPlan::SwitchOnButton { primary, secondary } => primary < n && secondary < n,
        }
    }

    /// The application ticked at step `step` of the loop.
    pub fn app_at(&self, step: usize, n: usize, pressed: bool) -> (i: usize)
        requires
            self.valid(n as nat),
        ensures
            i == self.spec_app_at(step as nat, n as nat, pressed),
            i < n,
            self matches RunPlan::Fixed { index } ==> i == index,
            self matches RunPlan::SwitchOnButton { primary, secondary } ==> i == if pressed {
                secondary
            } else {
                primary
            },
            *self is All ==> i == step % n,
    {
        match self {
            RunPlan::Fixed { index } => *index,
            RunPlan::All => step % n,
            RunPlan::SwitchOnButton { primary, secondary } => if pressed {
                *secondary
            } else {
                *primary
            },
        }
    }

    /// The loop's step after `step` among `n` applications: the next one,
    /// wrapping to 0 after the last.
    pub fn next_step(step: usize, n: usize) -> (s: usize)
        requires
            step < n,
        ensures
            s == (step + 1) % (n as int),
            s < n,
    {
        (step + 1) % n
    }

    /// Whether each step reads the button and then sleeps 1 ms after the
    /// tick.
    pub fn uses_button(&self) -> (b: bool)
        ensures
            b == (self is SwitchOnButton),
    {
        match self {
            RunPlan::SwitchOnButton { .. } => true,
            _ => false,
        }
    }
}

/// The loop's step at pass `p` (counting from 0) among `n` applications:
/// 0 at the first pass, then advanced by `RunPlan::next_step`.
pub open spec fn step_at_pass(n: nat, p: nat) -> nat
    decreases p,
{
    if p == 0 {
        0
    } else {
        (step_at_pass(n, (p - 1) as nat) + 1) % n
    }
}

/// The application the all-applications plan ticks at pass `p` of the
/// loop among `n` applications.
pub open spec fn all_pass_app(n: nat, p: nat) -> nat {
    RunPlan::All.spec_app_at(step_at_pass(n, p), n, false)
}

/// The pass among `k`, ..., `k + n - 1` at which application `t` of `n` is
/// ticked under the all-applications plan.
pub open spec fn all_pass_of(n: nat, k: nat, t: nat) -> nat {
    let r = k % n;
    if t >= r {
        (k + (t - r)) as nat
    } else {
        (k + (t + n - r)) as nat
    }
}

/// The loop's step at pass `p` is `p % n`.
pub proof fn lemma_step_at_pass(n: nat, p: nat)
    requires
        n > 0,
    ensures
        step_at_pass(n, p) == p % n,
    decreases p,
{
    if p == 0 {
        vstd::arithmetic::div_mod::lemma_small_mod(0, n);
    } else {
        lemma_step_at_pass(n, (p - 1) as nat);
        vstd::arithmetic::div_mod::lemma_add_mod_noop_right(1, p - 1, n as int);
    }
}

/// The all-applications plan ticks the applications in slice order, round
/// and round: pass `p` ticks application `p % n`, so two passes less than
/// `n` apart tick different applications, and the `n` passes from any pass
/// `k` tick every application exactly once (application `t` at pass
/// `all_pass_of(n, k, t)`).
pub proof fn lemma_all_plan_round_robin(n: nat, k: nat)
    requires
        n > 0,
    ensures
        forall|p: nat| #[trigger] all_pass_app(n, p) == p % n,
        forall|p1: nat, p2: nat|
            p1 < p2 < p1 + n ==> #[trigger] all_pass_app(n, p1) != #[trigger] all_pass_app(n, p2),
        forall|t: nat|
            t < n ==> k <= #[trigger] all_pass_of(n, k, t) < k + n && all_pass_app(n, all_pass_of(n, k, t)) == t,
{
    assert forall|p: nat| #[trigger] all_pass_app(n, p) == p % n by {
        lemma_step_at_pass(n, p);
        vstd::arithmetic::div_mod::lemma_mod_twice(p as int, n as int);
    }
    assert forall|p1: nat, p2: nat| p1 < p2 < p1 + n implies #[trigger] all_pass_app(n, p1) != #[trigger] all_pass_app(
        n,
        p2,
    ) by {
        vstd::arithmetic::div_mod::lemma_mod_equivalence(p2 as int, p1 as int, n as int);
        vstd::arithmetic::div_mod::lemma_small_mod((p2 - p1) as nat, n);
    }
    assert forall|t: nat| t < n implies k <= #[trigger] all_pass_of(n, k, t) < k + n && all_pass_app(
        n,
        all_pass_of(n, k, t),
    ) == t by {
        let r = k % n;
        let p = all_pass_of(n, k, t);
        vstd::arithmetic::div_mod::lemma_mod_bound(k as int, n as int);
        vstd::arithmetic::div_mod::lemma_add_mod_noop(k as int, (p - k) as int, n as int);
        if t >= r {
            vstd::arithmetic::div_mod::lemma_small_mod((t - r) as nat, n);
            vstd::arithmetic::div_mod::lemma_small_mod(t, n);
        } else {
            vstd::arithmetic::div_mod::lemma_small_mod((t + n - r) as nat, n);
            vstd::arithmetic::div_mod::lemma_mod_add_multiples_vanish(t as int, n as int);
            vstd::arithmetic::div_mod::lemma_small_mod(t, n);
        }
    }
}

/// A fixed plan ticks its application at every step, whatever the button
/// reads; the button plan ticks the secondary application exactly when the
/// button is pressed and the primary one otherwise, at every step.
pub proof fn lemma_fixed_and_button_plans(index: usize, primary: usize, secondary: usize, n: nat, step1: nat, step2: nat, pressed: bool)
    ensures
        (RunPlan::Fixed { index }).spec_app_at(step1, n, pressed) == index,
        (RunPlan::Fixed { index }).spec_app_at(step1, n, pressed) == (RunPlan::Fixed { index }).spec_app_at(
            step2,
            n,
            !pressed,
        ),
        (RunPlan::SwitchOnButton { primary, secondary }).spec_app_at(step1, n, true) == secondary,
        (RunPlan::SwitchOnButton { primary, secondary }).spec_app_at(step1, n, false) == primary,
        (RunPlan::SwitchOnButton { primary, secondary }).spec_app_at(step1, n, pressed)
            == (RunPlan::SwitchOnButton { primary, secondary }).spec_app_at(step2, n, pressed),
{
}

/// The index of the first name in `names[i..]` equal to `name`.
pub open spec fn find_name_from(names: Seq<Seq<char>>, name: Seq<char>, i: nat) -> Option<nat>
    decreases names.len() - i,
{
    if i >= names.len() {
        None
    } else if names[i as int] == name {
        Some(i)
    } else {
        find_name_from(names, name, i + 1)
    }
}

/// The index of the first name in `names` equal to `name`, or 0 if none is.
pub open spec fn index_by_name(names: Seq<Seq<char>>, name: Seq<char>) -> nat {
    match find_name_from(names, name, 0) {
        Some(i) => i,
        None => 0,
    }
}

/// Each application of `before` did its start-up work, taking it to the
/// application at the same index of `after` and making the calls at that
/// index of `calls`.
pub open spec fn started_up<A: App>(before: Seq<A>, after: Seq<A>, calls: Seq<Seq<SysCall>>) -> bool {
    &&& after.len() == before.len()
    &&& calls.len() == before.len()
    &&& forall|k: int| 0 <= k < before.len() ==> #[trigger] before[k].inits_to(after[k], calls[k])
}

/// The applications and whether they have been started.
pub struct Os<A> {
    apps: Vec<A>,
    started: bool,
}

impl<A: App> Os<A> {
    /// The applications.
    pub closed spec fn apps(&self) -> Seq<A> {
        self.apps@
    }

    /// Whether the applications' start-up work has been done.
    pub closed spec fn started(&self) -> bool {
        self.started
    }

    /// The applications' names.
    pub open spec fn names(&self) -> Seq<Seq<char>> {
        self.apps().map_values(|a: A| a.app_name())
    }

    /// A system over `apps` that has not started.
    pub fn new(apps: Vec<A>) -> (os: Self)
        ensures
            os.apps() == apps@,
            !os.started(),
    {
        Self { apps, started: false }
    }

    /// The number of applications.
    pub fn app_count(&self) -> (n: usize)
        ensures
            n == self.apps().len(),
    {
        self.apps.len()
    }

    /// Starts the run loop for `call`: on the first run every application's
    /// start-up work is done, in order, and the calls it makes are returned
    /// with the schedule the loop follows.
    pub fn run(&mut self, call: AppCall) -> (r: (RunPlan, Vec<SysCall>))
        requires
            old(self).apps().len() > 0,
        ensures
            final(self).started(),
            final(self).apps().len() == old(self).apps().len(),
            old(self).started() ==> final(self).apps() == old(self).apps() && r.1@.len() == 0,
            !old(self).started() ==> exists|cs: Seq<Seq<SysCall>>|
                #[trigger] started_up(old(self).apps(), final(self).apps(), cs) && r.1@ == cs.flatten(),
            r.0.valid(old(self).apps().len()),
            match call {
                AppCall::ByIndex(i) => r.0 == RunPlan::Fixed {
                    index: (i as nat % old(self).apps().len()) as usize,
                },
                AppCall::ByName(name) => r.0 == RunPlan::Fixed {
                    index: index_by_name(final(self).names(), name@) as usize,
                },
                AppCall::All => r.0 == RunPlan::All,
                AppCall::SwitchOnButton { primary, secondary } => r.0 == RunPlan::SwitchOnButton {
                    primary: (primary as nat % old(self).apps().len()) as usize,
                    secondary: (secondary as nat % old(self).apps().len()) as usize,
                },
            },
    {
        let mut init_calls: Vec<SysCall> = Vec::new();
        if !self.started {
            let n = self.apps.len();
            let ghost before = self.apps@;
            let ghost mut cs: Seq<Seq<SysCall>> = Seq::empty();
            let mut i: usize = 0;
            while i < n
                invariant
                    n == self.apps@.len(),
                    before.len() == n,
                    i <= n,
                    cs.len() == i,
                    init_calls@ == cs.flatten(),
                    forall|k: int| 0 <= k < i ==> #[trigger] before[k].inits_to(self.apps@[k], cs[k]),
                    forall|k: int| i <= k < n ==> #[trigger] self.apps@[k] == before[k],
                decreases n - i,
            {
                let ghost apps_before = self.apps@;
                let mut calls = self.apps[i].init();
                proof {
                    cs.lemma_flatten_push(calls@);
                    cs = cs.push(calls@);
                }
                init_calls.append(&mut calls);
                assert forall|k: int| 0 <= k < i + 1 implies #[trigger] before[k].inits_to(self.apps@[k], cs[k]) by {
                    if k < i {
                        assert(self.apps@[k] == apps_before[k]);
                    }
                }
                assert forall|k: int| i + 1 <= k < n implies #[trigger] self.apps@[k] == before[k] by {
                    assert(self.apps@[k] == apps_before[k]);
                }
                i = i + 1;
            }
            assert(started_up(before, self.apps@, cs));
            self.started = true;
        }
        let n = self.apps.len();
        let plan = match call {
            AppCall::ByIndex(i) => RunPlan::Fixed { index: i % n },
            AppCall::ByName(name) => RunPlan::Fixed { index: self.find_app(name) },
            AppCall::All => RunPlan::All,
            AppCall::SwitchOnButton { primary, secondary } => RunPlan::SwitchOnButton {
                primary: primary % n,
                secondary: secondary % n,
            },
        };
        (plan, init_calls)
    }

    /// The index of the first application named `name`, or 0 if none is.
    pub fn find_app(&self, name: &str) -> (idx: usize)
        requires
            self.apps().len() > 0,
        ensures
            idx == index_by_name(self.names(), name@),
            idx < self.apps().len(),
    {
        let n = self.apps.len();
        let mut i: usize = 0;
        while i < n
            invariant
                n == self.apps@.len(),
                i <= n,
                find_name_from(self.names(), name@, 0) == find_name_from(self.names(), name@, i as nat),
            decreases n - i,
        {
            if str_eq(self.apps[i].name(), name) {
                return i;
            }
            i = i + 1;
        }
        0
    }

    /// Ticks application `index` with the clock `now_ms`; returns the
    /// system calls it makes.
    pub fn tick(&mut self, index: usize, now_ms: u64) -> (calls: Vec<SysCall>)
        requires
            index < old(self).apps().len(),
        ensures
            final(self).apps().len() == old(self).apps().len(),
            final(self).started() == old(self).started(),
            forall|j: int|
                0 <= j < old(self).apps().len() && j != index ==> #[trigger] final(self).apps()[j]
                    == old(self).apps()[j],
            old(self).apps()[index as int].ticks_to(now_ms, final(self).apps()[index as int], calls@),
    {
        self.apps[index].tick(now_ms)
    }
}

} // verus!
