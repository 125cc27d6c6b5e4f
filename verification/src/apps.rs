//! The registered applications of the pre-emptive kernel. Each runs an
//! endless loop; the functions here are one pass of that loop: they update
//! the application's counters and say which reports that pass prints.
use vstd::prelude::*;

verus! {

/// `x + 1`, wrapping at 2^32.
pub open spec fn inc(x: u32) -> u32 {
    vstd::wrapping::u32_specs::wrapping_add(x, 1)
}

/// Advances a progress counter by one (wrapping); reports every
/// `every`-th pass.
fn progress(count: &mut u32, every: u32) -> (report: bool)
    requires
        every > 0,
    ensures
        *final(count) == inc(*old(count)),
        report == (*final(count) % every == 0),
{
    *count = count.wrapping_add(1);
    *count % every == 0
}

/// One pass of the LED blinker: the counter advances; every 100th pass
/// is reported.
pub fn led_blinker(count: &mut u32) -> (report: bool)
    ensures
        *final(count) == inc(*old(count)),
        report == (*final(count) % 100 == 0),
{
    progress(count, 100)
}

/// One pass of the Fibonacci application: the counter advances; every
/// 100th pass is reported.
pub fn fibonacci(count: &mut u32) -> (report: bool)
    ensures
        *final(count) == inc(*old(count)),
        report == (*final(count) % 100 == 0),
{
    progress(count, 100)
}

/// One pass of the counter application: the counter advances; every
/// 100th pass is reported.
pub fn counter(count: &mut u32) -> (report: bool)
    ensures
        *final(count) == inc(*old(count)),
        report == (*final(count) % 100 == 0),
{
    progress(count, 100)
}

/// One pass of the dynamically spawned worker: the work count advances;
/// every 100th pass is reported.
pub fn dynamic_worker_task(work_count: &mut u32) -> (report: bool)
    ensures
        *final(work_count) == inc(*old(work_count)),
        report == (*final(work_count) % 100 == 0),
{
    progress(work_count, 100)
}

/// One pass of the sensor reader: the reading count advances; every 10th
/// reading also reports the sensor values.
pub fn sensor_reader_entry(reading_count: &mut u32) -> (report_values: bool)
    ensures
        *final(reading_count) == inc(*old(reading_count)),
        report_values == (*final(reading_count) % 10 == 0),
{
    progress(reading_count, 10)
}

/// One pass of the watchdog: the heartbeat count advances; every 20th
/// heartbeat is reported.
pub fn watchdog_entry(heartbeat_count: &mut u32) -> (report: bool)
    ensures
        *final(heartbeat_count) == inc(*old(heartbeat_count)),
        report == (*final(heartbeat_count) % 20 == 0),
{
    progress(heartbeat_count, 20)
}

/// The counters of the network stack simulation.
pub struct NetworkStack {
    pub packets: u32,
    pub bytes: u32,
}

/// One pass of the network stack: one 64-byte packet is processed; every
/// 1000th packet is reported.
pub fn network_stack_entry(s: &mut NetworkStack) -> (report: bool)
    ensures
        final(s).packets == inc(old(s).packets),
        final(s).bytes == vstd::wrapping::u32_specs::wrapping_add(old(s).bytes, 64),
        report == (final(s).packets % 1000 == 0),
{
    s.packets = s.packets.wrapping_add(1);
    s.bytes = s.bytes.wrapping_add(64);
    s.packets % 1000 == 0
}

/// The counters of the GPIO monitor.
pub struct GpioMonitor {
    pub count: u32,
    pub changes: u32,
}

/// One pass of the GPIO monitor: the pass count advances; every 1000th
/// pass a state change is counted, and every third change is reported.
pub fn gpio_monitor_entry(s: &mut GpioMonitor) -> (report: bool)
    ensures
        final(s).count == inc(old(s).count),
        final(s).changes == if final(s).count % 1000 == 0 {
            inc(old(s).changes)
        } else {
            old(s).changes
        },
        report == (final(s).count % 1000 == 0 && final(s).changes % 3 == 0),
{
    s.count = s.count.wrapping_add(1);
    if s.count % 1000 == 0 {
        s.changes = s.changes.wrapping_add(1);
        s.changes % 3 == 0
    } else {
        false
    }
}

/// `n!`.
pub open spec fn factorial(n: nat) -> nat
    decreases n,
{
    if n == 0 {
        1
    } else {
        n * factorial((n - 1) as nat)
    }
}

/// `x * y`, or `u32::MAX` when the product does not fit.
pub fn saturating_mul(x: u32, y: u32) -> (r: u32)
    ensures
        r == if x * y > u32::MAX {
            u32::MAX as int
        } else {
            x * y
        },
{
    match x.checked_mul(y) {
        Some(p) => p,
        None => u32::MAX,
    }
}

/// The state of the factorial calculator: the operation count, the
/// argument of the last factorial and its value.
pub struct MathCalculator {
    pub operations: u32,
    pub n: u32,
    pub result: u32,
}

/// The next factorial argument: 1 to 10, then back to 1.
pub open spec fn next_arg(n: u32) -> u32 {
    if n >= 10 {
        1
    } else {
        (n + 1) as u32
    }
}

/// 10! is 3628800.
proof fn lemma_factorial_10()
    ensures
        factorial(10) == 3_628_800,
{
    assert(factorial(0) == 1);
    assert(factorial(1) == 1);
    assert(factorial(2) == 2);
    assert(factorial(3) == 6);
    assert(factorial(4) == 24);
    assert(factorial(5) == 120);
    assert(factorial(6) == 720);
    assert(factorial(7) == 5040);
    assert(factorial(8) == 40320);
    assert(factorial(9) == 362880);
}

/// The factorials up to 10! are positive and at most 10!.
proof fn lemma_factorial_small(k: nat)
    requires
        k <= 10,
    ensures
        1 <= factorial(k) <= 3_628_800,
    decreases 10 - k,
{
    lemma_factorial_10();
    if k < 10 {
        lemma_factorial_small(k + 1);
        lemma_factorial_positive(k);
        let f = factorial(k);
        assert(f <= (k + 1) * f) by (nonlinear_arith)
            requires
                f >= 1,
        ;
    }
}

/// Every factorial is positive.
proof fn lemma_factorial_positive(k: nat)
    ensures
        factorial(k) >= 1,
    decreases k,
{
    if k > 0 {
        lemma_factorial_positive((k - 1) as nat);
        let f = factorial((k - 1) as nat);
        assert(k * f >= 1) by (nonlinear_arith)
            requires
                k >= 1,
                f >= 1,
        ;
    }
}

/// One pass of the factorial calculator takes `before` to `after` and
/// reports `report`: the operation count advances; every 800th operation
/// the argument moves on and the result becomes its factorial, and a
/// milestone is reported when the argument is a multiple of 3.
pub open spec fn math_step(before: MathCalculator, after: MathCalculator, report: bool) -> bool {
    &&& after.operations == inc(before.operations)
    &&& after.operations % 800 == 0 ==> {
        &&& after.n == next_arg(before.n)
        &&& after.result == factorial(after.n as nat)
        &&& report == (after.n % 3 == 0)
    }
    &&& after.operations % 800 != 0 ==> {
        &&& after.n == before.n
        &&& after.result == before.result
        &&& !report
    }
}

/// The argument after `j` moves starting from 1.
pub open spec fn arg_after(j: nat) -> u32
    decreases j,
{
    if j == 0 {
        1
    } else {
        next_arg(arg_after((j - 1) as nat))
    }
}

proof fn lemma_succ_mod_10(x: nat)
    ensures
        (x + 1) % 10 == if x % 10 == 9 {
            0
        } else {
            x % 10 + 1
        },
{
    vstd::arithmetic::div_mod::lemma_add_mod_noop_right(1, x as int, 10);
    let r = x % 10;
    if r == 9 {
        assert((1 + 9int) % 10 == 0);
    } else {
        vstd::arithmetic::div_mod::lemma_small_mod((r + 1) as nat, 10);
    }
}

/// The arguments cycle: after `j` moves from 1 the argument is
/// `j mod 10 + 1`, so the factorials computed are 2!, 3!, ..., 10!, 1!,
/// 2!, ... in turn.
pub proof fn lemma_factorial_args_cycle(j: nat)
    ensures
        arg_after(j) == (j % 10) + 1,
        1 <= arg_after(j) <= 10,
    decreases j,
{
    if j == 0 {
    } else {
        lemma_factorial_args_cycle((j - 1) as nat);
        lemma_succ_mod_10((j - 1) as nat);
    }
}

proof fn lemma_div_succ(x: nat)
    ensures
        (x + 1) / 800 == x / 800 + if (x + 1) % 800 == 0 {
            1int
        } else {
            0int
        },
{
    vstd::arithmetic::div_mod::lemma_fundamental_div_mod(x as int, 800);
    vstd::arithmetic::div_mod::lemma_fundamental_div_mod((x + 1) as int, 800);
    let q = x / 800;
    let r = x % 800;
    let q2 = (x + 1) / 800;
    let r2 = (x + 1) % 800;
    assert(q2 == q + if r2 == 0 {
        1int
    } else {
        0int
    }) by (nonlinear_arith)
        requires
            x == 800 * q + r,
            x + 1 == 800 * q2 + r2,
            0 <= r < 800,
            0 <= r2 < 800,
            r2 == 0 ==> r == 799,
            r2 != 0 ==> r2 == r + 1,
    ;
}

/// Run from reset (no operation, argument 1, result 1), before the
/// operation count wraps: after `k` passes the count is `k`, the argument
/// has moved once per 800 passes, cycling 2, 3, ..., 10, 1, ..., and the
/// result is the factorial of the current argument once one has been
/// computed.
pub proof fn lemma_math_run(ss: Seq<MathCalculator>, reports: Seq<bool>)
    requires
        ss.len() == reports.len() + 1,
        reports.len() <= u32::MAX,
        ss[0].operations == 0,
        ss[0].n == 1,
        ss[0].result == 1,
        forall|j: int| 0 <= j < reports.len() ==> #[trigger] math_step(ss[j], ss[j + 1], reports[j]),
    ensures
        ss.last().operations == reports.len(),
        ss.last().n == arg_after(reports.len() / 800),
        ss.last().n == (reports.len() / 800) % 10 + 1,
        ss.last().result == factorial(ss.last().n as nat),
        forall|j: int|
            0 <= j < reports.len() ==> #[trigger] reports[j] == ((j + 1) % 800 == 0 && (((j + 1) / 800) % 10
                + 1) % 3 == 0),
    decreases reports.len(),
{
    let k = reports.len();
    lemma_factorial_args_cycle(k / 800);
    if k > 0 {
        let s0 = ss.drop_last();
        let r0 = reports.drop_last();
        assert forall|j: int| 0 <= j < r0.len() implies #[trigger] math_step(s0[j], s0[j + 1], r0[j]) by {
            assert(math_step(ss[j], ss[j + 1], reports[j]));
        }
        lemma_math_run(s0, r0);
        assert(s0.last() == ss[k - 1]);
        assert(math_step(ss[k - 1], ss[k as int], reports[k - 1]));
        assert(ss.last() == ss[k as int]);
        lemma_div_succ((k - 1) as nat);
        if k % 800 == 0 {
            assert(k / 800 == (k - 1) / 800 + 1);
        }
        assert forall|j: int| 0 <= j < reports.len() implies #[trigger] reports[j] == ((j + 1) % 800 == 0 && (((j
            + 1) / 800) % 10 + 1) % 3 == 0) by {
            if j < k - 1 {
                assert(r0[j] == reports[j]);
            }
        }
    } else {
        reveal_with_fuel(factorial, 2);
    }
}

/// One pass of the factorial calculator: the operation count advances;
/// every 800th operation the argument moves on (1 to 10, then back to 1)
/// and its factorial is computed with saturating products; a milestone is
/// reported when the argument is a multiple of 3.
pub fn math_calculator_entry(s: &mut MathCalculator) -> (report: bool)
    ensures
        math_step(*old(s), *final(s), report),
        report == (final(s).operations % 800 == 0 && final(s).n % 3 == 0),
{
    s.operations = s.operations.wrapping_add(1);
    if s.operations % 800 == 0 {
        s.n = if s.n >= 10 {
            1
        } else {
            s.n + 1
        };
        let n = s.n;
        let mut f: u32 = 1;
        let mut i: u32 = 1;
        while i <= n
            invariant
                1 <= i <= n + 1,
                1 <= n <= 10,
                f == factorial((i - 1) as nat),
            decreases n + 1 - i,
        {
            proof {
                lemma_factorial_small(i as nat);
                assert(factorial(i as nat) == i * factorial((i - 1) as nat));
                assert(f * i == i * f) by (nonlinear_arith);
            }
            f = saturating_mul(f, i);
            i = i + 1;
        }
        s.result = f;
        s.n % 3 == 0
    } else {
        false
    }
}

/// The state of the data logger: its pass count and whether it has
/// spawned its worker task.
pub struct DataLogger {
    pub log_count: u32,
    pub spawned: bool,
}

/// What one pass of the data logger reports and does.
#[derive(Clone, Copy, Debug, PartialEq, Eq, Structural)]
pub struct DataLoggerStep {
    /// Report that sensor data is being logged (every 25th pass).
    pub logging: bool,
    /// Report that the log file was saved (every 100th pass).
    pub saved: bool,
    /// Try to spawn the worker task (the 50th pass, if not spawned yet).
    pub spawn: bool,
}

/// One pass of the data logger: the pass count advances; every 25th pass
/// reports logging, every 100th a save, and the 50th tries to spawn the
/// worker task unless it was spawned already.
pub fn data_logger(s: &mut DataLogger) -> (step: DataLoggerStep)
    ensures
        final(s).log_count == inc(old(s).log_count),
        final(s).spawned == old(s).spawned,
        step == (DataLoggerStep {
            logging: final(s).log_count % 25 == 0,
            saved: final(s).log_count % 100 == 0,
            spawn: final(s).log_count == 50 && !old(s).spawned,
        }),
{
    s.log_count = s.log_count.wrapping_add(1);
    DataLoggerStep {
        logging: s.log_count % 25 == 0,
        saved: s.log_count % 100 == 0,
        spawn: s.log_count == 50 && !s.spawned,
    }
}

/// Records the outcome of an attempt to spawn the worker task: once it
/// succeeded the logger does not try again.
pub fn data_logger_spawned(s: &mut DataLogger, ok: bool)
    ensures
        final(s).log_count == old(s).log_count,
        final(s).spawned == (old(s).spawned || ok),
{
    if ok {
        s.spawned = true;
    }
}

} // verus!
