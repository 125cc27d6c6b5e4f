//! The supervisor-call interface: how an application's system call is
//! encoded into registers by the client, and how the kernel's SVC handler
//! decodes it and dispatches it to the board.
use vstd::prelude::*;
use crate::board::{BoardOp, BoardSyscalls, GpioPin, Syscalls, time_after};
use crate::regs;

verus! {

/// Call number: read the millisecond clock.
pub const NOW_MS: u8 = 1;

/// Call number: drive the LED (argument a1: non-zero for high).
pub const GPIO_WRITE: u8 = 2;

/// Call number: invert the LED.
pub const GPIO_TOGGLE: u8 = 3;

/// Call number: sleep (argument a0: milliseconds).
pub const SLEEP_MS: u8 = 4;

/// Reply to an unknown call number.
pub const UNKNOWN_CALL: u32 = 0xFFFF_FFFF;

/// A call of the system-call interface.
#[derive(Clone, Copy, Debug, PartialEq, Eq, Structural)]
pub enum Syscall {
    NowMs,
    GpioWrite { pin: GpioPin, high: bool },
    GpioToggle { pin: GpioPin },
    SleepMs { ms: u32 },
}

/// The registers a supervisor call is made with: r0 holds the call
/// number, r1, r2, r3 and r12 the arguments a0-a3.
#[derive(Clone, Copy, Debug, PartialEq, Eq, Structural)]
pub struct SvcRequest {
    pub call_id: u8,
    pub a0: u32,
    pub a1: u32,
    pub a2: u32,
    pub a3: u32,
}

/// The registers the processor stacks on exception entry.
#[derive(Clone, Copy, Debug, PartialEq, Eq, Structural)]
pub struct ExceptionFrame {
    pub r0: u32,
    pub r1: u32,
    pub r2: u32,
    pub r3: u32,
    pub r12: u32,
    pub lr: u32,
    pub pc: u32,
    pub xpsr: u32,
}

/// The call number the SVC handler reads from a stacked r0.
pub open spec fn frame_call_id(r0: u32) -> u8 {
    (r0 & 0xFFu32) as u8
}

/// The call number in a stacked r0: its low byte.
pub fn call_id_of(r0: u32) -> (id: u8)
    ensures
        id == frame_call_id(r0),
{
    (r0 & 0xFFu32) as u8
}

/// The stacked frame of a supervisor call made with `req`: the argument
/// registers as the call set them, the rest as they were in `frame`.
pub open spec fn frame_of_request(frame: ExceptionFrame, req: SvcRequest) -> ExceptionFrame {
    ExceptionFrame {
        r0: req.call_id as u32,
        r1: req.a0,
        r2: req.a1,
        r3: req.a2,
        r12: req.a3,
        ..frame
    }
}

/// The request the supervisor-call client makes for a call.
pub open spec fn client_request(call: Syscall) -> SvcRequest {
    match call {
        Syscall::NowMs => SvcRequest { call_id: NOW_MS, a0: 0, a1: 0, a2: 0, a3: 0 },
        Syscall::GpioWrite { pin, high } => SvcRequest {
            call_id: GPIO_WRITE,
            a0: 0,
            a1: if high {
                1
            } else {
                0
            },
            a2: 0,
            a3: 0,
        },
        Syscall::GpioToggle { pin } => SvcRequest { call_id: GPIO_TOGGLE, a0: 0, a1: 0, a2: 0, a3: 0 },
        Syscall::SleepMs { ms } => SvcRequest { call_id: SLEEP_MS, a0: ms, a1: 0, a2: 0, a3: 0 },
    }
}

/// What the board's own method for a call returns to be done in hardware.
pub open spec fn direct_op(b: BoardSyscalls, call: Syscall) -> BoardOp {
    match call {
        Syscall::NowMs => BoardOp::Idle,
        Syscall::GpioWrite { pin, high } => BoardOp::Write(
            regs::bsrr_write(b.led1().port_base, b.led1().pin, high),
        ),
        Syscall::GpioToggle { pin } => BoardOp::Toggle(b.led1()),
        Syscall::SleepMs { ms } => BoardOp::Spin { ms, cycles_per_ms: b.cycles_per_ms() },
    }
}

/// The board clock after the board's own method for a call.
pub open spec fn direct_time(b: BoardSyscalls, call: Syscall) -> u64 {
    match call {
        Syscall::SleepMs { ms } => time_after(b.time_ms(), ms),
        _ => b.time_ms(),
    }
}

/// The kernel's reply to call `call_id` on board `b`.
pub open spec fn dispatch_reply(b: BoardSyscalls, call_id: u8) -> u32 {
    if call_id == NOW_MS {
        b.time_ms() as u32
    } else if call_id == GPIO_WRITE || call_id == GPIO_TOGGLE || call_id == SLEEP_MS {
        0
    } else {
        UNKNOWN_CALL
    }
}

/// The hardware work the kernel's dispatch of a call leaves to be done.
pub open spec fn dispatch_op(b: BoardSyscalls, call_id: u8, a0: u32, a1: u32) -> BoardOp {
    if call_id == GPIO_WRITE {
        BoardOp::Write(regs::bsrr_write(b.led1().port_base, b.led1().pin, a1 != 0))
    } else if call_id == GPIO_TOGGLE {
        BoardOp::Toggle(b.led1())
    } else if call_id == SLEEP_MS {
        BoardOp::Spin { ms: a0, cycles_per_ms: b.cycles_per_ms() }
    } else {
        BoardOp::Idle
    }
}

/// The board clock after the kernel's dispatch of a call.
pub open spec fn dispatch_time(b: BoardSyscalls, call_id: u8, a0: u32) -> u64 {
    if call_id == SLEEP_MS {
        time_after(b.time_ms(), a0)
    } else {
        b.time_ms()
    }
}

/// The kernel side of a supervisor call: performs call `call_id` on the
/// board and returns the reply for r0 and the hardware work left to do.
/// Driving the LED needs its line valid; the other calls are served on any
/// board.
pub fn kernel_dispatch(board: &mut BoardSyscalls, call_id: u8, a0: u32, a1: u32, a2: u32, a3: u32) -> (r:
    (u32, BoardOp))
    requires
        call_id == GPIO_WRITE ==> old(board).led1().wf(),
    ensures
        r.0 == dispatch_reply(*old(board), call_id),
        r.1 == dispatch_op(*old(board), call_id, a0, a1),
        final(board).time_ms() == dispatch_time(*old(board), call_id, a0),
        final(board).led1() == old(board).led1(),
        final(board).btn() == old(board).btn(),
        final(board).cycles_per_ms() == old(board).cycles_per_ms(),
{
    if call_id == NOW_MS {
        (board.now_ms() as u32, BoardOp::Idle)
    } else if call_id == GPIO_WRITE {
        let op = board.gpio_write(GpioPin::Led1, a1 != 0);
        (0, op)
    } else if call_id == GPIO_TOGGLE {
        let op = board.gpio_toggle(GpioPin::Led1);
        (0, op)
    } else if call_id == SLEEP_MS {
        let op = board.sleep_ms(a0);
        (0, op)
    } else {
        (UNKNOWN_CALL, BoardOp::Idle)
    }
}

/// How many supervisor calls were handled, and how many of them read the
/// clock (both wrap).
pub struct SvcCounters {
    svc_calls: u32,
    now_calls: u32,
}

impl SvcCounters {
    /// Supervisor calls handled.
    pub closed spec fn svc_calls(&self) -> u32 {
        self.svc_calls
    }

    /// Clock reads handled.
    pub closed spec fn now_calls(&self) -> u32 {
        self.now_calls
    }

    /// Both counts at 0.
    pub fn new() -> (c: Self)
        ensures
            c.svc_calls() == 0,
            c.now_calls() == 0,
    {
        Self { svc_calls: 0, now_calls: 0 }
    }

    /// Counts one handled call.
    pub fn record(&mut self, call_id: u8)
        ensures
            recorded(*old(self), *final(self), call_id),
            final(self).svc_calls() == vstd::wrapping::u32_specs::wrapping_add(old(self).svc_calls(), 1),
            final(self).now_calls() == if call_id == NOW_MS {
                vstd::wrapping::u32_specs::wrapping_add(old(self).now_calls(), 1)
            } else {
                old(self).now_calls()
            },
    {
        self.svc_calls = self.svc_calls.wrapping_add(1);
        if call_id == NOW_MS {
            self.now_calls = self.now_calls.wrapping_add(1);
        }
    }
}

/// `after` is `before` with one call numbered `call_id` counted.
pub open spec fn recorded(before: SvcCounters, after: SvcCounters, call_id: u8) -> bool {
    &&& after.svc_calls() == vstd::wrapping::u32_specs::wrapping_add(before.svc_calls(), 1)
    &&& after.now_calls() == if call_id == NOW_MS {
        vstd::wrapping::u32_specs::wrapping_add(before.now_calls(), 1)
    } else {
        before.now_calls()
    }
}

/// How many of the calls `ids` read the clock.
pub open spec fn clock_reads(ids: Seq<u8>) -> nat
    decreases ids.len(),
{
    if ids.len() == 0 {
        0
    } else {
        clock_reads(ids.drop_last()) + if ids.last() == NOW_MS {
            1nat
        } else {
            0nat
        }
    }
}

/// Counting from zero, before the counts wrap: after the calls `ids` the
/// call count is their number and the clock-read count the number of clock
/// reads among them, so it never exceeds the call count.
pub proof fn lemma_counters_count_calls(cs: Seq<SvcCounters>, ids: Seq<u8>)
    requires
        cs.len() == ids.len() + 1,
        cs[0].svc_calls() == 0,
        cs[0].now_calls() == 0,
        ids.len() <= u32::MAX,
        forall|j: int| 0 <= j < ids.len() ==> #[trigger] recorded(cs[j], cs[j + 1], ids[j]),
    ensures
        cs.last().svc_calls() == ids.len(),
        cs.last().now_calls() == clock_reads(ids),
        cs.last().now_calls() <= cs.last().svc_calls(),
    decreases ids.len(),
{
    if ids.len() > 0 {
        let k = ids.len() - 1;
        let c0 = cs.drop_last();
        let i0 = ids.drop_last();
        assert forall|j: int| 0 <= j < i0.len() implies #[trigger] recorded(c0[j], c0[j + 1], i0[j]) by {
            assert(recorded(cs[j], cs[j + 1], ids[j]));
        }
        lemma_counters_count_calls(c0, i0);
        assert(c0.last() == cs[k]);
        assert(recorded(cs[k], cs[k + 1], ids[k]));
        assert(cs.last() == cs[k + 1]);
    }
}

/// The supervisor-call statistics: (calls handled, clock reads handled).
pub fn svc_stats(counters: &SvcCounters) -> (s: (u32, u32))
    ensures
        s == (counters.svc_calls(), counters.now_calls()),
{
    (counters.svc_calls, counters.now_calls)
}

/// The SVC handler: decodes the call number from the stacked r0, counts
/// the call, dispatches it with the stacked r1, r2, r3, r12 as arguments
/// and stores the reply in the stacked r0. Returns the hardware work the
/// call leaves to be done. A call that drives the LED needs its line
/// valid.
pub fn svcall_rust(frame: &mut ExceptionFrame, counters: &mut SvcCounters, board: &mut BoardSyscalls) -> (op:
    BoardOp)
    requires
        frame_call_id(old(frame).r0) == GPIO_WRITE ==> old(board).led1().wf(),
    ensures
        ({
            let id = frame_call_id(old(frame).r0);
            &&& *final(frame) == (ExceptionFrame { r0: dispatch_reply(*old(board), id), ..*old(frame) })
            &&& op == dispatch_op(*old(board), id, old(frame).r1, old(frame).r2)
            &&& final(board).time_ms() == dispatch_time(*old(board), id, old(frame).r1)
            &&& final(board).led1() == old(board).led1()
            &&& final(board).btn() == old(board).btn()
            &&& final(board).cycles_per_ms() == old(board).cycles_per_ms()
            &&& recorded(*old(counters), *final(counters), id)
            &&& final(counters).svc_calls() == vstd::wrapping::u32_specs::wrapping_add(
                old(counters).svc_calls(),
                1,
            )
            &&& final(counters).now_calls() == if id == NOW_MS {
                vstd::wrapping::u32_specs::wrapping_add(old(counters).now_calls(), 1)
            } else {
                old(counters).now_calls()
            }
        }),
{
    let call_id = call_id_of(frame.r0);
    counters.record(call_id);
    let (ret, op) = kernel_dispatch(board, call_id, frame.r1, frame.r2, frame.r3, frame.r12);
    frame.r0 = ret;
    op
}

/// The application side of the system-call interface: each call becomes
/// a supervisor call with the registers `client_request` gives.
pub struct Client {}

impl Client {
    /// A client.
    pub fn new() -> (c: Self) {
        Client {  }
    }

    /// The request that reads the clock.
    pub fn now_ms(&self) -> (req: SvcRequest)
        ensures
            req == client_request(Syscall::NowMs),
    {
        SvcRequest { call_id: NOW_MS, a0: 0, a1: 0, a2: 0, a3: 0 }
    }

    /// The clock value in the reply `r0` to a clock read.
    pub fn now_from_reply(&self, r0: u32) -> (t: u64)
        ensures
            t == r0 as u64,
    {
        r0 as u64
    }

    /// The request that sleeps `ms` milliseconds.
    pub fn sleep_ms(&self, ms: u32) -> (req: SvcRequest)
        ensures
            req == client_request(Syscall::SleepMs { ms }),
    {
        SvcRequest { call_id: SLEEP_MS, a0: ms, a1: 0, a2: 0, a3: 0 }
    }

    /// The request that drives a pin high or low.
    pub fn gpio_write(&self, pin: GpioPin, high: bool) -> (req: SvcRequest)
        ensures
            req == client_request(Syscall::GpioWrite { pin, high }),
    {
        SvcRequest { call_id: GPIO_WRITE, a0: 0, a1: if high { 1 } else { 0 }, a2: 0, a3: 0 }
    }

    /// The request that inverts a pin.
    pub fn gpio_toggle(&self, pin: GpioPin) -> (req: SvcRequest)
        ensures
            req == client_request(Syscall::GpioToggle { pin }),
    {
        SvcRequest { call_id: GPIO_TOGGLE, a0: 0, a1: 0, a2: 0, a3: 0 }
    }
}

/// A system call made through the supervisor-call client does to the board
/// what the board's own method does: the SVC handler reads back the call
/// number the client put in r0, leaves the same hardware work and the same
/// clock, and a clock read replies with the clock's low 32 bits.
pub proof fn lemma_client_call_matches_board(b: BoardSyscalls, frame: ExceptionFrame, call: Syscall)
    ensures
        ({
            let req = client_request(call);
            let f = frame_of_request(frame, req);
            let id = frame_call_id(f.r0);
            &&& id == req.call_id
            &&& dispatch_op(b, id, f.r1, f.r2) == direct_op(b, call)
            &&& dispatch_time(b, id, f.r1) == direct_time(b, call)
            &&& call is NowMs ==> dispatch_reply(b, id) as u64 == (b.time_ms() as u32) as u64
            &&& !(call is NowMs) ==> dispatch_reply(b, id) == 0
        }),
{
    let req = client_request(call);
    let c = req.call_id;
    assert(((c as u32) & 0xFFu32) as u8 == c) by (bit_vector);
}

} // verus!
