//! The board layer of the pre-emptive kernel: which GPIO line each logical
//! pin is wired to, the kernel's millisecond clock, and the register work
//! each board operation needs.
use vstd::prelude::*;
use crate::regs::{self, RegWrite, GPIOA_BASE, GPIOC_BASE};

verus! {

/// GPIO port A.
pub const GPIOA: u32 = GPIOA_BASE;

/// GPIO port C.
pub const GPIOC: u32 = GPIOC_BASE;

/// Busy-wait iterations that take about one millisecond at 16 MHz.
pub const CYCLES_PER_MS_ESTIMATE: u32 = 16_000;

/// The logical output pins applications can drive.
#[derive(Clone, Copy, Debug, PartialEq, Eq, Structural)]
pub enum GpioPin {
    Led1,
}

/// The index of a logical pin.
pub fn gpio_pin_to_idx(pin: GpioPin) -> (idx: u32)
    ensures
        idx == 0,
{
    match pin {
        GpioPin::Led1 => 0,
    }
}

/// A physical GPIO line: a port base address and a pin number.
#[derive(Clone, Copy, Debug, PartialEq, Eq, Structural)]
pub struct RawPin {
    pub port_base: u32,
    pub pin: u8,
}

impl RawPin {
    /// The line `pin` of the port at `port_base`.
    pub fn new(port_base: u32, pin: u8) -> (p: Self)
        ensures
            p == (RawPin { port_base, pin }),
    {
        Self { port_base, pin }
    }

    /// The line is a pin 0-15 of a port whose registers are addressable.
    pub open spec fn wf(&self) -> bool {
        regs::port_ok(self.port_base) && regs::pin_ok(self.pin)
    }
}

/// The hardware work that completes a board operation.
#[derive(Clone, Copy, Debug, PartialEq, Eq, Structural)]
pub enum BoardOp {
    /// Nothing to do.
    Idle,
    /// Perform one register write.
    Write(RegWrite),
    /// Read the output data register of the line's port and write the
    /// value `regs::gpio_toggle` computes from it.
    Toggle(RawPin),
    /// Busy-wait `ms` milliseconds of `cycles_per_ms` iterations each.
    Spin { ms: u32, cycles_per_ms: u32 },
}

/// One step of bringing a board up, each a read-modify-write of the
/// registers concerned.
#[derive(Clone, Copy, Debug, PartialEq, Eq, Structural)]
pub enum InitStep {
    /// Enable the clock of a GPIO port (`regs::gpio_enable_clock`).
    EnableClock { port_base: u32 },
    /// Configure a line as a push-pull output (`regs::gpio_set_output`).
    SetOutput(RawPin),
    /// Configure a line as an input with pull-up
    /// (`regs::gpio_set_input_pullup`).
    SetInputPullup(RawPin),
}

/// Whether a line is valid (`RawPin::wf`).
pub fn raw_pin_valid(p: RawPin) -> (b: bool)
    ensures
        b == p.wf(),
{
    p.port_base <= u32::MAX - regs::BSRR_OFF && p.pin < 16
}

/// The board: its LED and button lines and the millisecond clock that
/// sleeping advances.
pub struct BoardSyscalls {
    led1: RawPin,
    btn: RawPin,
    time_ms: u64,
    cycles_per_ms: u32,
}

/// The clock after sleeping `ms` milliseconds from `t` (it wraps).
pub open spec fn time_after(t: u64, ms: u32) -> u64 {
    vstd::wrapping::u64_specs::wrapping_add(t, ms as u64)
}

impl BoardSyscalls {
    /// The LED line.
    pub closed spec fn led1(&self) -> RawPin {
        self.led1
    }

    /// The button line.
    pub closed spec fn btn(&self) -> RawPin {
        self.btn
    }

    /// Milliseconds slept since start-up.
    pub closed spec fn time_ms(&self) -> u64 {
        self.time_ms
    }

    /// Busy-wait iterations per millisecond.
    pub closed spec fn cycles_per_ms(&self) -> u32 {
        self.cycles_per_ms
    }

    /// Both lines are valid.
    pub open spec fn wf(&self) -> bool {
        self.led1().wf() && self.btn().wf()
    }

    /// A board with the given lines whose clock starts at 0.
    pub fn new(led1: RawPin, btn: RawPin, cycles_per_ms: u32) -> (b: Self)
        ensures
            b.led1() == led1,
            b.btn() == btn,
            b.time_ms() == 0,
            b.cycles_per_ms() == cycles_per_ms,
    {
        Self { led1, btn, time_ms: 0, cycles_per_ms }
    }

    /// The physical line a logical pin is wired to.
    pub fn raw_pin(&self, pin: GpioPin) -> (p: RawPin)
        ensures
            p == self.led1(),
    {
        match pin {
            GpioPin::Led1 => self.led1,
        }
    }

    /// The button line.
    pub fn button(&self) -> (p: RawPin)
        ensures
            p == self.btn(),
    {
        self.btn
    }

    /// Whether both lines are valid.
    pub fn is_valid(&self) -> (b: bool)
        ensures
            b == self.wf(),
    {
        raw_pin_valid(self.led1) && raw_pin_valid(self.btn)
    }

    /// Whether the LED line is valid, which driving it needs.
    pub fn led_valid(&self) -> (b: bool)
        ensures
            b == self.led1().wf(),
    {
        raw_pin_valid(self.led1)
    }

    /// Bringing the board up: the clocks of ports A and C, then the LED
    /// line as an output and the button line as an input with pull-up.
    pub fn init(&self) -> (steps: Vec<InitStep>)
        ensures
            steps@ == seq![
                InitStep::EnableClock { port_base: GPIOA },
                InitStep::EnableClock { port_base: GPIOC },
                InitStep::SetOutput(self.led1()),
                InitStep::SetInputPullup(self.btn()),
            ],
    {
        let mut steps: Vec<InitStep> = Vec::new();
        steps.push(InitStep::EnableClock { port_base: GPIOA });
        steps.push(InitStep::EnableClock { port_base: GPIOC });
        steps.push(InitStep::SetOutput(self.led1));
        steps.push(InitStep::SetInputPullup(self.btn));
        steps
    }

    /// Busy-wait iterations per millisecond.
    pub fn cycles(&self) -> (c: u32)
        ensures
            c == self.cycles_per_ms(),
    {
        self.cycles_per_ms
    }
}

/// The system calls a board serves. Each call returns the hardware work it
/// leaves to be done.
pub trait Syscalls {
    /// The board's lines are usable.
    spec fn valid(&self) -> bool;

    /// Drives a logical pin high or low.
    fn gpio_write(&mut self, pin: GpioPin, high: bool) -> (op: BoardOp)
        requires
            old(self).valid(),
    ;

    /// Inverts a logical pin.
    fn gpio_toggle(&mut self, pin: GpioPin) -> (op: BoardOp);

    /// Sleeps `ms` milliseconds.
    fn sleep_ms(&mut self, ms: u32) -> (op: BoardOp);

    /// Milliseconds slept since start-up.
    fn now_ms(&self) -> (t: u64);
}

impl Syscalls for BoardSyscalls {
    /// Driving a pin needs the LED line valid.
    open spec fn valid(&self) -> bool {
        self.led1().wf()
    }

    /// Drives a logical pin high or low: one write to its port's BSRR.
    fn gpio_write(&mut self, pin: GpioPin, high: bool) -> (op: BoardOp)
        ensures
            *final(self) == *old(self),
            op == BoardOp::Write(regs::bsrr_write(old(self).led1().port_base, old(self).led1().pin, high)),
    {
        let p = self.raw_pin(pin);
        BoardOp::Write(regs::gpio_write(p.port_base, p.pin, high))
    }

    /// Inverts a logical pin: a read-modify-write of its line.
    fn gpio_toggle(&mut self, pin: GpioPin) -> (op: BoardOp)
        ensures
            *final(self) == *old(self),
            op == BoardOp::Toggle(old(self).led1()),
    {
        BoardOp::Toggle(self.raw_pin(pin))
    }

    /// Sleeps `ms` milliseconds: the clock advances by `ms` (wrapping) and
    /// the board busy-waits that long.
    fn sleep_ms(&mut self, ms: u32) -> (op: BoardOp)
        ensures
            final(self).time_ms() == time_after(old(self).time_ms(), ms),
            final(self).led1() == old(self).led1(),
            final(self).btn() == old(self).btn(),
            final(self).cycles_per_ms() == old(self).cycles_per_ms(),
            op == (BoardOp::Spin { ms, cycles_per_ms: old(self).cycles_per_ms() }),
    {
        self.time_ms = self.time_ms.wrapping_add(ms as u64);
        BoardOp::Spin { ms, cycles_per_ms: self.cycles_per_ms }
    }

    /// Milliseconds slept since start-up.
    fn now_ms(&self) -> (t: u64)
        ensures
            t == self.time_ms(),
    {
        self.time_ms
    }
}

/// Sleeping `a` then `b` milliseconds advances the clock as sleeping their
/// sum does (modulo 2^64).
pub proof fn lemma_sleep_adds(t: u64, a: u32, b: u32)
    ensures
        time_after(time_after(t, a), b) == vstd::wrapping::u64_specs::wrapping_add(
            t,
            (a + b) as u64,
        ),
{
}

/// A privileged handle on one GPIO line.
pub struct GpioPriv {
    pub port_base: u32,
    pub pin: u8,
}

impl GpioPriv {
    /// The handle of line `pin` of the port at `port_base`.
    pub fn new_privileged_const(port_base: u32, pin: u8) -> (g: Self)
        ensures
            g.port_base == port_base,
            g.pin == pin,
    {
        Self { port_base, pin }
    }

    /// The line is a pin 0-15 of a port whose registers are addressable.
    pub open spec fn wf(&self) -> bool {
        regs::port_ok(self.port_base) && regs::pin_ok(self.pin)
    }

    /// Drives the line high or low.
    pub fn write(&self, high: bool) -> (w: RegWrite)
        requires
            self.wf(),
        ensures
            w == regs::bsrr_write(self.port_base, self.pin, high),
    {
        regs::gpio_write(self.port_base, self.pin, high)
    }

    /// Inverts the line, given its port's output data register `odr`.
    pub fn toggle(&self, odr: u32) -> (w: RegWrite)
        requires
            self.wf(),
        ensures
            w == regs::bsrr_write(self.port_base, self.pin, !regs::bit1(odr, self.pin)),
    {
        regs::gpio_toggle(self.port_base, self.pin, odr)
    }
}

} // verus!
