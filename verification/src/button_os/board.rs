//! The board of the button-switched framework: two logical LEDs (both may
//! be wired to one line), a user button with pull-up (pressed reads low)
//! and a millisecond clock.
use vstd::prelude::*;
use crate::board::{BoardOp, InitStep, RawPin, raw_pin_valid, time_after, GPIOA, GPIOC};
use crate::button_os::os::{GpioPin, SysCall, Syscalls};
use crate::regs;

verus! {

/// The board: LED and button lines and the clock that sleeping advances.
pub struct BoardSyscalls {
    led1: RawPin,
    led2: RawPin,
    btn: RawPin,
    time_ms: u64,
    cycles_per_ms: u32,
}

impl BoardSyscalls {
    /// The line of LED 1.
    pub closed spec fn led1(&self) -> RawPin {
        self.led1
    }

    /// The line of LED 2.
    pub closed spec fn led2(&self) -> RawPin {
        self.led2
    }

    /// The button line.
    pub closed spec fn btn(&self) -> RawPin {
        self.btn
    }

    /// Milliseconds slept since start-up.
    pub closed spec fn time_ms(&self) -> u64 {
        self.time_ms
    }

    /// Busy-wait iterations per millisecond.
    pub closed spec fn cycles_per_ms(&self) -> u32 {
        self.cycles_per_ms
    }

    /// All three lines are valid.
    pub open spec fn wf(&self) -> bool {
        self.led1().wf() && self.led2().wf() && self.btn().wf()
    }

    /// The line a logical pin is wired to.
    pub open spec fn line(&self, pin: GpioPin) -> RawPin {
        match pin {
            GpioPin::Led1 => self.led1(),
            GpioPin::Led2 => self.led2(),
        }
    }

    /// A board with the given lines whose clock starts at 0.
    pub fn new(led1: RawPin, led2: RawPin, btn: RawPin, cycles_per_ms: u32) -> (b: Self)
        ensures
            b.led1() == led1,
            b.led2() == led2,
            b.btn() == btn,
            b.time_ms() == 0,
            b.cycles_per_ms() == cycles_per_ms,
    {
        Self { led1, led2, btn, time_ms: 0, cycles_per_ms }
    }

    /// The line a logical pin is wired to.
    pub fn raw_pin(&self, pin: GpioPin) -> (p: RawPin)
        ensures
            p == self.line(pin),
    {
        match pin {
            GpioPin::Led1 => self.led1,
            GpioPin::Led2 => self.led2,
        }
    }

    /// Whether all three lines are valid.
    pub fn is_valid(&self) -> (b: bool)
        ensures
            b == self.wf(),
    {
        raw_pin_valid(self.led1) && raw_pin_valid(self.led2) && raw_pin_valid(self.btn)
    }

    /// Bringing the board up: the clocks of ports A and C, then both LED
    /// lines as outputs and the button line as an input with pull-up.
    pub fn init(&self) -> (steps: Vec<InitStep>)
        ensures
            steps@ == seq![
                InitStep::EnableClock { port_base: GPIOA },
                InitStep::EnableClock { port_base: GPIOC },
                InitStep::SetOutput(self.led1()),
                InitStep::SetOutput(self.led2()),
                InitStep::SetInputPullup(self.btn()),
            ],
    {
        let mut steps: Vec<InitStep> = Vec::new();
        steps.push(InitStep::EnableClock { port_base: GPIOA });
        steps.push(InitStep::EnableClock { port_base: GPIOC });
        steps.push(InitStep::SetOutput(self.led1));
        steps.push(InitStep::SetOutput(self.led2));
        steps.push(InitStep::SetInputPullup(self.btn));
        steps
    }

    /// The button line.
    pub fn button(&self) -> (p: RawPin)
        ensures
            p == self.btn(),
    {
        self.btn
    }

    /// Performs a system call an application made; returns the hardware
    /// work it leaves to be done.
    pub fn perform(&mut self, call: SysCall) -> (op: BoardOp)
        requires
            old(self).wf(),
        ensures
            final(self).wf(),
            final(self).led1() == old(self).led1(),
            final(self).led2() == old(self).led2(),
            final(self).btn() == old(self).btn(),
            final(self).cycles_per_ms() == old(self).cycles_per_ms(),
            match call {
                SysCall::GpioWrite { pin, high } => {
                    &&& op == BoardOp::Write(
                        regs::bsrr_write(old(self).line(pin).port_base, old(self).line(pin).pin, high),
                    )
                    &&& final(self).time_ms() == old(self).time_ms()
                },
                SysCall::GpioToggle { pin } => {
                    &&& op == BoardOp::Toggle(old(self).line(pin))
                    &&& final(self).time_ms() == old(self).time_ms()
                },
                SysCall::SleepMs { ms } => {
                    &&& op == (BoardOp::Spin { ms, cycles_per_ms: old(self).cycles_per_ms() })
                    &&& final(self).time_ms() == time_after(old(self).time_ms(), ms)
                },
            },
    {
        match call {
            SysCall::GpioWrite { pin, high } => self.gpio_write(pin, high),
            SysCall::GpioToggle { pin } => self.gpio_toggle(pin),
            SysCall::SleepMs { ms } => self.sleep_ms(ms),
        }
    }
}

impl Syscalls for BoardSyscalls {
    open spec fn valid(&self) -> bool {
        self.wf()
    }

    /// Drives a logical pin high or low: one write to its port's BSRR.
    fn gpio_write(&mut self, pin: GpioPin, high: bool) -> (op: BoardOp)
        ensures
            *final(self) == *old(self),
            op == BoardOp::Write(
                regs::bsrr_write(old(self).line(pin).port_base, old(self).line(pin).pin, high),
            ),
    {
        let p = self.raw_pin(pin);
        BoardOp::Write(regs::gpio_write(p.port_base, p.pin, high))
    }

    /// Inverts a logical pin: a read-modify-write of its line.
    fn gpio_toggle(&mut self, pin: GpioPin) -> (op: BoardOp)
        ensures
            *final(self) == *old(self),
            op == BoardOp::Toggle(old(self).line(pin)),
    {
        BoardOp::Toggle(self.raw_pin(pin))
    }

    /// Sleeps `ms` milliseconds: the clock advances by `ms` (wrapping) and
    /// the board busy-waits that long.
    fn sleep_ms(&mut self, ms: u32) -> (op: BoardOp)
        ensures
            final(self).time_ms() == time_after(old(self).time_ms(), ms),
            final(self).led1() == old(self).led1(),
            final(self).led2() == old(self).led2(),
            final(self).btn() == old(self).btn(),
            final(self).cycles_per_ms() == old(self).cycles_per_ms(),
            op == (BoardOp::Spin { ms, cycles_per_ms: old(self).cycles_per_ms() }),
    {
        self.time_ms = self.time_ms.wrapping_add(ms as u64);
        BoardOp::Spin { ms, cycles_per_ms: self.cycles_per_ms }
    }

    /// Milliseconds slept since start-up.
    fn now_ms(&self) -> (t: u64)
        ensures
            t == self.time_ms(),
    {
        self.time_ms
    }

    /// Whether the button is pressed, given the input data register `idr`
    /// of its port: with the pull-up, a pressed button reads low.
    fn user_button_pressed(&self, idr: u32) -> (pressed: bool)
        ensures
            pressed == !regs::bit1(idr, self.btn().pin),
    {
        !regs::gpio_read_input(self.btn.pin, idr)
    }
}

} // verus!
