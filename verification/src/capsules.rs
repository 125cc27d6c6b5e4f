//! Capsules: safe multiplexing of the privileged GPIO handles.
use vstd::prelude::*;
use crate::board::{GpioPin, GpioPriv};
use crate::regs::{self, RegWrite};

verus! {

/// Routes logical pins to privileged GPIO handles.
pub struct MuxGpio {
    led1: &'static GpioPriv,
    led2: &'static GpioPriv,
}

impl MuxGpio {
    /// The handle logical pin `Led1` is routed to.
    pub closed spec fn led1(&self) -> GpioPriv {
        *self.led1
    }

    /// The second handle (no logical pin is routed to it).
    pub closed spec fn led2(&self) -> GpioPriv {
        *self.led2
    }

    /// A multiplexer over two handles.
    pub fn new(led1: &'static GpioPriv, led2: &'static GpioPriv) -> (m: Self)
        ensures
            m.led1() == *led1,
            m.led2() == *led2,
    {
        Self { led1, led2 }
    }

    /// The handle a logical pin is routed to.
    pub fn route(&self, pin: GpioPin) -> (g: &'static GpioPriv)
        ensures
            *g == self.led1(),
    {
        match pin {
            GpioPin::Led1 => self.led1,
        }
    }

    /// Drives a logical pin high or low.
    pub fn write(&self, pin: GpioPin, high: bool) -> (w: RegWrite)
        requires
            self.led1().wf(),
        ensures
            w == regs::bsrr_write(self.led1().port_base, self.led1().pin, high),
    {
        self.route(pin).write(high)
    }

    /// Inverts a logical pin, given the output data register `odr` of the
    /// port of the handle it is routed to (see `route`).
    pub fn toggle(&self, pin: GpioPin, odr: u32) -> (w: RegWrite)
        requires
            self.led1().wf(),
        ensures
            w == regs::bsrr_write(
                self.led1().port_base,
                self.led1().pin,
                !regs::bit1(odr, self.led1().pin),
            ),
    {
        self.route(pin).toggle(odr)
    }
}

} // verus!
