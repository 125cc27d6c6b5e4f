//! The system-call interface applications use: each call is a supervisor
//! call made through the kernel's client.
use vstd::prelude::*;
use crate::board::GpioPin;
use crate::svc::{client_request, Client, SvcRequest, Syscall};

verus! {

/// The supervisor call that drives a pin high or low.
pub fn gpio_write(pin: GpioPin, value: bool) -> (req: SvcRequest)
    ensures
        req == client_request(Syscall::GpioWrite { pin, high: value }),
{
    Client::new().gpio_write(pin, value)
}

/// The supervisor call that inverts a pin.
pub fn gpio_toggle(pin: GpioPin) -> (req: SvcRequest)
    ensures
        req == client_request(Syscall::GpioToggle { pin }),
{
    Client::new().gpio_toggle(pin)
}

/// Advances the system tick counter by one (wrapping) and returns its new
/// value.
pub fn get_system_ticks(counter: &mut u32) -> (t: u32)
    ensures
        *final(counter) == vstd::wrapping::u32_specs::wrapping_add(*old(counter), 1),
        t == *final(counter),
{
    *counter = counter.wrapping_add(1);
    *counter
}

} // verus!
