//! The LED and button drivers of the cooperative kernel. The LED keeps its
//! output level; it is reached through a guard that can only exist while a
//! critical section is held.
use vstd::prelude::*;
use cortex_m::interrupt::CriticalSection;

verus! {

/// Makes `cortex_m::interrupt::CriticalSection` (the token `interrupt::free`
/// hands out while interrupts are disabled) usable in fields. Its contents
/// are opaque and nothing is claimed of it.
#[verifier::external_type_specification]
#[verifier::external_body]
pub struct ExCriticalSection(CriticalSection);

/// An output pin and the level it drives.
pub struct GpioPin {
    state: bool,
}

impl GpioPin {
    /// Whether the pin drives high.
    pub closed spec fn level(&self) -> bool {
        self.state
    }

    /// A pin that drives low.
    pub fn new() -> (p: Self)
        ensures
            !p.level(),
    {
        Self { state: false }
    }

    /// Drives the pin high.
    pub fn on(&mut self)
        ensures
            final(self).level(),
    {
        self.state = true;
    }

    /// Drives the pin low.
    pub fn off(&mut self)
        ensures
            !final(self).level(),
    {
        self.state = false;
    }

    /// Inverts the pin's level.
    pub fn toggle(&mut self)
        ensures
            final(self).level() == !old(self).level(),
    {
        self.state = !self.state;
    }

    /// Whether the pin drives high.
    pub fn is_high(&self) -> (h: bool)
        ensures
            h == self.level(),
    {
        self.state
    }

    /// Whether the pin drives low.
    pub fn is_low(&self) -> (l: bool)
        ensures
            l == !self.level(),
    {
        !self.state
    }
}

/// Access to a pin while a critical section is held.
pub struct GpioGuard<'cs> {
    pin: &'cs mut GpioPin,
    cs: &'cs CriticalSection,
}

impl<'cs> GpioGuard<'cs> {
    /// The level of the guarded pin.
    pub closed spec fn level(&self) -> bool {
        self.pin.level()
    }

    /// Guards `pin` for the duration of the critical section `cs`.
    pub fn new(pin: &'cs mut GpioPin, cs: &'cs CriticalSection) -> (g: Self)
        ensures
            g.level() == old(pin).level(),
    {
        Self { pin, cs }
    }

    /// Drives the guarded pin high.
    pub fn on(&mut self)
        ensures
            final(self).level(),
    {
        self.pin.on();
    }

    /// Drives the guarded pin low.
    pub fn off(&mut self)
        ensures
            !final(self).level(),
    {
        self.pin.off();
    }

    /// Inverts the guarded pin.
    pub fn toggle(&mut self)
        ensures
            final(self).level() == !old(self).level(),
    {
        self.pin.toggle();
    }
}

/// A push button and whether it is held down.
pub struct ButtonPin {
    pressed: bool,
}

impl ButtonPin {
    /// Whether the button is held down.
    pub closed spec fn held(&self) -> bool {
        self.pressed
    }

    /// A button that is not held down.
    pub fn new() -> (b: Self)
        ensures
            !b.held(),
    {
        Self { pressed: false }
    }

    /// Whether the button is held down.
    pub fn is_pressed(&self) -> (p: bool)
        ensures
            p == self.held(),
    {
        self.pressed
    }
}

} // verus!
