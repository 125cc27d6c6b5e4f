//! Register-level arithmetic for the STM32F4 RCC and GPIO blocks.
//!
//! Each function here takes the values that were read from hardware
//! registers and returns the register writes that configure or drive a pin.
use vstd::prelude::*;

verus! {

/// Base address of the reset and clock control block.
pub const RCC_BASE: u32 = 0x4002_3800;

/// AHB1 peripheral clock enable register.
pub const RCC_AHB1ENR: u32 = RCC_BASE + 0x30;

/// Base address of GPIO port A.
pub const GPIOA_BASE: u32 = 0x4002_0000;

/// Base address of GPIO port C.
pub const GPIOC_BASE: u32 = 0x4002_0800;

/// Mode register offset.
pub const MODER_OFF: u32 = 0x00;

/// Output type register offset.
pub const OTYPER_OFF: u32 = 0x04;

/// Pull-up / pull-down register offset.
pub const PUPDR_OFF: u32 = 0x0C;

/// Input data register offset.
pub const IDR_OFF: u32 = 0x10;

/// Output data register offset.
pub const ODR_OFF: u32 = 0x14;

/// Bit set / reset register offset.
pub const BSRR_OFF: u32 = 0x18;

/// One 32-bit write to a memory-mapped register.
#[derive(Clone, Copy, Debug, PartialEq, Eq, Structural)]
pub struct RegWrite {
    pub addr: u32,
    pub value: u32,
}

/// A port base address whose registers all lie below 4 GiB.
pub open spec fn port_ok(port_base: u32) -> bool {
    port_base + BSRR_OFF <= u32::MAX
}

/// A pin number of a 16-pin GPIO port.
pub open spec fn pin_ok(pin: u8) -> bool {
    pin < 16
}

/// The two-bit field of `pin` in a register with two bits per pin.
pub open spec fn field2(v: u32, pin: u8) -> u32 {
    (v >> (2 * pin) as u32) & 3u32
}

/// The mask of the two-bit field of `pin`.
pub open spec fn mask2(pin: u8) -> u32 {
    3u32 << (2 * pin) as u32
}

/// The one-bit field of `pin` in a register with one bit per pin.
pub open spec fn bit1(v: u32, pin: u8) -> bool {
    (v >> pin as u32) & 1u32 == 1u32
}

/// The BSRR value that drives `pin` high (its set bit) or low (its reset bit).
pub open spec fn bsrr_value(pin: u8, high: bool) -> u32 {
    if high {
        1u32 << pin as u32
    } else {
        1u32 << (pin + 16) as u32
    }
}

/// The write to a port's BSRR that drives `pin` high or low.
pub open spec fn bsrr_write(port_base: u32, pin: u8, high: bool) -> RegWrite {
    RegWrite { addr: (port_base + BSRR_OFF) as u32, value: bsrr_value(pin, high) }
}

/// The AHB1ENR bit that enables the clock of a port.
pub open spec fn clock_bit(port_base: u32) -> u32 {
    if port_base == GPIOA_BASE {
        0
    } else {
        2
    }
}

/// Enables the clock of GPIO port A or C: the new AHB1ENR value is the
/// value read with the port's enable bit set.
pub fn gpio_enable_clock(port_base: u32, ahb1enr: u32) -> (w: RegWrite)
    requires
        port_base == GPIOA_BASE || port_base == GPIOC_BASE,
    ensures
        w.addr == RCC_AHB1ENR,
        w.value == ahb1enr | (1u32 << clock_bit(port_base)),
{
    let bit: u32 = if port_base == GPIOA_BASE {
        0
    } else {
        2
    };
    RegWrite { addr: RCC_AHB1ENR, value: ahb1enr | (1u32 << bit) }
}

/// Configures `pin` as a push-pull output without pull resistor, from the
/// MODER, OTYPER and PUPDR values read from the port. Every other pin's
/// bits are written back as they were read.
pub fn gpio_set_output(port_base: u32, pin: u8, moder: u32, otyper: u32, pupdr: u32) -> (ws: (
    RegWrite,
    RegWrite,
    RegWrite,
))
    requires
        port_ok(port_base),
        pin_ok(pin),
    ensures
        ws.0.addr == port_base + MODER_OFF,
        field2(ws.0.value, pin) == 1,
        ws.0.value & !mask2(pin) == moder & !mask2(pin),
        ws.1.addr == port_base + OTYPER_OFF,
        !bit1(ws.1.value, pin),
        ws.1.value & !(1u32 << pin as u32) == otyper & !(1u32 << pin as u32),
        ws.2.addr == port_base + PUPDR_OFF,
        field2(ws.2.value, pin) == 0,
        ws.2.value & !mask2(pin) == pupdr & !mask2(pin),
{
    let shift: u32 = (pin as u32) * 2;
    let p: u32 = pin as u32;
    let m = (moder & !(3u32 << shift)) | (1u32 << shift);
    let o = otyper & !(1u32 << p);
    let u = pupdr & !(3u32 << shift);
    assert(shift == (2 * pin) as u32);
    assert(field2(m, pin) == 1 && m & !mask2(pin) == moder & !mask2(pin)) by (bit_vector)
        requires
            shift < 32,
            shift == (2 * pin) as u32,
            m == (moder & !(3u32 << shift)) | (1u32 << shift),
    ;
    assert(!bit1(o, pin) && o & !(1u32 << p) == otyper & !(1u32 << p)) by (bit_vector)
        requires
            p < 16,
            p == pin as u32,
            o == otyper & !(1u32 << p),
    ;
    assert(field2(u, pin) == 0 && u & !mask2(pin) == pupdr & !mask2(pin)) by (bit_vector)
        requires
            shift < 32,
            shift == (2 * pin) as u32,
            u == pupdr & !(3u32 << shift),
    ;
    (
        RegWrite { addr: port_base + MODER_OFF, value: m },
        RegWrite { addr: port_base + OTYPER_OFF, value: o },
        RegWrite { addr: port_base + PUPDR_OFF, value: u },
    )
}

/// Configures `pin` as an input with pull-up, from the MODER and PUPDR
/// values read from the port. Every other pin's bits are written back as
/// they were read.
pub fn gpio_set_input_pullup(port_base: u32, pin: u8, moder: u32, pupdr: u32) -> (ws: (
    RegWrite,
    RegWrite,
))
    requires
        port_ok(port_base),
        pin_ok(pin),
    ensures
        ws.0.addr == port_base + MODER_OFF,
        field2(ws.0.value, pin) == 0,
        ws.0.value & !mask2(pin) == moder & !mask2(pin),
        ws.1.addr == port_base + PUPDR_OFF,
        field2(ws.1.value, pin) == 1,
        ws.1.value & !mask2(pin) == pupdr & !mask2(pin),
{
    let shift: u32 = (pin as u32) * 2;
    let m = moder & !(3u32 << shift);
    let u = (pupdr & !(3u32 << shift)) | (1u32 << shift);
    assert(shift == (2 * pin) as u32);
    assert(field2(m, pin) == 0 && m & !mask2(pin) == moder & !mask2(pin)) by (bit_vector)
        requires
            shift < 32,
            shift == (2 * pin) as u32,
            m == moder & !(3u32 << shift),
    ;
    assert(field2(u, pin) == 1 && u & !mask2(pin) == pupdr & !mask2(pin)) by (bit_vector)
        requires
            shift < 32,
            shift == (2 * pin) as u32,
            u == (pupdr & !(3u32 << shift)) | (1u32 << shift),
    ;
    (
        RegWrite { addr: port_base + MODER_OFF, value: m },
        RegWrite { addr: port_base + PUPDR_OFF, value: u },
    )
}

/// Drives `pin` high or low through the port's bit set / reset register.
pub fn gpio_write(port_base: u32, pin: u8, high: bool) -> (w: RegWrite)
    requires
        port_ok(port_base),
        pin_ok(pin),
    ensures
        w == bsrr_write(port_base, pin, high),
{
    let value: u32 = if high {
        1u32 << (pin as u32)
    } else {
        1u32 << ((pin + 16) as u32)
    };
    RegWrite { addr: port_base + BSRR_OFF, value }
}

/// Inverts the level of `pin`, given the output data register read from
/// the port: a pin that reads low is driven high and one that reads high is
/// driven low.
pub fn gpio_toggle(port_base: u32, pin: u8, odr: u32) -> (w: RegWrite)
    requires
        port_ok(port_base),
        pin_ok(pin),
    ensures
        w == bsrr_write(port_base, pin, !bit1(odr, pin)),
{
    let cur = (odr >> (pin as u32)) & 1u32;
    assert((cur == 0) == !bit1(odr, pin)) by (bit_vector)
        requires
            cur == (odr >> (pin as u32)) & 1u32,
    ;
    gpio_write(port_base, pin, cur == 0)
}

/// The level of `pin` in the input data register value `idr`.
pub fn gpio_read_input(pin: u8, idr: u32) -> (high: bool)
    requires
        pin_ok(pin),
    ensures
        high == bit1(idr, pin),
{
    let b = (idr >> (pin as u32)) & 1u32;
    assert((b != 0) == bit1(idr, pin)) by (bit_vector)
        requires
            b == (idr >> (pin as u32)) & 1u32,
    ;
    b != 0
}

/// The BSRR value that drives a pin high has the pin's own bit set, and the
/// one that drives it low has it clear (it sets the pin's reset bit instead).
pub proof fn lemma_bsrr_sets_level(pin: u8, high: bool)
    requires
        pin_ok(pin),
    ensures
        high ==> bit1(bsrr_value(pin, high), pin),
        !high ==> !bit1(bsrr_value(pin, high), pin),
{
    let p = pin as u32;
    if high {
        assert(((1u32 << p) >> p) & 1u32 == 1u32) by (bit_vector)
            requires
                p < 16,
        ;
    } else {
        let q = (pin + 16) as u32;
        assert(((1u32 << q) >> p) & 1u32 == 0u32) by (bit_vector)
            requires
                p < 16,
                q == p + 16,
        ;
    }
}

/// The output data register after writing `bsrr` to the bit set / reset
/// register: the pins whose reset bit (16-31) is set go low, then the pins
/// whose set bit (0-15) is set go high (set wins over reset).
pub open spec fn odr_after_bsrr(odr: u32, bsrr: u32) -> u32 {
    (odr & !(bsrr >> 16u32)) | (bsrr & 0xFFFFu32)
}

/// The output data register after toggling `pin` through the BSRR, as
/// `gpio_toggle` does from the value `odr` it read.
pub open spec fn odr_after_toggle(odr: u32, pin: u8) -> u32 {
    odr_after_bsrr(odr, bsrr_value(pin, !bit1(odr, pin)))
}

/// Driving a pin through the BSRR gives it the level written and leaves
/// every other bit of the output data register as it was.
pub proof fn lemma_bsrr_write_drives_pin(odr: u32, pin: u8, high: bool)
    requires
        pin_ok(pin),
    ensures
        bit1(odr_after_bsrr(odr, bsrr_value(pin, high)), pin) == high,
        odr_after_bsrr(odr, bsrr_value(pin, high)) & !(1u32 << pin as u32) == odr & !(1u32 << pin as u32),
{
    let p = pin as u32;
    if high {
        let v = 1u32 << p;
        assert(((((odr & !(v >> 16u32)) | (v & 0xFFFFu32)) >> p) & 1u32 == 1u32) && ((odr & !(v
            >> 16u32)) | (v & 0xFFFFu32)) & !(1u32 << p) == odr & !(1u32 << p)) by (bit_vector)
            requires
                p < 16,
                v == 1u32 << p,
        ;
    } else {
        let q = (pin + 16) as u32;
        let v = 1u32 << q;
        assert(((((odr & !(v >> 16u32)) | (v & 0xFFFFu32)) >> p) & 1u32 != 1u32) && ((odr & !(v
            >> 16u32)) | (v & 0xFFFFu32)) & !(1u32 << p) == odr & !(1u32 << p)) by (bit_vector)
            requires
                p < 16,
                q == p + 16,
                v == 1u32 << q,
        ;
    }
}

/// Toggling a pin inverts its level and leaves the other bits alone, so
/// toggling it twice restores the output data register.
pub proof fn lemma_toggle_twice(odr: u32, pin: u8)
    requires
        pin_ok(pin),
    ensures
        bit1(odr_after_toggle(odr, pin), pin) == !bit1(odr, pin),
        odr_after_toggle(odr_after_toggle(odr, pin), pin) == odr,
{
    let o1 = odr_after_toggle(odr, pin);
    let o2 = odr_after_toggle(o1, pin);
    lemma_bsrr_write_drives_pin(odr, pin, !bit1(odr, pin));
    lemma_bsrr_write_drives_pin(o1, pin, !bit1(o1, pin));
    let p = pin as u32;
    let m = 1u32 << p;
    assert(o2 == odr) by (bit_vector)
        requires
            p < 16,
            m == 1u32 << p,
            o2 & !m == odr & !m,
            ((o2 >> p) & 1u32 == 1u32) == ((odr >> p) & 1u32 == 1u32),
    ;
}

} // verus!
