//! Configuration of the SysTick timer that drives pre-emption, and the
//! PendSV trigger.
use vstd::prelude::*;
use crate::regs::RegWrite;

verus! {

/// SysTick control and status register.
pub const SYST_CSR: u32 = 0xE000_E010;

/// SysTick reload value register.
pub const SYST_RVR: u32 = 0xE000_E014;

/// SysTick current value register.
pub const SYST_CVR: u32 = 0xE000_E018;

/// Interrupt control and state register.
pub const ICSR: u32 = 0xE000_ED04;

/// CSR bit: count.
pub const CSR_ENABLE: u32 = 1;

/// CSR bit: raise the SysTick exception when the count reaches 0.
pub const CSR_TICKINT: u32 = 2;

/// CSR bit: count processor clock cycles.
pub const CSR_CLKSOURCE: u32 = 4;

/// Processor clock, in Hz.
pub const CORE_CLOCK_HZ: u32 = 16_000_000;

/// ICSR value that pends the PendSV exception.
pub const ICSR_PENDSVSET: u32 = 0x1000_0000;

/// Sets SysTick up to count processor cycles with a period of one second,
/// the interrupt still off: reload, clear the current value, enable.
pub fn init_systick_1s() -> (ws: (RegWrite, RegWrite, RegWrite))
    ensures
        ws.0.addr == SYST_RVR,
        ws.0.value + 1 == CORE_CLOCK_HZ,
        ws.1 == (RegWrite { addr: SYST_CVR, value: 0 }),
        ws.2 == (RegWrite { addr: SYST_CSR, value: (CSR_CLKSOURCE + CSR_ENABLE) as u32 }),
{
    (
        RegWrite { addr: SYST_RVR, value: CORE_CLOCK_HZ - 1 },
        RegWrite { addr: SYST_CVR, value: 0 },
        RegWrite { addr: SYST_CSR, value: CSR_CLKSOURCE + CSR_ENABLE },
    )
}

/// Turns the SysTick interrupt on, keeping the counter running.
pub fn enable_systick_interrupt() -> (w: RegWrite)
    ensures
        w == (RegWrite { addr: SYST_CSR, value: (CSR_CLKSOURCE + CSR_TICKINT + CSR_ENABLE) as u32 }),
{
    RegWrite { addr: SYST_CSR, value: CSR_CLKSOURCE + CSR_TICKINT + CSR_ENABLE }
}

/// Pends the PendSV exception, which switches tasks.
pub fn pend_sv() -> (w: RegWrite)
    ensures
        w == (RegWrite { addr: ICSR, value: ICSR_PENDSVSET }),
{
    RegWrite { addr: ICSR, value: ICSR_PENDSVSET }
}

} // verus!
