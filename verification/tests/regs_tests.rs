use mini_os::regs::{
    gpio_enable_clock, gpio_read_input, gpio_set_input_pullup, gpio_set_output, gpio_toggle,
    gpio_write, RegWrite, GPIOA_BASE, GPIOC_BASE, RCC_AHB1ENR,
};

#[test]
fn clock_enable_sets_port_bit() {
    assert_eq!(gpio_enable_clock(GPIOA_BASE, 0x10), RegWrite { addr: 0x4002_3830, value: 0x11 });
    assert_eq!(gpio_enable_clock(GPIOC_BASE, 0x1), RegWrite { addr: RCC_AHB1ENR, value: 0x5 });
}

#[test]
fn output_configuration_touches_only_the_pin() {
    let (m, o, p) = gpio_set_output(GPIOA_BASE, 5, 0xFFFF_FFFF, 0xFFFF_FFFF, 0xFFFF_FFFF);
    assert_eq!(m, RegWrite { addr: 0x4002_0000, value: 0xFFFF_F7FF });
    assert_eq!(o, RegWrite { addr: 0x4002_0004, value: 0xFFFF_FFDF });
    assert_eq!(p, RegWrite { addr: 0x4002_000C, value: 0xFFFF_F3FF });
    let (m, _, _) = gpio_set_output(GPIOA_BASE, 5, 0, 0, 0);
    assert_eq!(m.value, 0x0000_0400);
}

#[test]
fn input_pullup_configuration() {
    let (m, p) = gpio_set_input_pullup(GPIOC_BASE, 13, 0xFFFF_FFFF, 0);
    assert_eq!(m, RegWrite { addr: 0x4002_0800, value: 0xF3FF_FFFF });
    assert_eq!(p, RegWrite { addr: 0x4002_080C, value: 0x0400_0000 });
}

#[test]
fn bsrr_writes_set_and_reset_bits() {
    assert_eq!(gpio_write(GPIOA_BASE, 5, true), RegWrite { addr: 0x4002_0018, value: 1 << 5 });
    assert_eq!(gpio_write(GPIOA_BASE, 5, false), RegWrite { addr: 0x4002_0018, value: 1 << 21 });
}

#[test]
fn toggle_inverts_the_read_level() {
    assert_eq!(gpio_toggle(GPIOA_BASE, 5, 0x20).value, 1 << 21);
    assert_eq!(gpio_toggle(GPIOA_BASE, 5, 0xFFFF_FFDF).value, 1 << 5);
}

#[test]
fn input_level_is_the_pin_bit() {
    assert!(gpio_read_input(13, 0x2000));
    assert!(!gpio_read_input(13, 0xFFFF_DFFF));
}
