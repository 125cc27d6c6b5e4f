use mini_os::board::InitStep;
use mini_os::app_syscalls;
use mini_os::board::{
    gpio_pin_to_idx, BoardOp, BoardSyscalls, GpioPin, GpioPriv, RawPin, Syscalls, CYCLES_PER_MS_ESTIMATE,
    GPIOA, GPIOC,
};
use mini_os::capsules::MuxGpio;
use mini_os::regs::RegWrite;
use mini_os::svc::{
    call_id_of, kernel_dispatch, svc_stats, svcall_rust, Client, ExceptionFrame, SvcCounters, SvcRequest,
    GPIO_TOGGLE, GPIO_WRITE, NOW_MS, SLEEP_MS,
};

fn board() -> BoardSyscalls {
    BoardSyscalls::new(RawPin::new(GPIOA, 5), RawPin::new(GPIOC, 13), CYCLES_PER_MS_ESTIMATE)
}

fn frame(req: SvcRequest) -> ExceptionFrame {
    ExceptionFrame {
        r0: req.call_id as u32,
        r1: req.a0,
        r2: req.a1,
        r3: req.a2,
        r12: req.a3,
        lr: 0,
        pc: 0,
        xpsr: 0,
    }
}

#[test]
fn clock_and_sleep_are_served_on_a_board_without_a_valid_led() {
    let mut b = BoardSyscalls::new(RawPin::new(GPIOA, 40), RawPin::new(GPIOC, 13), 10);
    assert!(!b.led_valid());
    assert!(!b.is_valid());
    assert_eq!(kernel_dispatch(&mut b, SLEEP_MS, 7, 0, 0, 0), (0, BoardOp::Spin { ms: 7, cycles_per_ms: 10 }));
    assert_eq!(kernel_dispatch(&mut b, NOW_MS, 0, 0, 0, 0), (7, BoardOp::Idle));
    let mut counters = SvcCounters::new();
    let mut f = frame(SvcRequest { call_id: NOW_MS, a0: 0, a1: 0, a2: 0, a3: 0 });
    assert_eq!(svcall_rust(&mut f, &mut counters, &mut b), BoardOp::Idle);
    assert_eq!(f.r0, 7);
    assert_eq!(call_id_of(0x1234_0102), 2);
    assert!(board().led_valid());
}

#[test]
fn pin_index() {
    assert_eq!(gpio_pin_to_idx(GpioPin::Led1), 0);
}

#[test]
fn board_sleep_advances_clock_and_wraps() {
    let mut b = board();
    assert_eq!(b.now_ms(), 0);
    assert_eq!(b.sleep_ms(5), BoardOp::Spin { ms: 5, cycles_per_ms: 16_000 });
    assert_eq!(b.sleep_ms(7), BoardOp::Spin { ms: 7, cycles_per_ms: 16_000 });
    assert_eq!(b.now_ms(), 12);
}

#[test]
fn board_gpio_ops() {
    let mut b = board();
    assert_eq!(
        b.gpio_write(GpioPin::Led1, true),
        BoardOp::Write(RegWrite { addr: 0x4002_0018, value: 1 << 5 })
    );
    assert_eq!(b.gpio_toggle(GpioPin::Led1), BoardOp::Toggle(RawPin::new(GPIOA, 5)));
}

#[test]
fn dispatch_of_each_call() {
    let mut b = board();
    assert_eq!(kernel_dispatch(&mut b, SLEEP_MS, 3, 0, 0, 0), (0, BoardOp::Spin { ms: 3, cycles_per_ms: 16_000 }));
    assert_eq!(kernel_dispatch(&mut b, NOW_MS, 0, 0, 0, 0), (3, BoardOp::Idle));
    assert_eq!(
        kernel_dispatch(&mut b, GPIO_WRITE, 0, 0, 0, 0),
        (0, BoardOp::Write(RegWrite { addr: 0x4002_0018, value: 1 << 21 }))
    );
    assert_eq!(kernel_dispatch(&mut b, GPIO_TOGGLE, 0, 0, 0, 0), (0, BoardOp::Toggle(RawPin::new(GPIOA, 5))));
    assert_eq!(kernel_dispatch(&mut b, 9, 0, 0, 0, 0), (0xFFFF_FFFF, BoardOp::Idle));
    assert_eq!(b.now_ms(), 3);
}

#[test]
fn client_calls_reach_the_board_through_svc() {
    let mut b = board();
    let mut counters = SvcCounters::new();
    let c = Client::new();
    let mut f = frame(c.sleep_ms(10));
    let op = svcall_rust(&mut f, &mut counters, &mut b);
    assert_eq!(op, BoardOp::Spin { ms: 10, cycles_per_ms: 16_000 });
    assert_eq!(f.r0, 0);
    let mut f = frame(c.now_ms());
    assert_eq!(svcall_rust(&mut f, &mut counters, &mut b), BoardOp::Idle);
    assert_eq!(c.now_from_reply(f.r0), 10);
    let mut f = frame(c.gpio_write(GpioPin::Led1, true));
    assert_eq!(
        svcall_rust(&mut f, &mut counters, &mut b),
        BoardOp::Write(RegWrite { addr: 0x4002_0018, value: 1 << 5 })
    );
    let mut f = frame(app_syscalls::gpio_toggle(GpioPin::Led1));
    assert_eq!(svcall_rust(&mut f, &mut counters, &mut b), BoardOp::Toggle(RawPin::new(GPIOA, 5)));
    assert_eq!(svc_stats(&counters), (4, 1));
}

#[test]
fn call_number_is_the_low_byte_of_r0() {
    let mut b = board();
    let mut counters = SvcCounters::new();
    let mut f = frame(SvcRequest { call_id: NOW_MS, a0: 0, a1: 0, a2: 0, a3: 0 });
    f.r0 = 0x1234_5601;
    assert_eq!(svcall_rust(&mut f, &mut counters, &mut b), BoardOp::Idle);
    assert_eq!(f.r0, 0);
    assert_eq!(svc_stats(&counters), (1, 1));
}

#[test]
fn app_syscall_requests() {
    assert_eq!(
        app_syscalls::gpio_write(GpioPin::Led1, true),
        SvcRequest { call_id: GPIO_WRITE, a0: 0, a1: 1, a2: 0, a3: 0 }
    );
    let mut ticks = u32::MAX - 1;
    assert_eq!(app_syscalls::get_system_ticks(&mut ticks), u32::MAX);
    assert_eq!(app_syscalls::get_system_ticks(&mut ticks), 0);
}

static LED_A: GpioPriv = GpioPriv { port_base: GPIOA, pin: 5 };
static LED_B: GpioPriv = GpioPriv { port_base: GPIOA, pin: 6 };

#[test]
fn mux_routes_led1_to_first_handle() {
    let m = MuxGpio::new(&LED_A, &LED_B);
    assert_eq!(m.write(GpioPin::Led1, false), RegWrite { addr: 0x4002_0018, value: 1 << 21 });
    assert_eq!(m.toggle(GpioPin::Led1, 0), RegWrite { addr: 0x4002_0018, value: 1 << 5 });
    assert_eq!(m.route(GpioPin::Led1).pin, 5);
    let p = GpioPriv::new_privileged_const(GPIOC, 1);
    assert_eq!(p.write(true), RegWrite { addr: 0x4002_0818, value: 2 });
}

#[test]
fn main_board_bring_up_steps() {
    let b = board();
    assert!(b.is_valid());
    assert_eq!(
        b.init(),
        vec![
            InitStep::EnableClock { port_base: GPIOA },
            InitStep::EnableClock { port_base: GPIOC },
            InitStep::SetOutput(RawPin::new(GPIOA, 5)),
            InitStep::SetInputPullup(RawPin::new(GPIOC, 13)),
        ]
    );
}

#[test]
fn clock_reads_never_exceed_calls() {
    let mut b = board();
    let mut counters = SvcCounters::new();
    for id in [NOW_MS, SLEEP_MS, NOW_MS, GPIO_TOGGLE, 9] {
        let mut f = frame(SvcRequest { call_id: id, a0: 1, a1: 0, a2: 0, a3: 0 });
        svcall_rust(&mut f, &mut counters, &mut b);
        let (all, now) = svc_stats(&counters);
        assert!(now <= all);
    }
    assert_eq!(svc_stats(&counters), (5, 2));
}

#[test]
fn toggling_twice_restores_the_level() {
    // Simulates the output data register under BSRR writes.
    fn apply(odr: u32, bsrr: u32) -> u32 {
        (odr & !(bsrr >> 16)) | (bsrr & 0xFFFF)
    }
    let odr0 = 0x0000_1234u32;
    let w1 = mini_os::regs::gpio_toggle(GPIOA, 5, odr0);
    let odr1 = apply(odr0, w1.value);
    assert_ne!(odr1 & (1 << 5), odr0 & (1 << 5));
    let w2 = mini_os::regs::gpio_toggle(GPIOA, 5, odr1);
    assert_eq!(apply(odr1, w2.value), odr0);
}
