use mini_os::board::InitStep;
use mini_os::board::{BoardOp, RawPin, GPIOA, GPIOC};
use mini_os::button_os::apps::{AnyApp, HeartbeatApp, LedSosApp};
use mini_os::button_os::board::BoardSyscalls;
use mini_os::button_os::os::{App, AppCall, GpioPin, Os, RunPlan, SysCall, Syscalls};
use mini_os::regs::RegWrite;

fn sos() -> Vec<SysCall> {
    let mut v = Vec::new();
    for d in [2u32, 2, 2, 6, 6, 6, 2, 2, 2] {
        v.push(SysCall::GpioWrite { pin: GpioPin::Led2, high: true });
        v.push(SysCall::SleepMs { ms: d });
        v.push(SysCall::GpioWrite { pin: GpioPin::Led2, high: false });
        v.push(SysCall::SleepMs { ms: 2 });
    }
    v.push(SysCall::SleepMs { ms: 7 });
    v
}

#[test]
fn heartbeat_blinks_once_per_period() {
    let mut h = HeartbeatApp::new(3);
    assert_eq!(h.name(), "heartbeat");
    assert_eq!(
        h.tick(3),
        vec![
            SysCall::GpioWrite { pin: GpioPin::Led1, high: true },
            SysCall::GpioWrite { pin: GpioPin::Led2, high: true },
            SysCall::SleepMs { ms: 1 },
        ]
    );
    assert_eq!(h.tick(4), vec![SysCall::SleepMs { ms: 1 }]);
    assert_eq!(h.tick(5), vec![SysCall::SleepMs { ms: 1 }]);
    assert_eq!(
        h.tick(6),
        vec![
            SysCall::GpioWrite { pin: GpioPin::Led1, high: false },
            SysCall::GpioWrite { pin: GpioPin::Led2, high: false },
            SysCall::SleepMs { ms: 1 },
        ]
    );
}

#[test]
fn heartbeat_handles_clock_wrap() {
    let mut h = HeartbeatApp::new(3);
    h.tick(u64::MAX - 1);
    assert_eq!(h.tick(0), vec![SysCall::SleepMs { ms: 1 }]);
    assert_eq!(h.tick(1).len(), 3);
}

#[test]
fn sos_pattern_and_timing() {
    let mut s = LedSosApp::new();
    assert_eq!(s.name(), "led_sos");
    let calls = s.tick(0);
    assert_eq!(calls, sos());
    let total: u32 = calls
        .iter()
        .map(|c| match c {
            SysCall::SleepMs { ms } => *ms,
            _ => 0,
        })
        .sum();
    assert_eq!(total, 55);
    assert_eq!(calls.len(), 37);
    assert_eq!(calls[34], SysCall::GpioWrite { pin: GpioPin::Led2, high: false });
}

fn os() -> Os<AnyApp> {
    Os::new(vec![AnyApp::Heartbeat(HeartbeatApp::new(3)), AnyApp::Sos(LedSosApp::new())])
}

#[test]
fn run_plans() {
    let mut o = os();
    let (plan, init) = o.run(AppCall::SwitchOnButton { primary: 0, secondary: 1 });
    assert!(init.is_empty());
    assert_eq!(plan, RunPlan::SwitchOnButton { primary: 0, secondary: 1 });
    assert!(plan.uses_button());
    assert_eq!(plan.app_at(0, 2, false), 0);
    assert_eq!(plan.app_at(0, 2, true), 1);
    assert_eq!(o.run(AppCall::ByIndex(5)).0, RunPlan::Fixed { index: 1 });
    assert_eq!(o.run(AppCall::ByName("led_sos")).0, RunPlan::Fixed { index: 1 });
    assert_eq!(o.run(AppCall::ByName("heartbeat")).0, RunPlan::Fixed { index: 0 });
    assert_eq!(o.run(AppCall::ByName("missing")).0, RunPlan::Fixed { index: 0 });
    let (all, _) = o.run(AppCall::All);
    assert_eq!(all, RunPlan::All);
    assert!(!all.uses_button());
    let seq: Vec<usize> = (0..5).map(|s| all.app_at(s, 2, false)).collect();
    assert_eq!(seq, vec![0, 1, 0, 1, 0]);
    assert_eq!(
        o.run(AppCall::SwitchOnButton { primary: 3, secondary: 4 }).0,
        RunPlan::SwitchOnButton { primary: 1, secondary: 0 }
    );
    assert_eq!(o.find_app("led_sos"), 1);
    assert_eq!(o.app_count(), 2);
}

#[test]
fn all_plan_ticks_each_app_once_per_round_in_order() {
    let n = 3;
    let mut step = 0usize;
    let mut ticked = Vec::new();
    for _ in 0..7 {
        ticked.push(RunPlan::All.app_at(step, n, false));
        step = RunPlan::next_step(step, n);
    }
    assert_eq!(ticked, vec![0, 1, 2, 0, 1, 2, 0]);
    assert_eq!(RunPlan::next_step(2, 3), 0);
    assert_eq!(RunPlan::next_step(0, 1), 0);
}

#[test]
fn ticks_go_to_the_chosen_app() {
    let mut o = os();
    o.run(AppCall::All);
    assert_eq!(o.tick(1, 0), sos());
    assert_eq!(o.tick(0, 3).len(), 3);
    assert_eq!(o.tick(0, 4).len(), 1);
}

#[test]
fn two_led_board() {
    let mut b = BoardSyscalls::new(RawPin::new(GPIOA, 5), RawPin::new(GPIOA, 6), RawPin::new(GPIOC, 13), 100);
    assert_eq!(
        b.perform(SysCall::GpioWrite { pin: GpioPin::Led2, high: true }),
        BoardOp::Write(RegWrite { addr: 0x4002_0018, value: 1 << 6 })
    );
    assert_eq!(b.perform(SysCall::GpioToggle { pin: GpioPin::Led1 }), BoardOp::Toggle(RawPin::new(GPIOA, 5)));
    assert_eq!(b.perform(SysCall::SleepMs { ms: 4 }), BoardOp::Spin { ms: 4, cycles_per_ms: 100 });
    assert_eq!(b.now_ms(), 4);
    assert!(b.user_button_pressed(0));
    assert!(!b.user_button_pressed(1 << 13));
    assert_eq!(b.button(), RawPin::new(GPIOC, 13));
    assert_eq!(b.raw_pin(GpioPin::Led2), RawPin::new(GPIOA, 6));
}

#[test]
fn board_bring_up_steps() {
    let b = BoardSyscalls::new(RawPin::new(GPIOA, 5), RawPin::new(GPIOA, 6), RawPin::new(GPIOC, 13), 1);
    assert!(b.is_valid());
    assert_eq!(
        b.init(),
        vec![
            InitStep::EnableClock { port_base: GPIOA },
            InitStep::EnableClock { port_base: GPIOC },
            InitStep::SetOutput(RawPin::new(GPIOA, 5)),
            InitStep::SetOutput(RawPin::new(GPIOA, 6)),
            InitStep::SetInputPullup(RawPin::new(GPIOC, 13)),
        ]
    );
    let bad = BoardSyscalls::new(RawPin::new(GPIOA, 16), RawPin::new(GPIOA, 6), RawPin::new(GPIOC, 13), 1);
    assert!(!bad.is_valid());
}

#[test]
fn start_up_runs_once() {
    let mut o = os();
    let (_, first) = o.run(AppCall::All);
    assert!(first.is_empty());
    let (_, second) = o.run(AppCall::All);
    assert!(second.is_empty());
    let mut h = HeartbeatApp::new(3);
    assert!(h.init().is_empty());
}
