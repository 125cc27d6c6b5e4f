//! The two demonstration applications: a heartbeat blink and an SOS
//! pattern.
use vstd::prelude::*;
use crate::button_os::os::{App, GpioPin, SysCall};

verus! {

/// Steady blink on both LEDs: every `period_ms` milliseconds the LEDs
/// change level.
pub struct HeartbeatApp {
    last: u64,
    on: bool,
    period_ms: u32,
}

/// Milliseconds from `last` to `now` on a wrapping clock.
pub open spec fn elapsed(now: u64, last: u64) -> u64 {
    vstd::wrapping::u64_specs::wrapping_sub(now, last)
}

/// One heartbeat tick at clock `now` takes `before` to `after` and makes
/// `calls`: once a period has elapsed since the last change the level flips
/// and both LEDs are driven to it; the tick always ends with a 1 ms sleep.
pub open spec fn heartbeat_tick(before: HeartbeatApp, after: HeartbeatApp, now: u64, calls: Seq<SysCall>) -> bool {
    &&& after.period_ms() == before.period_ms()
    &&& elapsed(now, before.last()) >= before.period_ms() ==> {
        &&& after.on() == !before.on()
        &&& after.last() == now
        &&& calls == seq![
            SysCall::GpioWrite { pin: GpioPin::Led1, high: !before.on() },
            SysCall::GpioWrite { pin: GpioPin::Led2, high: !before.on() },
            SysCall::SleepMs { ms: 1 },
        ]
    }
    &&& elapsed(now, before.last()) < before.period_ms() ==> {
        &&& after.on() == before.on()
        &&& after.last() == before.last()
        &&& calls == seq![SysCall::SleepMs { ms: 1 }]
    }
}

impl HeartbeatApp {
    /// The clock value of the last level change (0 before the first).
    pub closed spec fn last(&self) -> u64 {
        self.last
    }

    /// The level the LEDs were last driven to.
    pub closed spec fn on(&self) -> bool {
        self.on
    }

    /// The blink period.
    pub closed spec fn period_ms(&self) -> u32 {
        self.period_ms
    }

    /// A heartbeat with the given period whose LEDs are off.
    pub fn new(period_ms: u32) -> (h: Self)
        ensures
            h.last() == 0,
            !h.on(),
            h.period_ms() == period_ms,
    {
        Self { last: 0, on: false, period_ms }
    }

}

impl App for HeartbeatApp {
    open spec fn app_name(&self) -> Seq<char> {
        "heartbeat"@
    }

    fn name(&self) -> (n: &'static str) {
        "heartbeat"
    }

    /// No start-up work: no system call, nothing changes.
    open spec fn inits_to(&self, after: Self, calls: Seq<SysCall>) -> bool {
        after == *self && calls.len() == 0
    }

    fn init(&mut self) -> (calls: Vec<SysCall>) {
        Vec::new()
    }

    /// One heartbeat step at clock `now`: once a period has elapsed since
    /// the last change the level flips and both LEDs are driven to it; the
    /// step always ends with a 1 ms sleep.
    open spec fn ticks_to(&self, now_ms: u64, after: Self, calls: Seq<SysCall>) -> bool {
        heartbeat_tick(*self, after, now_ms, calls)
    }

    fn tick(&mut self, now: u64) -> (calls: Vec<SysCall>)
    {
        let mut calls: Vec<SysCall> = Vec::new();
        if now.wrapping_sub(self.last) >= self.period_ms as u64 {
            self.on = !self.on;
            calls.push(SysCall::GpioWrite { pin: GpioPin::Led1, high: self.on });
            calls.push(SysCall::GpioWrite { pin: GpioPin::Led2, high: self.on });
            self.last = now;
            calls.push(SysCall::SleepMs { ms: 1 });
            assert(calls@ =~= seq![
                SysCall::GpioWrite { pin: GpioPin::Led1, high: self.on },
                SysCall::GpioWrite { pin: GpioPin::Led2, high: self.on },
                SysCall::SleepMs { ms: 1 },
            ]);
        } else {
            calls.push(SysCall::SleepMs { ms: 1 });
            assert(calls@ =~= seq![SysCall::SleepMs { ms: 1 }]);
        }
        calls
    }
}

/// Length of a dot, in milliseconds.
pub const DOT: u32 = 2;

/// Length of a dash.
pub const DASH: u32 = 6;

/// Gap after each pulse.
pub const GAP: u32 = 2;

/// Pause after the word.
pub const WORD: u32 = 7;

/// One pulse of `dur` milliseconds on LED 2, followed by a gap.
pub open spec fn pulse(dur: u32) -> Seq<SysCall> {
    seq![
        SysCall::GpioWrite { pin: GpioPin::Led2, high: true },
        SysCall::SleepMs { ms: dur },
        SysCall::GpioWrite { pin: GpioPin::Led2, high: false },
        SysCall::SleepMs { ms: GAP },
    ]
}

/// `count` pulses of `dur` milliseconds.
pub open spec fn pulses(dur: u32, count: nat) -> Seq<SysCall>
    decreases count,
{
    if count == 0 {
        Seq::empty()
    } else {
        pulses(dur, (count - 1) as nat) + pulse(dur)
    }
}

/// The SOS pattern `··· ––– ···`: three dots, three dashes, three dots,
/// then the word pause.
pub open spec fn sos_pattern() -> Seq<SysCall> {
    pulses(DOT, 3) + pulses(DASH, 3) + pulses(DOT, 3) + seq![SysCall::SleepMs { ms: WORD }]
}

/// Milliseconds the calls `calls` sleep in total.
pub open spec fn sleep_total(calls: Seq<SysCall>) -> int
    decreases calls.len(),
{
    if calls.len() == 0 {
        0
    } else {
        sleep_total(calls.drop_last()) + match calls.last() {
            SysCall::SleepMs { ms } => ms as int,
            _ => 0,
        }
    }
}

proof fn lemma_sleep_total_concat(a: Seq<SysCall>, b: Seq<SysCall>)
    ensures
        sleep_total(a + b) == sleep_total(a) + sleep_total(b),
    decreases b.len(),
{
    if b.len() > 0 {
        lemma_sleep_total_concat(a, b.drop_last());
        assert((a + b).drop_last() =~= a + b.drop_last());
    } else {
        assert(a + b =~= a);
    }
}

proof fn lemma_pulse_total(dur: u32)
    ensures
        sleep_total(pulse(dur)) == dur + GAP,
{
    let p = pulse(dur);
    let p3 = seq![
        SysCall::GpioWrite { pin: GpioPin::Led2, high: true },
        SysCall::SleepMs { ms: dur },
        SysCall::GpioWrite { pin: GpioPin::Led2, high: false },
    ];
    let p2 = seq![
        SysCall::GpioWrite { pin: GpioPin::Led2, high: true },
        SysCall::SleepMs { ms: dur },
    ];
    let p1 = seq![SysCall::GpioWrite { pin: GpioPin::Led2, high: true }];
    let p0 = Seq::<SysCall>::empty();
    assert(p1.drop_last() =~= p0);
    assert(p2.drop_last() =~= p1);
    assert(p3.drop_last() =~= p2);
    assert(p.drop_last() =~= p3);
    assert(sleep_total(p0) == 0);
    assert(sleep_total(p1) == 0);
    assert(sleep_total(p2) == dur);
    assert(sleep_total(p3) == dur);
}

proof fn lemma_pulses_total(dur: u32, count: nat)
    ensures
        sleep_total(pulses(dur, count)) == count * (dur + GAP),
    decreases count,
{
    if count > 0 {
        lemma_pulses_total(dur, (count - 1) as nat);
        lemma_sleep_total_concat(pulses(dur, (count - 1) as nat), pulse(dur));
        lemma_pulse_total(dur);
        assert(pulses(dur, count) == pulses(dur, (count - 1) as nat) + pulse(dur));
        assert((count - 1) * (dur + GAP) + (dur + GAP) == count * (dur + GAP)) by (nonlinear_arith);
    } else {
        assert(pulses(dur, count) == Seq::<SysCall>::empty());
        assert(sleep_total(Seq::<SysCall>::empty()) == 0);
    }
}

/// One SOS pattern lasts 55 ms (three dots, three dashes and three dots,
/// each followed by a gap, then the word pause) in 37 calls, touches only
/// LED 2, and leaves it off: its last LED write drives LED 2 low.
pub proof fn lemma_sos_timing()
    ensures
        sleep_total(sos_pattern()) == 55,
        sos_pattern().len() == 37,
        sos_pattern()[34] == (SysCall::GpioWrite { pin: GpioPin::Led2, high: false }),
        forall|i: int|
            0 <= i < sos_pattern().len() ==> match #[trigger] sos_pattern()[i] {
                SysCall::GpioWrite { pin, high } => pin == GpioPin::Led2,
                SysCall::GpioToggle { .. } => false,
                SysCall::SleepMs { .. } => true,
            },
{
    let a = pulses(DOT, 3);
    let b = pulses(DASH, 3);
    let w = seq![SysCall::SleepMs { ms: WORD }];
    lemma_pulses_total(DOT, 3);
    lemma_pulses_total(DASH, 3);
    lemma_sleep_total_concat(a, b);
    lemma_sleep_total_concat(a + b, a);
    lemma_sleep_total_concat(a + b + a, w);
    assert(sleep_total(w) == 7) by {
        assert(w.drop_last() =~= Seq::<SysCall>::empty());
        assert(sleep_total(Seq::<SysCall>::empty()) == 0);
        assert(w.last() == SysCall::SleepMs { ms: WORD });
    }
    reveal_with_fuel(pulses, 4);
    assert(a =~= pulse(DOT) + pulse(DOT) + pulse(DOT));
    assert(b =~= pulse(DASH) + pulse(DASH) + pulse(DASH));
    assert(sos_pattern() =~= pulse(DOT) + pulse(DOT) + pulse(DOT) + pulse(DASH) + pulse(DASH) + pulse(
        DASH,
    ) + pulse(DOT) + pulse(DOT) + pulse(DOT) + w);
}

/// The heartbeat changes the LEDs at most once per period: after a tick
/// that changed them, a tick less than a period later only sleeps.
pub proof fn lemma_heartbeat_rate_limited(
    h0: HeartbeatApp,
    h1: HeartbeatApp,
    h2: HeartbeatApp,
    t1: u64,
    t2: u64,
    c1: Seq<SysCall>,
    c2: Seq<SysCall>,
)
    requires
        heartbeat_tick(h0, h1, t1, c1),
        heartbeat_tick(h1, h2, t2, c2),
        c1.len() == 3,
        elapsed(t2, t1) < h0.period_ms(),
    ensures
        c2 == seq![SysCall::SleepMs { ms: 1 }],
        h2.on() == h1.on(),
{
}

/// The SOS pattern on LED 2, once per tick.
pub struct LedSosApp {}

impl LedSosApp {
    /// The SOS application.
    pub fn new() -> (a: Self) {
        Self {  }
    }

    /// Appends one pulse of `dur` milliseconds to `calls`.
    fn pulse(calls: &mut Vec<SysCall>, dur: u32)
        ensures
            final(calls)@ == old(calls)@ + pulse(dur),
    {
        calls.push(SysCall::GpioWrite { pin: GpioPin::Led2, high: true });
        calls.push(SysCall::SleepMs { ms: dur });
        calls.push(SysCall::GpioWrite { pin: GpioPin::Led2, high: false });
        calls.push(SysCall::SleepMs { ms: GAP });
    }

    /// Appends `count` pulses of `dur` milliseconds to `calls`.
    fn pulses(calls: &mut Vec<SysCall>, dur: u32, count: usize)
        ensures
            final(calls)@ == old(calls)@ + pulses(dur, count as nat),
    {
        let mut i: usize = 0;
        while i < count
            invariant
                i <= count,
                calls@ == old(calls)@ + pulses(dur, i as nat),
            decreases count - i,
        {
            Self::pulse(calls, dur);
            assert(pulses(dur, (i + 1) as nat) == pulses(dur, i as nat) + pulse(dur));
            assert(calls@ =~= old(calls)@ + pulses(dur, (i + 1) as nat));
            i = i + 1;
        }
    }

}

impl App for LedSosApp {
    open spec fn app_name(&self) -> Seq<char> {
        "led_sos"@
    }

    fn name(&self) -> (n: &'static str) {
        "led_sos"
    }

    /// No start-up work: no system call, nothing changes.
    open spec fn inits_to(&self, after: Self, calls: Seq<SysCall>) -> bool {
        after == *self && calls.len() == 0
    }

    fn init(&mut self) -> (calls: Vec<SysCall>) {
        Vec::new()
    }

    /// One SOS pattern.
    open spec fn ticks_to(&self, now_ms: u64, after: Self, calls: Seq<SysCall>) -> bool {
        after == *self && calls == sos_pattern()
    }

    fn tick(&mut self, now: u64) -> (calls: Vec<SysCall>)
    {
        let mut calls: Vec<SysCall> = Vec::new();
        Self::pulses(&mut calls, DOT, 3);
        Self::pulses(&mut calls, DASH, 3);
        Self::pulses(&mut calls, DOT, 3);
        calls.push(SysCall::SleepMs { ms: WORD });
        assert(calls@ =~= sos_pattern());
        calls
    }
}

/// Either of the two applications, so that both can run under one system.
pub enum AnyApp {
    Heartbeat(HeartbeatApp),
    Sos(LedSosApp),
}

impl App for AnyApp {
    open spec fn app_name(&self) -> Seq<char> {
        match self {
            AnyApp::Heartbeat(a) => a.app_name(),
            AnyApp::Sos(a) => a.app_name(),
        }
    }

    fn name(&self) -> (n: &'static str) {
        match self {
            AnyApp::Heartbeat(a) => a.name(),
            AnyApp::Sos(a) => a.name(),
        }
    }

    open spec fn inits_to(&self, after: Self, calls: Seq<SysCall>) -> bool {
        match (*self, after) {
            (AnyApp::Heartbeat(h), AnyApp::Heartbeat(h2)) => h.inits_to(h2, calls),
            (AnyApp::Sos(a), AnyApp::Sos(a2)) => a.inits_to(a2, calls),
            _ => false,
        }
    }

    /// The wrapped application's start-up work.
    fn init(&mut self) -> (calls: Vec<SysCall>) {
        match self {
            AnyApp::Heartbeat(a) => a.init(),
            AnyApp::Sos(a) => a.init(),
        }
    }

    open spec fn ticks_to(&self, now_ms: u64, after: Self, calls: Seq<SysCall>) -> bool {
        match (*self, after) {
            (AnyApp::Heartbeat(h), AnyApp::Heartbeat(h2)) => h.ticks_to(now_ms, h2, calls),
            (AnyApp::Sos(a), AnyApp::Sos(a2)) => a.ticks_to(now_ms, a2, calls),
            _ => false,
        }
    }

    /// The wrapped application's tick.
    fn tick(&mut self, now: u64) -> (calls: Vec<SysCall>)
    {
        match self {
            AnyApp::Heartbeat(a) => a.tick(now),
            AnyApp::Sos(a) => a.tick(now),
        }
    }
}

} // verus!
