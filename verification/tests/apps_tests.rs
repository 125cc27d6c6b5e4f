use mini_os::apps::{
    counter, data_logger, data_logger_spawned, dynamic_worker_task, fibonacci, gpio_monitor_entry,
    led_blinker, math_calculator_entry, network_stack_entry, saturating_mul, sensor_reader_entry,
    watchdog_entry, DataLogger, DataLoggerStep, GpioMonitor, MathCalculator, NetworkStack,
};

#[test]
fn progress_counters_report_periodically() {
    let mut c = 98;
    assert!(!counter(&mut c));
    assert!(counter(&mut c));
    assert_eq!(c, 100);
    let mut f = 199;
    assert!(fibonacci(&mut f));
    let mut l = u32::MAX;
    assert!(led_blinker(&mut l));
    assert_eq!(l, 0);
    let mut w = 0;
    assert!(!dynamic_worker_task(&mut w));
    let mut s = 9;
    assert!(sensor_reader_entry(&mut s));
    let mut d = 19;
    assert!(watchdog_entry(&mut d));
}

#[test]
fn network_stack_counts_packets_and_bytes() {
    let mut n = NetworkStack { packets: 999, bytes: 10 };
    assert!(network_stack_entry(&mut n));
    assert_eq!((n.packets, n.bytes), (1000, 74));
    let mut n = NetworkStack { packets: 0, bytes: u32::MAX - 10 };
    assert!(!network_stack_entry(&mut n));
    assert_eq!(n.bytes, 53);
}

#[test]
fn gpio_monitor_reports_every_third_change() {
    let mut m = GpioMonitor { count: 999, changes: 2 };
    assert!(gpio_monitor_entry(&mut m));
    assert_eq!((m.count, m.changes), (1000, 3));
    let mut m = GpioMonitor { count: 1999, changes: 3 };
    assert!(!gpio_monitor_entry(&mut m));
    assert_eq!(m.changes, 4);
    let mut m = GpioMonitor { count: 5, changes: 2 };
    assert!(!gpio_monitor_entry(&mut m));
    assert_eq!(m.changes, 2);
}

#[test]
fn factorials_cycle_through_one_to_ten() {
    let mut s = MathCalculator { operations: 799, n: 1, result: 1 };
    assert!(!math_calculator_entry(&mut s));
    assert_eq!((s.n, s.result), (2, 2));
    let mut s = MathCalculator { operations: 1599, n: 9, result: 0 };
    assert!(!math_calculator_entry(&mut s));
    assert_eq!((s.n, s.result), (10, 3_628_800));
    let mut s = MathCalculator { operations: 799, n: 10, result: 0 };
    math_calculator_entry(&mut s);
    assert_eq!((s.n, s.result), (1, 1));
    let mut s = MathCalculator { operations: 799, n: 2, result: 0 };
    assert!(math_calculator_entry(&mut s));
    assert_eq!(s.result, 6);
    let mut s = MathCalculator { operations: 5, n: 2, result: 9 };
    assert!(!math_calculator_entry(&mut s));
    assert_eq!((s.n, s.result), (2, 9));
    assert_eq!(saturating_mul(70_000, 70_000), u32::MAX);
    assert_eq!(saturating_mul(7, 6), 42);
}

#[test]
fn data_logger_spawns_once_on_the_fiftieth_pass() {
    let mut d = DataLogger { log_count: 49, spawned: false };
    assert_eq!(data_logger(&mut d), DataLoggerStep { logging: true, saved: false, spawn: true });
    data_logger_spawned(&mut d, false);
    assert!(!d.spawned);
    data_logger_spawned(&mut d, true);
    assert!(d.spawned);
    let mut d = DataLogger { log_count: 49, spawned: true };
    assert!(!data_logger(&mut d).spawn);
    let mut d = DataLogger { log_count: 99, spawned: true };
    assert_eq!(data_logger(&mut d), DataLoggerStep { logging: true, saved: true, spawn: false });
}

#[test]
fn factorial_sequence_from_reset() {
    let mut s = MathCalculator { operations: 0, n: 1, result: 1 };
    let mut results = Vec::new();
    for _ in 0..(800 * 11) {
        math_calculator_entry(&mut s);
        if s.operations % 800 == 0 {
            results.push(s.result);
        }
    }
    assert_eq!(
        results,
        vec![2, 6, 24, 120, 720, 5040, 40320, 362880, 3628800, 1, 2]
    );
}
