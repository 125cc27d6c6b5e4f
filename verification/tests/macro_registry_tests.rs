use mini_os::app_macro::{app, entry_fn_name, metadata_name, parse, ArgError, ArgToken};
use mini_os::registry::{get_registered_apps, initialize_app_registry, REGISTERED_APPS};
use mini_os::systick::{enable_systick_interrupt, init_systick_1s, pend_sv};

fn ident(s: &str) -> ArgToken {
    ArgToken::Ident(s.to_string())
}
fn int_lit(s: &str) -> ArgToken {
    ArgToken::IntLit(s.to_string())
}
fn lit(s: &str) -> ArgToken {
    ArgToken::StrLit(s.to_string())
}
fn p(c: char) -> ArgToken {
    ArgToken::Punct(c)
}

#[test]
fn full_arguments() {
    let toks = vec![
        ident("id"), p('='), int_lit("2"), p(','),
        ident("stack_size"), p('='), int_lit("384"), p(','),
        ident("name"), p('='), lit("\"counter\""),
    ];
    let a = parse(&toks).ok().unwrap();
    assert_eq!(a.id.as_deref(), Some("2"));
    assert_eq!(a.stack_size.as_deref(), Some("384"));
    assert_eq!(a.name.as_deref(), Some("\"counter\""));
    let x = app(&toks, "pub", "counter", "{ loop {} }").ok().unwrap();
    assert_eq!(x.entry_fn.name, "counter_entry");
    assert_eq!(x.entry_fn.export_name, "counter_entry");
    assert_eq!(x.entry_fn.body, "{ loop {} }");
    assert_eq!(x.metadata.name, "COUNTER_METADATA");
    assert_eq!(x.metadata.link_section, ".apps");
    assert!(x.metadata.used);
    assert_eq!(
        (x.metadata.id.as_str(), x.metadata.stack_size.as_str(), x.metadata.app_name.as_str()),
        ("2", "384", "\"counter\"")
    );
    assert_eq!((x.metadata.entry, x.metadata.stack_ptr), (0, 0));
    assert_eq!(x.metadata.entry_fn.as_deref(), Some("counter_entry"));
    assert!(x.metadata.stack_ptr_fn.is_none());
    assert_eq!((x.wrapper.vis.as_str(), x.wrapper.name.as_str(), x.wrapper.calls.as_str()), ("pub", "counter", "counter_entry"));
}

#[test]
fn defaults_and_missing_id() {
    let x = app(&vec![ident("id"), p('='), int_lit("10")], "", "data_logger", "{}").ok().unwrap();
    assert_eq!(x.metadata.stack_size, "512");
    assert_eq!(x.metadata.app_name, "\"data_logger\"");
    assert_eq!(x.metadata.name, "DATA_LOGGER_METADATA");
    assert_eq!(x.wrapper.vis, "");
    assert!(parse(&vec![]).ok().unwrap().id.is_none());
    assert!(parse(&vec![ident("name"), p('='), lit("\"x\"")]).ok().unwrap().id.is_none());
    assert_eq!(entry_fn_name("blink"), "blink_entry");
    assert_eq!(metadata_name("BLINK"), "BLINK_METADATA");
}

#[test]
fn negative_integer_literals() {
    let a = parse(&vec![ident("id"), p('='), p('-'), int_lit("1"), p(','), ident("stack_size"), p('='), int_lit("8")])
        .ok()
        .unwrap();
    assert_eq!(a.id.as_deref(), Some("-1"));
    assert_eq!(a.stack_size.as_deref(), Some("8"));
    assert_eq!(parse(&vec![ident("id"), p('='), p('-'), lit("\"1\"")]).err(), Some(ArgError::ExpectedInt { pos: 2 }));
}

#[test]
fn commas_are_optional_and_later_values_win() {
    let toks = vec![ident("id"), p('='), int_lit("1"), ident("id"), p('='), int_lit("4"), p(',')];
    assert_eq!(parse(&toks).ok().unwrap().id.as_deref(), Some("4"));
}

#[test]
fn argument_errors() {
    assert_eq!(parse(&vec![ident("prio"), p('='), int_lit("1")]).err(), Some(ArgError::UnknownParameter { pos: 0 }));
    assert_eq!(parse(&vec![ident("id"), int_lit("1")]).err(), Some(ArgError::ExpectedEq { pos: 1 }));
    assert_eq!(parse(&vec![ident("id"), p('=')]).err(), Some(ArgError::ExpectedInt { pos: 2 }));
    assert_eq!(parse(&vec![ident("name"), p('='), int_lit("3")]).err(), Some(ArgError::ExpectedStr { pos: 2 }));
    assert_eq!(parse(&vec![p(','), ident("id")]).err(), Some(ArgError::ExpectedIdent { pos: 0 }));
    assert_eq!(
        app(&vec![ident("id"), p('='), lit("\"1\"")], "", "f", "{}").err(),
        Some(ArgError::ExpectedInt { pos: 2 })
    );
}

#[test]
fn registry_table_and_once_flag() {
    let entries: Vec<Option<usize>> = (0..REGISTERED_APPS).map(|i| Some(0x0800_0000 + i * 0x100)).collect();
    let apps = get_registered_apps(&entries);
    assert_eq!(apps.len(), 11);
    assert_eq!((apps[0].id, apps[0].name, apps[0].stack_size), (0, "led_blinker", 256));
    assert_eq!((apps[4].id, apps[4].name, apps[4].stack_size), (4, "gpio_monitor", 288));
    assert_eq!((apps[10].id, apps[10].name, apps[10].stack_size), (10, "data_logger", 384));
    assert_eq!(apps[3].entry_fn, Some(0x0800_0300));
    assert_eq!(apps[3].entry, 0);
    let mut once = false;
    assert!(initialize_app_registry(&mut once));
    assert!(!initialize_app_registry(&mut once));
    assert!(once);
}

#[test]
fn registry_agrees_with_each_declaration() {
    let entries: Vec<Option<usize>> = vec![None; REGISTERED_APPS];
    let apps = get_registered_apps(&entries);
    let declared = [
        (0u32, "led_blinker", 256u32),
        (1, "fibonacci", 512),
        (2, "counter", 384),
        (4, "gpio_monitor", 288),
        (5, "math_calculator", 416),
        (6, "network_stack", 512),
        (7, "sensor_reader", 384),
        (8, "watchdog", 256),
        (10, "data_logger", 384),
    ];
    for (id, name, stack_size) in declared {
        let a = &apps[id as usize];
        assert_eq!((a.id, a.name, a.stack_size), (id, name, stack_size));
    }
}

#[test]
fn systick_configuration() {
    let (rvr, cvr, csr) = init_systick_1s();
    assert_eq!((rvr.addr, rvr.value), (0xE000_E014, 15_999_999));
    assert_eq!((cvr.addr, cvr.value), (0xE000_E018, 0));
    assert_eq!((csr.addr, csr.value), (0xE000_E010, 0b101));
    let e = enable_systick_interrupt();
    assert_eq!((e.addr, e.value), (0xE000_E010, 0b111));
    assert_eq!((pend_sv().addr, pend_sv().value), (0xE000_ED04, 1 << 28));
}
