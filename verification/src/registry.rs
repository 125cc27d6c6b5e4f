//! The table of statically registered applications.
use vstd::prelude::*;

verus! {

/// Metadata for a statically registered application.
///
/// Entry points are kept as code addresses: `entry_fn` is the address of the
/// application's entry function, `entry` the resolved address (0 until it
/// has been resolved).
#[derive(Clone, Copy, Debug)]
pub struct AppMetadata {
    pub id: u32,
    pub name: &'static str,
    pub entry: usize,
    pub entry_fn: Option<usize>,
    pub stack_ptr: usize,
    pub stack_size: u32,
    pub stack_ptr_fn: Option<usize>,
}

/// Marks the application registry as initialised. `once` is the registry's
/// one-time flag: the result is `true` for the call that initialised the
/// registry and `false` for every later call, which finds it already done.
pub fn initialize_app_registry(once: &mut bool) -> (first: bool)
    ensures
        first == !*old(once),
        *final(once),
{
    if *once {
        return false;
    }
    *once = true;
    true
}

/// Number of registered applications.
pub const REGISTERED_APPS: usize = 11;

/// Name and stack size (in bytes) of registered application `id`.
pub open spec fn app_table(id: int) -> (&'static str, u32) {
    if id == 0 {
        ("led_blinker", 256)
    } else if id == 1 {
        ("fibonacci", 512)
    } else if id == 2 {
        ("counter", 384)
    } else if id == 3 {
        ("timer", 320)
    } else if id == 4 {
        ("gpio_monitor", 288)
    } else if id == 5 {
        ("math_calculator", 416)
    } else if id == 6 {
        ("network_stack", 512)
    } else if id == 7 {
        ("sensor_reader", 384)
    } else if id == 8 {
        ("watchdog", 256)
    } else if id == 9 {
        ("power_manager", 320)
    } else {
        ("data_logger", 384)
    }
}

/// The metadata of registered application `id` with the given entry
/// function: not yet resolved, no stack assigned.
pub open spec fn registered_app(id: int, entry_fn: Option<usize>) -> AppMetadata {
    AppMetadata {
        id: id as u32,
        name: app_table(id).0,
        entry: 0,
        entry_fn,
        stack_ptr: 0,
        stack_size: app_table(id).1,
        stack_ptr_fn: None,
    }
}

/// The applications' own declarations, as each application's source gives
/// them with `#[app(id = .., stack_size = .., name = ..)]` or
/// `register_app!(entry, id, name, stack_size)`: identifier, name and stack
/// size in bytes.
pub open spec fn app_declarations() -> Seq<(u32, &'static str, u32)> {
    seq![
        (0u32, "led_blinker", 256u32),
        (1u32, "fibonacci", 512u32),
        (2u32, "counter", 384u32),
        (4u32, "gpio_monitor", 288u32),
        (5u32, "math_calculator", 416u32),
        (6u32, "network_stack", 512u32),
        (7u32, "sensor_reader", 384u32),
        (8u32, "watchdog", 256u32),
        (10u32, "data_logger", 384u32),
    ]
}

/// The applications registered without code of their own (their tasks
/// only yield): identifier, name and stack size in bytes.
pub open spec fn placeholder_apps() -> Seq<(u32, &'static str, u32)> {
    seq![(3u32, "timer", 320u32), (9u32, "power_manager", 320u32)]
}

/// Every registered application has a name of its own: the names of the
/// registry's rows are pairwise distinct, whatever the entry functions.
pub proof fn lemma_registered_names_distinct(f: Option<usize>, g: Option<usize>)
    ensures
        forall|i: int, j: int|
            0 <= i < REGISTERED_APPS && 0 <= j < REGISTERED_APPS && i != j ==> (#[trigger] registered_app(i, f)).name@
                != (#[trigger] registered_app(j, g)).name@,
{
    reveal_strlit("led_blinker");
    reveal_strlit("fibonacci");
    reveal_strlit("counter");
    reveal_strlit("timer");
    reveal_strlit("gpio_monitor");
    reveal_strlit("math_calculator");
    reveal_strlit("network_stack");
    reveal_strlit("sensor_reader");
    reveal_strlit("watchdog");
    reveal_strlit("power_manager");
    reveal_strlit("data_logger");
    assert forall|i: int, j: int|
        0 <= i < REGISTERED_APPS && 0 <= j < REGISTERED_APPS && i != j implies (#[trigger] registered_app(i, f)).name@
            != (#[trigger] registered_app(j, g)).name@ by {
        let a = registered_app(i, f).name@;
        let b = registered_app(j, g).name@;
        if a.len() == b.len() {
            assert(a[0] != b[0] || a[1] != b[1]);
        }
    }
}

/// The registry agrees with every declaration: the application registered
/// under a declared identifier carries that identifier, the declared name
/// and the declared stack size, whatever its entry function.
pub proof fn lemma_registry_matches_declarations(entry_fn: Option<usize>)
    ensures
        forall|k: int|
            0 <= k < app_declarations().len() ==> {
                let d = #[trigger] app_declarations()[k];
                &&& d.0 < REGISTERED_APPS
                &&& registered_app(d.0 as int, entry_fn).id == d.0
                &&& registered_app(d.0 as int, entry_fn).name == d.1
                &&& registered_app(d.0 as int, entry_fn).stack_size == d.2
            },
        forall|k: int|
            0 <= k < placeholder_apps().len() ==> {
                let d = #[trigger] placeholder_apps()[k];
                &&& d.0 < REGISTERED_APPS
                &&& registered_app(d.0 as int, entry_fn).id == d.0
                &&& registered_app(d.0 as int, entry_fn).name == d.1
                &&& registered_app(d.0 as int, entry_fn).stack_size == d.2
            },
{
}

/// One registered application's metadata.
fn table_entry(id: u32, entry_fn: Option<usize>) -> (m: AppMetadata)
    requires
        id < REGISTERED_APPS,
    ensures
        m == registered_app(id as int, entry_fn),
{
    let (name, stack_size): (&'static str, u32) = if id == 0 {
        ("led_blinker", 256)
    } else if id == 1 {
        ("fibonacci", 512)
    } else if id == 2 {
        ("counter", 384)
    } else if id == 3 {
        ("timer", 320)
    } else if id == 4 {
        ("gpio_monitor", 288)
    } else if id == 5 {
        ("math_calculator", 416)
    } else if id == 6 {
        ("network_stack", 512)
    } else if id == 7 {
        ("sensor_reader", 384)
    } else if id == 8 {
        ("watchdog", 256)
    } else if id == 9 {
        ("power_manager", 320)
    } else {
        ("data_logger", 384)
    };
    AppMetadata { id, name, entry: 0, entry_fn, stack_ptr: 0, stack_size, stack_ptr_fn: None }
}

/// The registered applications, application `i` with identifier `i` and
/// entry function `entry_fns[i]` (the addresses of the entry functions are
/// known only once the program is linked).
pub fn get_registered_apps(entry_fns: &Vec<Option<usize>>) -> (apps: Vec<AppMetadata>)
    requires
        entry_fns@.len() == REGISTERED_APPS,
    ensures
        apps@.len() == REGISTERED_APPS,
        forall|i: int| 0 <= i < REGISTERED_APPS ==> #[trigger] apps@[i] == registered_app(i, entry_fns@[i]),
        forall|k: int|
            0 <= k < app_declarations().len() ==> {
                let d = #[trigger] app_declarations()[k];
                &&& apps@[d.0 as int].id == d.0
                &&& apps@[d.0 as int].name == d.1
                &&& apps@[d.0 as int].stack_size == d.2
            },
        forall|k: int|
            0 <= k < placeholder_apps().len() ==> {
                let d = #[trigger] placeholder_apps()[k];
                &&& apps@[d.0 as int].id == d.0
                &&& apps@[d.0 as int].name == d.1
                &&& apps@[d.0 as int].stack_size == d.2
            },
        forall|i: int, j: int|
            0 <= i < REGISTERED_APPS && 0 <= j < REGISTERED_APPS && i != j ==> (#[trigger] apps@[i]).name@
                != (#[trigger] apps@[j]).name@,
{
    let mut apps: Vec<AppMetadata> = Vec::new();
    let mut i: usize = 0;
    while i < REGISTERED_APPS
        invariant
            i <= REGISTERED_APPS,
            entry_fns@.len() == REGISTERED_APPS,
            apps@.len() == i,
            forall|j: int| 0 <= j < i ==> #[trigger] apps@[j] == registered_app(j, entry_fns@[j]),
        decreases REGISTERED_APPS - i,
    {
        apps.push(table_entry(i as u32, entry_fns[i]));
        i = i + 1;
    }
    proof {
        assert forall|k: int| 0 <= k < app_declarations().len() implies {
            let d = #[trigger] app_declarations()[k];
            &&& apps@[d.0 as int].id == d.0
            &&& apps@[d.0 as int].name == d.1
            &&& apps@[d.0 as int].stack_size == d.2
        } by {
            let d = app_declarations()[k];
            lemma_registry_matches_declarations(entry_fns@[d.0 as int]);
            assert(apps@[d.0 as int] == registered_app(d.0 as int, entry_fns@[d.0 as int]));
        }
        assert forall|k: int| 0 <= k < placeholder_apps().len() implies {
            let d = #[trigger] placeholder_apps()[k];
            &&& apps@[d.0 as int].id == d.0
            &&& apps@[d.0 as int].name == d.1
            &&& apps@[d.0 as int].stack_size == d.2
        } by {
            let d = placeholder_apps()[k];
            lemma_registry_matches_declarations(entry_fns@[d.0 as int]);
            assert(apps@[d.0 as int] == registered_app(d.0 as int, entry_fns@[d.0 as int]));
        }
        assert forall|i: int, j: int|
            0 <= i < REGISTERED_APPS && 0 <= j < REGISTERED_APPS && i != j implies (#[trigger] apps@[i]).name@
                != (#[trigger] apps@[j]).name@ by {
            lemma_registered_names_distinct(entry_fns@[i], entry_fns@[j]);
            assert(apps@[i] == registered_app(i, entry_fns@[i]));
            assert(apps@[j] == registered_app(j, entry_fns@[j]));
        }
    }
    apps
}

} // verus!
