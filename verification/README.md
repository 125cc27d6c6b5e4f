# mini_os

A small operating system for an STM32F446 board (Nucleo-F446RE: LED on PA5,
user button on PC13), in two flavours:

* a pre-emptive kernel: every registered application gets a task with its
  own process stack; SysTick pends PendSV, which switches round-robin;
  applications reach the board through supervisor calls;
* a button-switched framework: two applications (heartbeat blink, SOS)
  and a run loop that ticks the heartbeat while the button is released and
  SOS while it is pressed;

plus a minimal cooperative kernel with three task slots.

## Layout

`src/` is the library, verified with Verus. It holds every decision the
system takes, each with a contract:

| module | contents |
| --- | --- |
| `regs` | RCC/GPIO register arithmetic: configuring a pin, BSRR writes, toggling, reading |
| `board`, `capsules` | pin wiring, the kernel clock, the board's system calls (returning the register work to do) |
| `svc` | supervisor-call encoding (client) and decoding/dispatch (kernel), call statistics |
| `sched` | task control blocks, initial stack frames, task set-up, round-robin switching |
| `systick` | SysTick and PendSV register values |
| `registry` | the table of registered applications |
| `apps` | one loop pass of each registered application |
| `app_syscalls` | the system calls applications make |
| `app_macro` | the `#[app(...)]` attribute's argument grammar and generated names |
| `button_os` | the button-switched framework: applications, run plans, its board |
| `os` | the cooperative kernel, its tasks and drivers |

`app/` is the firmware around the library: volatile register access, the
SVC instruction and SVCall entry, the PendSV context-switch assembly, the
exception handlers, the statics and the endless loops. It performs the
register work, calls and schedules the library computes; board bring-up,
task choice and system-call handling are all decided in `src/`. The
`timer` and `power_manager` applications are registered but their code is
not part of the project, so their tasks only yield. The `#[app(...)]`
attribute itself (a procedural macro) is not built here: its argument
grammar and the items it generates are `src/app_macro.rs`. `app/main.rs` is the pre-emptive
kernel; `app/button_main.rs` and `app/coop.rs` hold the other two programs.

`tests/` runs the library on concrete values.
