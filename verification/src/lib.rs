//! A small cooperative/pre-emptive operating system for an STM32F4 board,
//! written so that every decision it takes is a function with a contract.
//! The hardware side (volatile register access, supervisor calls, context
//! switch assembly) lives outside this crate and only performs the register
//! accesses and jumps that the functions here compute.
pub mod regs;
pub mod registry;
pub mod sched;
pub mod board;
pub mod capsules;
pub mod svc;
pub mod os;
pub mod button_os;
pub mod app_syscalls;
pub mod apps;
pub mod text;
pub mod app_macro;
pub mod systick;
