//! Privilege-boundary core of a small LoongArch64 kernel: trap-frame and
//! context state, trap classification, IRQ routing, timer arithmetic, boot
//! page-table construction, and the ELF loader with its ABI stack builder.
//!
//! Hardware access (control/status registers, TLB instructions, the actual
//! privilege-level transfer) is not part of this crate; callers perform it
//! with the values and decisions these functions compute.

pub mod auxv;
pub mod boot;
pub mod context;
pub mod elf;
pub mod handler_table;
pub mod irq;
pub mod time;
pub mod trap;
pub mod user_stack;
