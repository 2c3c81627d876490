//! Instruction-execution core of a cycle-stepped emulator for a classic
//! 8-bit CPU wired to a memory-mapped peripheral bus.
//!
//! The crate is organized around four components: the opcode decoder
//! (`cpu::instruction`), the addressing-mode resolver and execution engine
//! (`cpu`), the address bus with its pluggable devices (`bus`), and a video
//! peripheral stub (`ppu`).
//!
//! Explicit design decisions:
//! - an opcode with no defined mapping is a fatal decode failure, reported
//!   as an explicit error rather than emulated;
//! - interrupts follow standard vector-table semantics with reset preempting
//!   both interrupt classes, the non-maskable class preempting the maskable
//!   one, and the maskable class suppressed while interrupt-disable is set;
//! - binary-coded-decimal correction during decimal-mode arithmetic is a
//!   configuration flag of the core, since honouring it is
//!   hardware-variant-dependent.

pub mod bus;
pub mod cpu;
pub mod ppu;
