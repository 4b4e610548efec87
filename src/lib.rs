//! Hardware abstraction for x86 user interrupts: bit-exact models of the
//! control registers and in-memory records, the per-task state snapshot with
//! its save/restore transfers, and the handler dispatch types.
pub mod cpu;
pub mod field;
pub mod handler;
pub mod instructions;
pub mod msr;
pub mod state;
pub mod uitte;
pub mod upid;
