//! Core of a minimal x86 protected-mode kernel: privilege-level
//! segmentation (GDT and TSS descriptors), the interrupt descriptor table
//! with its per-vector entry trampolines and shared dispatcher, the typed
//! handler table, the syscall-driven cooperative yield, and the VGA text
//! writer used for diagnostics.
//!
//! Hardware register loads (`lgdt`, `lidt`, `ltr`, port output, `sti`/`hlt`)
//! cannot run under verification; the tables, descriptors and transition
//! rules built here are handed to a thin unverified shell that performs
//! those loads.

pub mod descriptor;
pub mod dispatch;
pub mod gdt;
pub mod handler;
pub mod idt;
pub mod task;
pub mod vga_buffer;
