//! A minimal x86_64 interrupt-descriptor-table subsystem for a bare-metal
//! kernel: the bit-exact entry records the processor reads, the table of one
//! entry per vector, the segment and task-state structures that give the
//! double-fault handler its own hardware stack, and the boot-time sequencing
//! that wires the three together.
//!
//! Everything here is plain data construction, verified down to the bit
//! layout the hardware mandates. The privileged instructions that hand these
//! structures to the processor (`lidt`, `lgdt`, `ltr`, interrupt enable) are
//! not expressible in safe code and live with the surrounding kernel glue,
//! which loads the values built here without changing them.

pub mod gdt;
pub mod interrupts;
