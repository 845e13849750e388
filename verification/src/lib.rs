//! A model-level boot path for a minimal type-1 hypervisor on 64-bit ARMv8-A.
//!
//! The crate builds the stage-1 and stage-2 translation tables, computes the
//! values of the translation control, memory attribute and system control
//! registers, and orders the register writes, barriers and TLB maintenance
//! that bring the processor from reset at EL2 to a running guest at EL1.
//! Every privileged operation is issued against a [`aarch64::Cpu`], which
//! keeps the register file and the program-order trace of what was issued.
pub mod aarch64;
pub mod boot;
pub mod common;
pub mod esr;
pub mod frame_alloc;
pub mod irq;
pub mod lpae;
pub mod memory_attrs;
pub mod start;
pub mod uart;
pub mod vm;
pub mod walk;
