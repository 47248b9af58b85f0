//! The boot path of a small teaching kernel: zero the uninitialised-data
//! segment, announce the kernel on the console, report the memory layout at
//! each log level, and ask the platform to power off.
//!
//! Everything here is computed on plain values. The caller owns the machine:
//! it hands in the RAM to be cleared and the addresses the linker fixed, and
//! carries out the console and platform actions that come back.

pub mod boot;
pub mod console;
pub mod hex;
pub mod layout;
pub mod memory;

pub use boot::rust_main;
pub use memory::clear_bss;
