//! Capability detection for x86 and AArch64, and the cache behind it.

pub mod aarch64;
pub mod detect;
pub mod x86;
