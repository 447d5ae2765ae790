//! User-space side of the kernel-call interface: the registry of kernel-call
//! numbers, the trampolines that load a call into the trap registers and read
//! the result back, and the process-management constants passed through them.

pub mod kcall;
pub mod pm;
