//! Decision logic for a command-line launcher that hands a file, URL or
//! executable to the Windows shell's default "open" mechanism.
//!
//! The library holds everything that can be stated and proved: joining
//! parameters into the native command-line quoting convention, detecting
//! embedded NUL bytes, choosing what to do with a given argument list,
//! cleaning a compatibility shell's environment variables, and translating
//! the shell's integer status code into an error. The process-level work
//! (reading the real arguments and environment, making the one OS call,
//! printing and exiting) lives outside, in a thin unverified shell.

pub mod environment;
pub mod launcher;
pub mod quoting;
pub mod status;
