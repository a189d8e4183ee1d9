//! The handheld-console processor: the state and the primitives of the
//! 8080 behind a dispatcher of its own.

pub mod cpu;
