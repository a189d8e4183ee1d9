//! Capability interfaces shared by every architecture: what a processor
//! state needs from its flags, registers, memory, stack and program counter.
//!
//! Each trait names the mathematical model of the component (a spec function
//! per observable) and states the effect of every operation over that model,
//! so that code written against a trait can be proved without knowing the
//! architecture behind it.

pub mod address;
pub mod flags;
pub mod memory;
pub mod program;
pub mod registers;
pub mod stack;

pub use self::address::Address;
pub use self::flags::Flags;
pub use self::memory::Memory;
pub use self::program::Program;
pub use self::registers::{Registers16, Registers8};
pub use self::stack::Stack;
