//! An instruction-level emulator core for the Intel 8080 and a closely
//! related handheld-console processor.
//!
//! The processor state (registers, flags, memory, stack and program counter)
//! is built from small capability traits; each architecture supplies a
//! dispatcher that decodes one opcode and applies the matching primitive of
//! the state. Every operation is specified over a mathematical model of the
//! state and proved to follow it.
//!
//! - [`bytes`]: words and their halves.
//! - [`capability`]: the traits that a processor state is made of.
//! - [`i8080`]: the state, the primitives and the dispatcher of the 8080,
//!   the model that specifies them, and the laws proved of the model.
//! - [`gbz80`]: the dispatcher of the handheld-console processor.
//!
//! Nothing in the library panics. Where an operation has no meaning (an
//! opcode that a dispatcher does not execute, an instruction shorter than
//! its opcode calls for), its precondition says so, and the caller decides
//! what to do about it.

pub mod bytes;

pub mod capability;
pub mod gbz80;
pub mod i8080;
