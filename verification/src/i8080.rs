//! The Intel 8080: its state, its primitives and its instruction dispatcher.

pub mod cpu;
pub mod flags;
pub mod instructions;
pub mod laws;
pub mod machine;
pub mod memory;
pub mod model;
pub mod program;
pub mod registers;
pub mod stack;
pub mod state;

pub use self::flags::Flags8080;
pub use self::machine::Machine;
pub use self::memory::Memory8080;
pub use self::model::Snapshot;
pub use self::program::Program8080;
pub use self::registers::{Name16, Name8, Registers8080};
pub use self::stack::Stack8080;
pub use self::state::State8080;
