//! The devices behind the input and output ports.

use vstd::prelude::*;

verus! {

/// The port devices of a machine built around the processor. The processor
/// hands a port number to them and a byte passes one way or the other;
/// nothing else is shared between the two.
///
/// The devices are supplied by the user of the library, so their methods
/// carry no contract: the processor makes do with whatever byte an input
/// delivers.
pub trait Machine {
    /// The byte that the device behind `port` delivers.
    fn input(&mut self, port: u8) -> u8;

    /// Hands `value` to the device behind `port`.
    fn output(&mut self, port: u8, value: u8);
}

} // verus!
