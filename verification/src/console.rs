use vstd::prelude::*;

verus! {

/// Text that the machine sends to the host console, in the order it is produced.
#[derive(Debug, Clone, Copy, PartialEq, Eq, Structural)]
pub enum ConsoleEvent {
    /// A byte sent over the serial link (written to 0xFF02 with 0x81); the host prints it as a
    /// character.
    Serial(u8),
    /// The CPU executed HALT; the host prints the line "Halted".
    Halted,
}

} // verus!
