//! A Game Boy emulator core: the machine's memory map, registers and CPU, with their contracts.
use vstd::prelude::*;

pub mod bits;
pub mod console;
pub mod constants;
pub mod cpu;
pub mod gameboy;
pub mod instruction_laws;
pub mod laws;
pub mod machine;
pub mod memory_laws;
pub mod semantics;

verus! {
}
