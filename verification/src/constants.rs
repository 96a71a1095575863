use vstd::prelude::*;

verus! {

/// Divider register (DIV), incremented from the CPU timer.
pub const DIV_REGISTER: usize = 0xFF04;

/// Interrupt flag register (IF).
pub const INTERRUPT_FLAG: u16 = 0xFF0F;

/// VRAM bank select register (VBK).
pub const VBK_ADDR: u16 = 0xFF4F;

/// WRAM bank select register (SVBK).
pub const WRAM_BANK_SELECT: usize = 0xFF70;

/// Size of the cartridge ROM image the machine can hold (512 KiB).
pub const ROM_SIZE: usize = 0x80000;

/// Size of the cartridge RAM (32 KiB).
pub const EXT_RAM_SIZE: usize = 0x8000;

/// Size of the work RAM, all banks together (32 KiB).
pub const WRAM_SIZE: usize = 0x8000;

/// Size of the video RAM, both banks together (16 KiB).
pub const VRAM_SIZE: usize = 0x4000;

/// Size of the high RAM.
pub const HRAM_SIZE: usize = 128;

/// Size of the object attribute memory.
pub const OAM_SIZE: usize = 160;

/// Size of the I/O register block.
pub const IO_SIZE: usize = 128;

/// Flag masks inside the AF register pair.
pub const FLAG_Z: u16 = 0x0080;
pub const FLAG_N: u16 = 0x0040;
pub const FLAG_H: u16 = 0x0020;
pub const FLAG_C: u16 = 0x0010;

} // verus!
