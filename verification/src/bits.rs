//! Byte, word and flag arithmetic shared by the machine model and the CPU.
use vstd::prelude::*;

verus! {

/// The high byte of a register pair.
pub open spec fn hi_byte(x: u16) -> u8 {
    (x >> 8) as u8
}

/// The low byte of a register pair.
pub open spec fn lo_byte(x: u16) -> u8 {
    x as u8
}

/// A register pair whose high byte is replaced by `v`.
pub open spec fn with_hi_byte(x: u16, v: u8) -> u16 {
    (x & 0x00FF) | ((v as u16) << 8)
}

/// A register pair whose low byte is replaced by `v`.
pub open spec fn with_lo_byte(x: u16, v: u8) -> u16 {
    (x & 0xFF00) | (v as u16)
}

/// `x` with the bits of `mask` set (`on`) or cleared.
pub open spec fn with_bits(x: u16, mask: u16, on: bool) -> u16 {
    if on {
        x | mask
    } else {
        x & !mask
    }
}

/// Whether any bit of `mask` is set in `x`.
pub open spec fn has_bits(x: u16, mask: u16) -> bool {
    (x & mask) > 0
}

/// Addition modulo 2^16.
pub open spec fn add16(x: u16, y: u16) -> u16 {
    if x + y > 0xFFFF {
        (x + y - 0x10000) as u16
    } else {
        (x + y) as u16
    }
}

/// Subtraction modulo 2^16.
pub open spec fn sub16(x: u16, y: u16) -> u16 {
    if x - y < 0 {
        (x - y + 0x10000) as u16
    } else {
        (x - y) as u16
    }
}

/// Addition modulo 2^8.
pub open spec fn add8(x: u8, y: u8) -> u8 {
    if x + y > 0xFF {
        (x + y - 0x100) as u8
    } else {
        (x + y) as u8
    }
}

/// Subtraction modulo 2^8.
pub open spec fn sub8(x: u8, y: u8) -> u8 {
    if x - y < 0 {
        (x - y + 0x100) as u8
    } else {
        (x - y) as u8
    }
}

/// A byte read as a two's complement offset and widened to 16 bits.
pub open spec fn sign_extend(v: u8) -> u16 {
    v as i8 as i16 as u16
}

/// Rotation of a byte one place to the left.
pub open spec fn rotl8(v: u8) -> u8 {
    (v << 1u8) | (v >> 7u8)
}

/// Rotation of a byte one place to the right.
pub open spec fn rotr8(v: u8) -> u8 {
    (v >> 1u8) | (v << 7u8)
}

/// The value a boolean has as a bit.
pub open spec fn bit_of(b: bool) -> u8 {
    if b {
        1
    } else {
        0
    }
}

/// Ranges of masked and shifted bytes.
pub proof fn lemma_byte_ranges()
    by (bit_vector)
    ensures
        forall|x: u8| #[trigger] (x & 0x07) <= 7,
        forall|x: u8| #[trigger] (x & 0x03) <= 3,
        forall|x: u8| #[trigger] (x & 0x1F) <= 0x1F,
        forall|x: u8| #[trigger] (x >> 5u8) <= 7,
        forall|x: u8| #[trigger] (x >> 6u8) <= 3,
        forall|x: u8| #[trigger] ((x >> 3u8) & 0x07) <= 7,
        forall|x: u8| x < 8 ==> #[trigger] (x >> 1u8) < 4,
        forall|x: u8| x < 8 ==> ((#[trigger] (x >> 1u8) == 3) == (x >= 6)),
        forall|x: u8| #[trigger] (x & 1) == x % 2,
        forall|x: u8| #[trigger] (0x0F & x) <= 0x0F,
        forall|x: u8| #[trigger] (x & 0x0F) <= 0x0F,
        forall|x: u8| x < 8 ==> ((#[trigger] (x & 0b100) > 1) == (x >= 4)),
        forall|x: u8| x < 8 ==> ((#[trigger] (x & 0b100) == 0) == (x < 4)),
        forall|x: u16| #[trigger] (x & 0x0FFF) <= 0x0FFF,
        forall|x: u16| #[trigger] (x & 0x0F) <= 0x0F,
        forall|x: u16| #[trigger] (0x0F & x) <= 0x0F,
        forall|x: u16| #[trigger] (x & 0xFF) <= 0xFF,
        forall|x: u8| x < 8 ==> #[trigger] (x & !0b100u8) < 4,
{
}

/// Replacing one byte of a register pair leaves the other byte and reads back.
pub proof fn lemma_pair_bytes(x: u16, v: u8)
    by (bit_vector)
    ensures
        hi_byte(with_hi_byte(x, v)) == v,
        lo_byte(with_hi_byte(x, v)) == lo_byte(x),
        lo_byte(with_lo_byte(x, v)) == v,
        hi_byte(with_lo_byte(x, v)) == hi_byte(x),
        with_hi_byte(x, v) & 0x0F == x & 0x0F,
{
}

/// A word is its low byte joined with its high byte; two bytes joined are `lo + 256 * hi`.
pub proof fn lemma_word_bytes(x: u16, lo: u8, hi: u8)
    by (bit_vector)
    ensures
        (lo_byte(x) as u16) | ((hi_byte(x) as u16) << 8u16) == x,
        (lo as u16) | ((hi as u16) << 8u16) == lo + 256 * hi,
{
}

/// Setting or clearing one flag bit reads back, and leaves the other flags, register A and
/// the low nibble of F as they were.
pub proof fn lemma_flag_bits(x: u16, on: bool)
    by (bit_vector)
    ensures
        has_bits(with_bits(x, 0x80, on), 0x80) == on,
        has_bits(with_bits(x, 0x40, on), 0x40) == on,
        has_bits(with_bits(x, 0x20, on), 0x20) == on,
        has_bits(with_bits(x, 0x10, on), 0x10) == on,
        has_bits(with_bits(x, 0x80, on), 0x40) == has_bits(x, 0x40),
        has_bits(with_bits(x, 0x80, on), 0x20) == has_bits(x, 0x20),
        has_bits(with_bits(x, 0x80, on), 0x10) == has_bits(x, 0x10),
        has_bits(with_bits(x, 0x40, on), 0x80) == has_bits(x, 0x80),
        has_bits(with_bits(x, 0x40, on), 0x20) == has_bits(x, 0x20),
        has_bits(with_bits(x, 0x40, on), 0x10) == has_bits(x, 0x10),
        has_bits(with_bits(x, 0x20, on), 0x80) == has_bits(x, 0x80),
        has_bits(with_bits(x, 0x20, on), 0x40) == has_bits(x, 0x40),
        has_bits(with_bits(x, 0x20, on), 0x10) == has_bits(x, 0x10),
        has_bits(with_bits(x, 0x10, on), 0x80) == has_bits(x, 0x80),
        has_bits(with_bits(x, 0x10, on), 0x40) == has_bits(x, 0x40),
        has_bits(with_bits(x, 0x10, on), 0x20) == has_bits(x, 0x20),
        hi_byte(with_bits(x, 0x80, on)) == hi_byte(x),
        hi_byte(with_bits(x, 0x40, on)) == hi_byte(x),
        hi_byte(with_bits(x, 0x20, on)) == hi_byte(x),
        hi_byte(with_bits(x, 0x10, on)) == hi_byte(x),
        with_bits(x, 0x80, on) & 0x0F == x & 0x0F,
        with_bits(x, 0x40, on) & 0x0F == x & 0x0F,
        with_bits(x, 0x20, on) & 0x0F == x & 0x0F,
        with_bits(x, 0x10, on) & 0x0F == x & 0x0F,
{
}

/// Replacing the high byte of a register pair leaves its flag bits.
pub proof fn lemma_hi_keeps_flags(x: u16, v: u8)
    by (bit_vector)
    ensures
        has_bits(with_hi_byte(x, v), 0x80) == has_bits(x, 0x80),
        has_bits(with_hi_byte(x, v), 0x40) == has_bits(x, 0x40),
        has_bits(with_hi_byte(x, v), 0x20) == has_bits(x, 0x20),
        has_bits(with_hi_byte(x, v), 0x10) == has_bits(x, 0x10),
{
}

/// Masking a byte's low nibble is taking it modulo 16.
pub proof fn lemma_low_nibble()
    by (bit_vector)
    ensures
        forall|x: u8| #[trigger] (0x0F & x) == x % 16,
        forall|x: u8| #[trigger] (x & 0x0F) == x % 16,
{
}

/// Byte and word masks as arithmetic.
pub proof fn lemma_masks_as_arithmetic()
    by (bit_vector)
    ensures
        forall|x: u8| #[trigger] (x & 0x1F) == x % 32,
        forall|x: u8| #[trigger] (0x03 & x) == x % 4,
        forall|x: u8| #[trigger] (x & 0x07) == x % 8,
        forall|x: u8| #[trigger] (x >> 5u8) == x / 32,
        forall|x: u8| #[trigger] (x >> 1u8) == x / 2,
        forall|x: u8| #[trigger] (x >> 6u8) == x / 64,
        forall|x: u8| #[trigger] ((x >> 3u8) & 0x07) == (x / 8) % 8,
        forall|x: u8| x < 8 ==> #[trigger] (x & !0b100u8) == x % 4,
{
}

/// Word masks as arithmetic.
pub proof fn lemma_word_masks_as_arithmetic()
    by (bit_vector)
    ensures
        forall|x: u16| #[trigger] (x & 0x0FFF) == x % 4096,
        forall|x: u16| #[trigger] (0x0F & x) == x % 16,
        forall|x: u16| #[trigger] (x & 0x0F) == x % 16,
        forall|x: u16| #[trigger] (x & 0xFF) == x % 256,
        forall|x: u16| #[trigger] (x >> 8u16) == x / 256,
        forall|x: u16| #[trigger] ((x as u8) as u16) == x % 256,
{
}

/// Testing, clearing and setting bit `y` of a byte, in arithmetic.
pub proof fn lemma_bit_ops(v: u8, y: u8)
    by (bit_vector)
    requires
        y < 8,
    ensures
        y == 0 ==> ((v >> y) & 1 == 1) == ((v / 1) % 2 == 1),
        y == 0 && (v / 1) % 2 == 1 ==> (v & !(1u8 << y)) == v - 1 && (v | (1u8 << y)) == v,
        y == 0 && (v / 1) % 2 == 0 ==> (v & !(1u8 << y)) == v && (v | (1u8 << y)) == v + 1,
        y == 1 ==> ((v >> y) & 1 == 1) == ((v / 2) % 2 == 1),
        y == 1 && (v / 2) % 2 == 1 ==> (v & !(1u8 << y)) == v - 2 && (v | (1u8 << y)) == v,
        y == 1 && (v / 2) % 2 == 0 ==> (v & !(1u8 << y)) == v && (v | (1u8 << y)) == v + 2,
        y == 2 ==> ((v >> y) & 1 == 1) == ((v / 4) % 2 == 1),
        y == 2 && (v / 4) % 2 == 1 ==> (v & !(1u8 << y)) == v - 4 && (v | (1u8 << y)) == v,
        y == 2 && (v / 4) % 2 == 0 ==> (v & !(1u8 << y)) == v && (v | (1u8 << y)) == v + 4,
        y == 3 ==> ((v >> y) & 1 == 1) == ((v / 8) % 2 == 1),
        y == 3 && (v / 8) % 2 == 1 ==> (v & !(1u8 << y)) == v - 8 && (v | (1u8 << y)) == v,
        y == 3 && (v / 8) % 2 == 0 ==> (v & !(1u8 << y)) == v && (v | (1u8 << y)) == v + 8,
        y == 4 ==> ((v >> y) & 1 == 1) == ((v / 16) % 2 == 1),
        y == 4 && (v / 16) % 2 == 1 ==> (v & !(1u8 << y)) == v - 16 && (v | (1u8 << y)) == v,
        y == 4 && (v / 16) % 2 == 0 ==> (v & !(1u8 << y)) == v && (v | (1u8 << y)) == v + 16,
        y == 5 ==> ((v >> y) & 1 == 1) == ((v / 32) % 2 == 1),
        y == 5 && (v / 32) % 2 == 1 ==> (v & !(1u8 << y)) == v - 32 && (v | (1u8 << y)) == v,
        y == 5 && (v / 32) % 2 == 0 ==> (v & !(1u8 << y)) == v && (v | (1u8 << y)) == v + 32,
        y == 6 ==> ((v >> y) & 1 == 1) == ((v / 64) % 2 == 1),
        y == 6 && (v / 64) % 2 == 1 ==> (v & !(1u8 << y)) == v - 64 && (v | (1u8 << y)) == v,
        y == 6 && (v / 64) % 2 == 0 ==> (v & !(1u8 << y)) == v && (v | (1u8 << y)) == v + 64,
        y == 7 ==> ((v >> y) & 1 == 1) == ((v / 128) % 2 == 1),
        y == 7 && (v / 128) % 2 == 1 ==> (v & !(1u8 << y)) == v - 128 && (v | (1u8 << y)) == v,
        y == 7 && (v / 128) % 2 == 0 ==> (v & !(1u8 << y)) == v && (v | (1u8 << y)) == v + 128,
{
}

/// Widens a byte offset into a 16-bit value with the sign of the byte.
pub fn sign_extend_exec(v: u8) -> (r: u16)
    ensures
        r == sign_extend(v),
{
    v as i8 as i16 as u16
}

/// Rotates a byte one place to the left; the bit that leaves on the left comes back on the right.
pub fn rotate_left_1(v: u8) -> (r: u8)
    ensures
        r == rotl8(v),
{
    (v << 1u8) | (v >> 7u8)
}

/// Rotates a byte one place to the right; the bit that leaves on the right comes back on the left.
pub fn rotate_right_1(v: u8) -> (r: u8)
    ensures
        r == rotr8(v),
{
    (v >> 1u8) | (v << 7u8)
}

} // verus!
