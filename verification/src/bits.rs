//! Bit-field arithmetic on one register byte.
//!
//! A register packs independent fields into a byte: single flags, and groups
//! of two bits that select one of four codes. Everything here is stated over
//! the byte alone, so the register types share one set of facts.

use vstd::prelude::*;

verus! {

/// Whether bit `pos` of `byte` is set.
pub open spec fn bit(byte: u8, pos: u8) -> bool {
    (byte >> pos) & 1 != 0
}

/// `byte` with bit `pos` replaced by `value`.
pub open spec fn with_bit(byte: u8, pos: u8, value: bool) -> u8 {
    (byte & !(1u8 << pos)) | ((if value { 1u8 } else { 0u8 }) << pos)
}

/// The code held by the two bits of `byte` whose lower one is `offset`.
pub open spec fn pair(byte: u8, offset: u8) -> u8 {
    (byte >> offset) & 0b11
}

/// `byte` with the two bits from `offset` up replaced by `code`.
pub open spec fn with_pair(byte: u8, offset: u8, code: u8) -> u8 {
    (byte & !(0b11u8 << offset)) | (code << offset)
}

/// Reads bit `pos` of `byte`.
pub fn get_bit(byte: u8, pos: u8) -> (r: bool)
    requires
        pos < 8,
    ensures
        r == bit(byte, pos),
{
    assert((byte & (1u8 << pos) != 0) == ((byte >> pos) & 1 != 0)) by (bit_vector)
        requires
            pos < 8,
    ;
    byte & (1u8 << pos) != 0
}

/// Replaces bit `pos` of `byte` by `value` and keeps the rest.
pub fn set_bit(byte: u8, pos: u8, value: bool) -> (r: u8)
    requires
        pos < 8,
    ensures
        r == with_bit(byte, pos, value),
{
    let raised: u8 = if value { 1 } else { 0 };
    (byte & !(1u8 << pos)) | (raised << pos)
}

/// Reads the two-bit code whose lower bit is `offset`.
pub fn get_pair(byte: u8, offset: u8) -> (r: u8)
    requires
        offset < 7,
    ensures
        r == pair(byte, offset),
        r < 4,
{
    assert((byte >> offset) & 0b11 < 4) by (bit_vector);
    (byte >> offset) & 0b11
}

/// Replaces the two bits from `offset` up by `code` and keeps the rest.
pub fn set_pair(byte: u8, offset: u8, code: u8) -> (r: u8)
    requires
        offset < 7,
        code < 4,
    ensures
        r == with_pair(byte, offset, code),
{
    (byte & !(0b11u8 << offset)) | (code << offset)
}

/// A flag reads back as written, and writing it moves no other bit.
pub proof fn lemma_with_bit(byte: u8, pos: u8, value: bool)
    by (bit_vector)
    requires
        pos < 8,
    ensures
        bit(with_bit(byte, pos, value), pos) == value,
        forall|other: u8|
            other < 8 && other != pos ==> bit(with_bit(byte, pos, value), other) == bit(
                byte,
                other,
            ),
{
}

/// A two-bit code reads back as written, and writing it moves no bit outside
/// the pair.
pub proof fn lemma_with_pair(byte: u8, offset: u8, code: u8)
    by (bit_vector)
    requires
        offset < 7,
        code < 4,
    ensures
        pair(with_pair(byte, offset, code), offset) == code,
        forall|other: u8|
            other < 8 && other != offset && other != offset + 1 ==> bit(
                with_pair(byte, offset, code),
                other,
            ) == bit(byte, other),
{
}

/// Writing a flag that lies outside a two-bit group leaves the group's code
/// as it was.
pub proof fn lemma_with_bit_keeps_pair(byte: u8, pos: u8, value: bool, offset: u8)
    by (bit_vector)
    requires
        pos < 8,
        offset < 7,
        pos != offset,
        pos != offset + 1,
    ensures
        pair(with_bit(byte, pos, value), offset) == pair(byte, offset),
{
}

/// Writing a two-bit group leaves the code of a group that does not overlap
/// it as it was.
pub proof fn lemma_with_pair_keeps_pair(byte: u8, offset: u8, code: u8, other: u8)
    by (bit_vector)
    requires
        offset < 7,
        other < 7,
        code < 4,
        other + 1 < offset || offset + 1 < other,
    ensures
        pair(with_pair(byte, offset, code), other) == pair(byte, other),
{
}

} // verus!
