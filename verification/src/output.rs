//! Decoding of the measurement registers.
//!
//! The device reports each quantity as a signed 16-bit number in two
//! consecutive registers, low byte first.

use vstd::prelude::*;

verus! {

/// Sub-address of the low byte of the temperature output.
pub const TEMP_OUT_ADDR: u8 = 0x6eu8;

/// Sub-address of the low byte of the X axis; Y and Z follow.
pub const OUTX_ADDR: u8 = 0x68u8;

/// Steps of the temperature output per degree Celsius.
pub const STEPS_PER_DEGREE: i32 = 256;

/// Temperature at which the output reads zero, in degrees Celsius.
pub const ZERO_POINT: i32 = 25;

/// The signed 16-bit number whose low byte is `lo` and whose high byte is `hi`.
pub open spec fn word(lo: u8, hi: u8) -> int {
    let unsigned: int = hi * 256 + lo;
    if unsigned < 32768 {
        unsigned
    } else {
        unsigned - 65536
    }
}

/// The temperature that the raw bytes of a reading stand for, in steps of
/// 1/256 degree Celsius: the output counts such steps from 25 degrees.
pub open spec fn temperature(lo: u8, hi: u8) -> int {
    word(lo, hi) + ZERO_POINT * STEPS_PER_DEGREE
}

/// Joins the two bytes of an output register pair.
pub fn join(lo: u8, hi: u8) -> (r: i16)
    ensures
        r == word(lo, hi),
{
    let unsigned: i32 = (hi as i32) * 256 + (lo as i32);
    if unsigned < 32768 {
        unsigned as i16
    } else {
        (unsigned - 65536) as i16
    }
}

/// The number joined from two bytes is the high byte shifted over the low
/// one, read as two's complement.
pub proof fn lemma_word_is_shift_or(lo: u8, hi: u8)
    ensures
        word(lo, hi) == ((((hi as u16) << 8) | (lo as u16)) as i16) as int,
{
    let joined: u16 = ((hi as u16) << 8) | (lo as u16);
    assert(joined == hi * 256 + lo) by (bit_vector)
        requires
            joined == ((hi as u16) << 8) | (lo as u16),
    ;
    assert((joined as i16) as int == if joined < 32768 {
        joined as int
    } else {
        joined - 65536
    }) by (bit_vector);
}

/// Converts a temperature reading to steps of 1/256 degree Celsius.
pub fn decode_temperature(reading: [u8; 2]) -> (r: i32)
    ensures
        r == temperature(reading[0], reading[1]),
{
    let raw: i16 = join(reading[0], reading[1]);
    (raw as i32) + ZERO_POINT * STEPS_PER_DEGREE
}

/// Converts a reading of the six field registers to the raw counts of the
/// X, Y and Z axes, in that order. No sensitivity factor is applied.
pub fn decode_field(reading: [u8; 6]) -> (r: [i16; 3])
    ensures
        r[0] == word(reading[0], reading[1]),
        r[1] == word(reading[2], reading[3]),
        r[2] == word(reading[4], reading[5]),
{
    let x: i16 = join(reading[0], reading[1]);
    let y: i16 = join(reading[2], reading[3]);
    let z: i16 = join(reading[4], reading[5]);
    [x, y, z]
}

} // verus!
