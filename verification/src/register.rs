//! How a register travels over the bus.
//!
//! A register is written by one plain write of two bytes, its sub-address and
//! its new value. It is read by sending its sub-address and reading one byte
//! back in the same transaction. Neither is retried: whatever the bus reports
//! is what the caller gets.

use vstd::prelude::*;

verus! {

/// The two bytes that write `bits` to the register at `reg_addr`.
pub fn write_frame(reg_addr: u8, bits: u8) -> (frame: [u8; 2])
    ensures
        frame@ == seq![reg_addr, bits],
{
    [reg_addr, bits]
}

/// The byte that a single-register read brought, or the error of the bus.
pub fn read_byte<E>(reply: Result<[u8; 1], E>) -> (r: Result<u8, E>)
    ensures
        r == match reply {
            Ok(data) => Ok(data[0]),
            Err(e) => Err(e),
        },
{
    match reply {
        Ok(data) => Ok(data[0]),
        Err(e) => Err(e),
    }
}

/// Keeps `next` as the cached byte if the write that carried it succeeded,
/// and `cached` if it failed.
pub fn settle<E>(cached: u8, next: u8, outcome: &Result<(), E>) -> (r: u8)
    ensures
        r == if outcome is Ok { next } else { cached },
{
    match outcome {
        Ok(_) => next,
        Err(_) => cached,
    }
}

} // verus!
