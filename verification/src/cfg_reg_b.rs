//! Configuration register B: offset cancellation and filtering.

use vstd::prelude::*;
use crate::bits::{bit, get_bit, set_bit, with_bit};
use crate::register::{settle, write_frame};

verus! {

/// Sub-address of the register.
pub const ADDR: u8 = 0x61u8;

/// Bit that enables offset cancellation in single measurement mode.
pub const OFF_CANC_ONE_SHOT: u8 = 4;

/// Bit that makes the interrupt block look at data after the hard-iron
/// correction.
pub const INT_ON_DATAOFF: u8 = 3;

/// Bit that releases the set pulse only at power-on, not every 63 samples.
pub const SET_FREQ: u8 = 2;

/// Bit that enables offset cancellation.
pub const OFF_CANC: u8 = 1;

/// Bit that enables the digital low-pass filter.
pub const LPF: u8 = 0;

/// Cached copy of configuration register B: the byte last read from the
/// device, or last written to it with success.
#[derive(Debug)]
pub struct CfgRegB(u8);

impl View for CfgRegB {
    type V = u8;

    closed spec fn view(&self) -> u8 {
        self.0
    }
}

impl CfgRegB {
    /// A snapshot that holds `bits`.
    pub fn new(bits: u8) -> (r: Self)
        ensures
            r@ == bits,
    {
        CfgRegB(bits)
    }

    /// The cached byte.
    pub fn bits(&self) -> (r: u8)
        ensures
            r == self@,
    {
        self.0
    }

    /// True if offset cancellation in single measurement mode is enabled.
    pub fn off_canc_one_shot(&self) -> (r: bool)
        ensures
            r == bit(self@, OFF_CANC_ONE_SHOT),
    {
        get_bit(self.0, OFF_CANC_ONE_SHOT)
    }

    /// The frame that writes the register with single-measurement offset
    /// cancellation set to `value` and every other field as cached: the
    /// sub-address, then the byte.
    pub fn off_canc_one_shot_frame(&self, value: bool) -> (frame: [u8; 2])
        ensures
            frame@ == seq![ADDR, with_bit(self@, OFF_CANC_ONE_SHOT, value)],
    {
        write_frame(ADDR, set_bit(self.0, OFF_CANC_ONE_SHOT, value))
    }

    /// Records the outcome of sending `off_canc_one_shot_frame(value)` to the
    /// device: the cache takes the new byte if the write succeeded and stays as
    /// it is if not. The outcome is handed on as it came.
    pub fn set_off_canc_one_shot<E>(
        &mut self,
        value: bool,
        outcome: Result<(), E>,
    ) -> (r: Result<(), E>)
        ensures
            r == outcome,
            final(self)@ == if outcome is Ok {
                with_bit(old(self)@, OFF_CANC_ONE_SHOT, value)
            } else {
                old(self)@
            },
    {
        self.0 = settle(self.0, set_bit(self.0, OFF_CANC_ONE_SHOT, value), &outcome);
        outcome
    }

    /// True if the interrupt block looks at data after the hard-iron
    /// correction.
    pub fn int_on_dataoff(&self) -> (r: bool)
        ensures
            r == bit(self@, INT_ON_DATAOFF),
    {
        get_bit(self.0, INT_ON_DATAOFF)
    }

    /// The frame that writes the register with interrupt recognition on
    /// corrected data set to `value` and every other field as cached: the
    /// sub-address, then the byte.
    pub fn int_on_dataoff_frame(&self, value: bool) -> (frame: [u8; 2])
        ensures
            frame@ == seq![ADDR, with_bit(self@, INT_ON_DATAOFF, value)],
    {
        write_frame(ADDR, set_bit(self.0, INT_ON_DATAOFF, value))
    }

    /// Records the outcome of sending `int_on_dataoff_frame(value)` to the
    /// device: the cache takes the new byte if the write succeeded and stays as
    /// it is if not. The outcome is handed on as it came.
    pub fn set_int_on_dataoff<E>(
        &mut self,
        value: bool,
        outcome: Result<(), E>,
    ) -> (r: Result<(), E>)
        ensures
            r == outcome,
            final(self)@ == if outcome is Ok {
                with_bit(old(self)@, INT_ON_DATAOFF, value)
            } else {
                old(self)@
            },
    {
        self.0 = settle(self.0, set_bit(self.0, INT_ON_DATAOFF, value), &outcome);
        outcome
    }

    /// True if the set pulse is released only at power-on.
    pub fn set_freq(&self) -> (r: bool)
        ensures
            r == bit(self@, SET_FREQ),
    {
        get_bit(self.0, SET_FREQ)
    }

    /// The frame that writes the register with the power-on-only set pulse set
    /// to `value` and every other field as cached: the sub-address, then the
    /// byte.
    pub fn set_freq_frame(&self, value: bool) -> (frame: [u8; 2])
        ensures
            frame@ == seq![ADDR, with_bit(self@, SET_FREQ, value)],
    {
        write_frame(ADDR, set_bit(self.0, SET_FREQ, value))
    }

    /// Records the outcome of sending `set_freq_frame(value)` to the device:
    /// the cache takes the new byte if the write succeeded and stays as it is
    /// if not. The outcome is handed on as it came.
    pub fn set_set_freq<E>(&mut self, value: bool, outcome: Result<(), E>) -> (r: Result<(), E>)
        ensures
            r == outcome,
            final(self)@ == if outcome is Ok {
                with_bit(old(self)@, SET_FREQ, value)
            } else {
                old(self)@
            },
    {
        self.0 = settle(self.0, set_bit(self.0, SET_FREQ, value), &outcome);
        outcome
    }

    /// True if offset cancellation is enabled.
    pub fn off_canc(&self) -> (r: bool)
        ensures
            r == bit(self@, OFF_CANC),
    {
        get_bit(self.0, OFF_CANC)
    }

    /// The frame that writes the register with offset cancellation set to
    /// `value` and every other field as cached: the sub-address, then the byte.
    pub fn off_canc_frame(&self, value: bool) -> (frame: [u8; 2])
        ensures
            frame@ == seq![ADDR, with_bit(self@, OFF_CANC, value)],
    {
        write_frame(ADDR, set_bit(self.0, OFF_CANC, value))
    }

    /// Records the outcome of sending `off_canc_frame(value)` to the device:
    /// the cache takes the new byte if the write succeeded and stays as it is
    /// if not. The outcome is handed on as it came.
    pub fn set_off_canc<E>(&mut self, value: bool, outcome: Result<(), E>) -> (r: Result<(), E>)
        ensures
            r == outcome,
            final(self)@ == if outcome is Ok {
                with_bit(old(self)@, OFF_CANC, value)
            } else {
                old(self)@
            },
    {
        self.0 = settle(self.0, set_bit(self.0, OFF_CANC, value), &outcome);
        outcome
    }

    /// True if the low-pass filter is enabled.
    pub fn lpf(&self) -> (r: bool)
        ensures
            r == bit(self@, LPF),
    {
        get_bit(self.0, LPF)
    }

    /// The frame that writes the register with the low-pass filter set to
    /// `value` and every other field as cached: the sub-address, then the byte.
    pub fn lpf_frame(&self, value: bool) -> (frame: [u8; 2])
        ensures
            frame@ == seq![ADDR, with_bit(self@, LPF, value)],
    {
        write_frame(ADDR, set_bit(self.0, LPF, value))
    }

    /// Records the outcome of sending `lpf_frame(value)` to the device: the
    /// cache takes the new byte if the write succeeded and stays as it is if
    /// not. The outcome is handed on as it came.
    pub fn set_lpf<E>(&mut self, value: bool, outcome: Result<(), E>) -> (r: Result<(), E>)
        ensures
            r == outcome,
            final(self)@ == if outcome is Ok {
                with_bit(old(self)@, LPF, value)
            } else {
                old(self)@
            },
    {
        self.0 = settle(self.0, set_bit(self.0, LPF, value), &outcome);
        outcome
    }
}

} // verus!
