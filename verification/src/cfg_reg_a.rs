//! Configuration register A: output data rate and operating mode.

use vstd::prelude::*;
use crate::bits::{
    bit, get_bit, get_pair, lemma_with_bit_keeps_pair, lemma_with_pair, lemma_with_pair_keeps_pair,
    pair, set_bit, set_pair, with_bit, with_pair,
};
use crate::register::{read_byte, settle, write_frame};
use vstd::pervasive::unreached;

verus! {

/// Sub-address of the register.
pub const ADDR: u8 = 0x60u8;

/// Bit that enables the magnetometer temperature compensation.
pub const COMP_TEMP_EN: u8 = 7;

/// Bit that reboots the memory content; the device clears it by itself.
pub const REBOOT: u8 = 6;

/// Bit that resets the configuration and user registers.
pub const SOFT_RST: u8 = 5;

/// Bit that selects low-power mode over high-resolution mode.
pub const LP: u8 = 4;

/// Lower bit of the output-data-rate selector.
pub const ODR_OFFSET: u8 = 2;

/// Lower bit of the operating-mode selector.
pub const MODE_OFFSET: u8 = 0;

/// Output data rate.
#[derive(Copy, Clone, Eq, PartialEq, Ord, PartialOrd, Hash, Debug, Structural)]
pub enum Odr {
    Hz10,
    Hz20,
    Hz50,
    Hz100,
}

/// Mode of operation of the device.
#[derive(Copy, Clone, Eq, PartialEq, Ord, PartialOrd, Hash, Debug, Structural)]
pub enum Mode {
    Continuous,
    Single,
    Idle,
}

impl Odr {
    /// The two-bit code that selects this rate.
    pub open spec fn code(self) -> u8 {
        match self {
            Odr::Hz10 => 0,
            Odr::Hz20 => 1,
            Odr::Hz50 => 2,
            Odr::Hz100 => 3,
        }
    }

    /// The rate that a two-bit code selects.
    pub open spec fn of_code(code: u8) -> Odr {
        if code == 0 {
            Odr::Hz10
        } else if code == 1 {
            Odr::Hz20
        } else if code == 2 {
            Odr::Hz50
        } else {
            Odr::Hz100
        }
    }

    /// The rate in hertz, as a number.
    pub open spec fn rate(self) -> u8 {
        match self {
            Odr::Hz10 => 10,
            Odr::Hz20 => 20,
            Odr::Hz50 => 50,
            Odr::Hz100 => 100,
        }
    }

    /// Encodes the rate for the selector.
    pub fn encode(self) -> (r: u8)
        ensures
            r == self.code(),
            r < 4,
    {
        match self {
            Odr::Hz10 => 0,
            Odr::Hz20 => 1,
            Odr::Hz50 => 2,
            Odr::Hz100 => 3,
        }
    }

    /// The rate in hertz.
    pub fn hertz(self) -> (r: u8)
        ensures
            r == self.rate(),
    {
        match self {
            Odr::Hz10 => 10,
            Odr::Hz20 => 20,
            Odr::Hz50 => 50,
            Odr::Hz100 => 100,
        }
    }
}

impl Mode {
    /// The two-bit code written to select this mode.
    pub open spec fn code(self) -> u8 {
        match self {
            Mode::Continuous => 0,
            Mode::Single => 1,
            Mode::Idle => 2,
        }
    }

    /// The mode that a two-bit code selects. Two codes select idle.
    pub open spec fn of_code(code: u8) -> Mode {
        if code == 0 {
            Mode::Continuous
        } else if code == 1 {
            Mode::Single
        } else {
            Mode::Idle
        }
    }

    /// Encodes the mode for the selector.
    pub fn encode(self) -> (r: u8)
        ensures
            r == self.code(),
            r < 4,
    {
        match self {
            Mode::Continuous => 0,
            Mode::Single => 1,
            Mode::Idle => 2,
        }
    }
}

/// Cached copy of configuration register A: the byte last read from the
/// device, or last written to it with success.
#[derive(Debug)]
pub struct CfgRegA(u8);

impl View for CfgRegA {
    type V = u8;

    closed spec fn view(&self) -> u8 {
        self.0
    }
}

impl CfgRegA {
    /// A snapshot that holds `bits`.
    pub fn new(bits: u8) -> (r: Self)
        ensures
            r@ == bits,
    {
        CfgRegA(bits)
    }

    /// The cached byte.
    pub fn bits(&self) -> (r: u8)
        ensures
            r == self@,
    {
        self.0
    }

    /// The byte that the device holds, as a read of the register brought it,
    /// or the error of the bus. The cached byte is not touched.
    pub fn value<E>(&self, reply: Result<[u8; 1], E>) -> (r: Result<u8, E>)
        ensures
            r == match reply {
                Ok(data) => Ok(data[0]),
                Err(e) => Err(e),
            },
    {
        read_byte(reply)
    }

    /// The selected output data rate.
    pub fn data_rate(&self) -> (r: Odr)
        ensures
            r == Odr::of_code(pair(self@, ODR_OFFSET)),
    {
        match get_pair(self.0, ODR_OFFSET) {
            0 => Odr::Hz10,
            1 => Odr::Hz20,
            2 => Odr::Hz50,
            3 => Odr::Hz100,
            _ => unreached(),
        }
    }

    /// The frame that writes the register with the data rate set to `value` and
    /// every other field as cached: the sub-address, then the byte.
    pub fn data_rate_frame(&self, value: Odr) -> (frame: [u8; 2])
        ensures
            frame@ == seq![ADDR, with_pair(self@, ODR_OFFSET, value.code())],
    {
        write_frame(ADDR, set_pair(self.0, ODR_OFFSET, value.encode()))
    }

    /// Records the outcome of sending `data_rate_frame(value)` to the device:
    /// the cache takes the new byte if the write succeeded and stays as it is
    /// if not. The outcome is handed on as it came.
    pub fn set_data_rate<E>(&mut self, value: Odr, outcome: Result<(), E>) -> (r: Result<(), E>)
        ensures
            r == outcome,
            final(self)@ == if outcome is Ok {
                with_pair(old(self)@, ODR_OFFSET, value.code())
            } else {
                old(self)@
            },
    {
        self.0 = settle(self.0, set_pair(self.0, ODR_OFFSET, value.encode()), &outcome);
        outcome
    }

    /// The selected operating mode.
    pub fn mode(&self) -> (r: Mode)
        ensures
            r == Mode::of_code(pair(self@, MODE_OFFSET)),
    {
        match get_pair(self.0, MODE_OFFSET) {
            0 => Mode::Continuous,
            1 => Mode::Single,
            2 => Mode::Idle,
            3 => Mode::Idle,
            _ => unreached(),
        }
    }

    /// The frame that writes the register with the operating mode set to
    /// `value` and every other field as cached: the sub-address, then the byte.
    pub fn mode_frame(&self, value: Mode) -> (frame: [u8; 2])
        ensures
            frame@ == seq![ADDR, with_pair(self@, MODE_OFFSET, value.code())],
    {
        write_frame(ADDR, set_pair(self.0, MODE_OFFSET, value.encode()))
    }

    /// Records the outcome of sending `mode_frame(value)` to the device: the
    /// cache takes the new byte if the write succeeded and stays as it is if
    /// not. The outcome is handed on as it came.
    pub fn set_mode<E>(&mut self, value: Mode, outcome: Result<(), E>) -> (r: Result<(), E>)
        ensures
            r == outcome,
            final(self)@ == if outcome is Ok {
                with_pair(old(self)@, MODE_OFFSET, value.code())
            } else {
                old(self)@
            },
    {
        self.0 = settle(self.0, set_pair(self.0, MODE_OFFSET, value.encode()), &outcome);
        outcome
    }

    /// True if temperature compensation is enabled.
    pub fn comp_temp_en(&self) -> (r: bool)
        ensures
            r == bit(self@, COMP_TEMP_EN),
    {
        get_bit(self.0, COMP_TEMP_EN)
    }

    /// The frame that writes the register with temperature compensation set to
    /// `value` and every other field as cached: the sub-address, then the byte.
    pub fn comp_temp_en_frame(&self, value: bool) -> (frame: [u8; 2])
        ensures
            frame@ == seq![ADDR, with_bit(self@, COMP_TEMP_EN, value)],
    {
        write_frame(ADDR, set_bit(self.0, COMP_TEMP_EN, value))
    }

    /// Records the outcome of sending `comp_temp_en_frame(value)` to the
    /// device: the cache takes the new byte if the write succeeded and stays as
    /// it is if not. The outcome is handed on as it came.
    pub fn set_comp_temp_en<E>(&mut self, value: bool, outcome: Result<(), E>) -> (r: Result<(), E>)
        ensures
            r == outcome,
            final(self)@ == if outcome is Ok {
                with_bit(old(self)@, COMP_TEMP_EN, value)
            } else {
                old(self)@
            },
    {
        self.0 = settle(self.0, set_bit(self.0, COMP_TEMP_EN, value), &outcome);
        outcome
    }

    /// True if a reboot of the memory content is requested.
    pub fn reboot(&self) -> (r: bool)
        ensures
            r == bit(self@, REBOOT),
    {
        get_bit(self.0, REBOOT)
    }

    /// The frame that writes the register with the reboot request set to
    /// `value` and every other field as cached: the sub-address, then the byte.
    pub fn reboot_frame(&self, value: bool) -> (frame: [u8; 2])
        ensures
            frame@ == seq![ADDR, with_bit(self@, REBOOT, value)],
    {
        write_frame(ADDR, set_bit(self.0, REBOOT, value))
    }

    /// Records the outcome of sending `reboot_frame(value)` to the device: the
    /// cache takes the new byte if the write succeeded and stays as it is if
    /// not. The outcome is handed on as it came.
    pub fn set_reboot<E>(&mut self, value: bool, outcome: Result<(), E>) -> (r: Result<(), E>)
        ensures
            r == outcome,
            final(self)@ == if outcome is Ok {
                with_bit(old(self)@, REBOOT, value)
            } else {
                old(self)@
            },
    {
        self.0 = settle(self.0, set_bit(self.0, REBOOT, value), &outcome);
        outcome
    }

    /// True if a reset of the configuration and user registers is requested.
    pub fn soft_rst(&self) -> (r: bool)
        ensures
            r == bit(self@, SOFT_RST),
    {
        get_bit(self.0, SOFT_RST)
    }

    /// The frame that writes the register with the reset request set to `value`
    /// and every other field as cached: the sub-address, then the byte.
    pub fn soft_rst_frame(&self, value: bool) -> (frame: [u8; 2])
        ensures
            frame@ == seq![ADDR, with_bit(self@, SOFT_RST, value)],
    {
        write_frame(ADDR, set_bit(self.0, SOFT_RST, value))
    }

    /// Records the outcome of sending `soft_rst_frame(value)` to the device:
    /// the cache takes the new byte if the write succeeded and stays as it is
    /// if not. The outcome is handed on as it came.
    pub fn set_soft_rst<E>(&mut self, value: bool, outcome: Result<(), E>) -> (r: Result<(), E>)
        ensures
            r == outcome,
            final(self)@ == if outcome is Ok {
                with_bit(old(self)@, SOFT_RST, value)
            } else {
                old(self)@
            },
    {
        self.0 = settle(self.0, set_bit(self.0, SOFT_RST, value), &outcome);
        outcome
    }

    /// True if low-power mode is selected.
    pub fn lp(&self) -> (r: bool)
        ensures
            r == bit(self@, LP),
    {
        get_bit(self.0, LP)
    }

    /// The frame that writes the register with low-power mode set to `value`
    /// and every other field as cached: the sub-address, then the byte.
    pub fn lp_frame(&self, value: bool) -> (frame: [u8; 2])
        ensures
            frame@ == seq![ADDR, with_bit(self@, LP, value)],
    {
        write_frame(ADDR, set_bit(self.0, LP, value))
    }

    /// Records the outcome of sending `lp_frame(value)` to the device: the
    /// cache takes the new byte if the write succeeded and stays as it is if
    /// not. The outcome is handed on as it came.
    pub fn set_lp<E>(&mut self, value: bool, outcome: Result<(), E>) -> (r: Result<(), E>)
        ensures
            r == outcome,
            final(self)@ == if outcome is Ok {
                with_bit(old(self)@, LP, value)
            } else {
                old(self)@
            },
    {
        self.0 = settle(self.0, set_bit(self.0, LP, value), &outcome);
        outcome
    }
}

/// A data rate reads back as selected, and selecting it moves neither the
/// operating mode nor any bit outside the selector.
pub proof fn lemma_data_rate_reads_back(byte: u8, rate: Odr)
    ensures
        Odr::of_code(pair(with_pair(byte, ODR_OFFSET, rate.code()), ODR_OFFSET)) == rate,
        pair(with_pair(byte, ODR_OFFSET, rate.code()), MODE_OFFSET) == pair(byte, MODE_OFFSET),
        forall|other: u8|
            other < 8 && other != ODR_OFFSET && other != ODR_OFFSET + 1 ==> bit(
                with_pair(byte, ODR_OFFSET, rate.code()),
                other,
            ) == bit(byte, other),
{
    lemma_with_pair(byte, ODR_OFFSET, rate.code());
    lemma_with_pair_keeps_pair(byte, ODR_OFFSET, rate.code(), MODE_OFFSET);
}

/// An operating mode reads back as selected, and selecting it moves neither
/// the data rate nor any bit outside the selector.
pub proof fn lemma_mode_reads_back(byte: u8, mode: Mode)
    ensures
        Mode::of_code(pair(with_pair(byte, MODE_OFFSET, mode.code()), MODE_OFFSET)) == mode,
        pair(with_pair(byte, MODE_OFFSET, mode.code()), ODR_OFFSET) == pair(byte, ODR_OFFSET),
        forall|other: u8|
            other < 8 && other != MODE_OFFSET && other != MODE_OFFSET + 1 ==> bit(
                with_pair(byte, MODE_OFFSET, mode.code()),
                other,
            ) == bit(byte, other),
{
    lemma_with_pair(byte, MODE_OFFSET, mode.code());
    lemma_with_pair_keeps_pair(byte, MODE_OFFSET, mode.code(), ODR_OFFSET);
}

/// Writing any of the four flags moves neither the data rate nor the
/// operating mode.
pub proof fn lemma_flag_keeps_selectors(byte: u8, pos: u8, value: bool)
    requires
        pos == COMP_TEMP_EN || pos == REBOOT || pos == SOFT_RST || pos == LP,
    ensures
        pair(with_bit(byte, pos, value), ODR_OFFSET) == pair(byte, ODR_OFFSET),
        pair(with_bit(byte, pos, value), MODE_OFFSET) == pair(byte, MODE_OFFSET),
{
    lemma_with_bit_keeps_pair(byte, pos, value, ODR_OFFSET);
    lemma_with_bit_keeps_pair(byte, pos, value, MODE_OFFSET);
}

/// Both codes above single-shot mean idle.
pub proof fn lemma_idle_codes(byte: u8)
    requires
        pair(byte, MODE_OFFSET) == 2 || pair(byte, MODE_OFFSET) == 3,
    ensures
        Mode::of_code(pair(byte, MODE_OFFSET)) == Mode::Idle,
{
}

} // verus!
