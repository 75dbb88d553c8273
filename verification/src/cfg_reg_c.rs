//! Configuration register C: pin routing, interface and data format.

use vstd::prelude::*;
use crate::bits::{bit, get_bit, set_bit, with_bit};
use crate::register::{settle, write_frame};

verus! {

/// Sub-address of the register.
pub const ADDR: u8 = 0x62u8;

/// Bit that drives the interrupt signal on the INT/DRDY pin.
pub const INT_ON_PIN: u8 = 6;

/// Bit that inhibits the I2C interface, leaving only SPI. A device written
/// with this bit set no longer answers on the bus this driver talks to, and
/// nothing here stops a caller from setting it.
pub const I2C_DIS: u8 = 5;

/// Bit that holds back an output register pair while it is being read, so
/// that its two halves belong to one sample.
pub const BDU: u8 = 4;

/// Bit that swaps the low and high parts of the output data.
pub const BLE: u8 = 3;

/// Bit that enables the self-test.
pub const SELF_TEST: u8 = 1;

/// Bit that drives the data-ready signal on the INT/DRDY pin.
pub const DRDY_ON_PIN: u8 = 0;

/// Cached copy of configuration register C: the byte last read from the
/// device, or last written to it with success.
#[derive(Debug)]
pub struct CfgRegC(u8);

impl View for CfgRegC {
    type V = u8;

    closed spec fn view(&self) -> u8 {
        self.0
    }
}

impl CfgRegC {
    /// A snapshot that holds `bits`.
    pub fn new(bits: u8) -> (r: Self)
        ensures
            r@ == bits,
    {
        CfgRegC(bits)
    }

    /// The cached byte.
    pub fn bits(&self) -> (r: u8)
        ensures
            r == self@,
    {
        self.0
    }

    /// True if the interrupt signal is driven on the pin.
    pub fn int_on_pin(&self) -> (r: bool)
        ensures
            r == bit(self@, INT_ON_PIN),
    {
        get_bit(self.0, INT_ON_PIN)
    }

    /// The frame that writes the register with the interrupt signal on the pin
    /// set to `value` and every other field as cached: the sub-address, then
    /// the byte.
    pub fn int_on_pin_frame(&self, value: bool) -> (frame: [u8; 2])
        ensures
            frame@ == seq![ADDR, with_bit(self@, INT_ON_PIN, value)],
    {
        write_frame(ADDR, set_bit(self.0, INT_ON_PIN, value))
    }

    /// Records the outcome of sending `int_on_pin_frame(value)` to the device:
    /// the cache takes the new byte if the write succeeded and stays as it is
    /// if not. The outcome is handed on as it came.
    pub fn set_int_on_pin<E>(&mut self, value: bool, outcome: Result<(), E>) -> (r: Result<(), E>)
        ensures
            r == outcome,
            final(self)@ == if outcome is Ok {
                with_bit(old(self)@, INT_ON_PIN, value)
            } else {
                old(self)@
            },
    {
        self.0 = settle(self.0, set_bit(self.0, INT_ON_PIN, value), &outcome);
        outcome
    }

    /// True if the I2C interface is inhibited.
    pub fn i2c_dis(&self) -> (r: bool)
        ensures
            r == bit(self@, I2C_DIS),
    {
        get_bit(self.0, I2C_DIS)
    }

    /// The frame that writes the register with the inhibition of the I2C
    /// interface set to `value` and every other field as cached: the
    /// sub-address, then the byte.
    pub fn i2c_dis_frame(&self, value: bool) -> (frame: [u8; 2])
        ensures
            frame@ == seq![ADDR, with_bit(self@, I2C_DIS, value)],
    {
        write_frame(ADDR, set_bit(self.0, I2C_DIS, value))
    }

    /// Records the outcome of sending `i2c_dis_frame(value)` to the device: the
    /// cache takes the new byte if the write succeeded and stays as it is if
    /// not. The outcome is handed on as it came.
    pub fn set_i2c_dis<E>(&mut self, value: bool, outcome: Result<(), E>) -> (r: Result<(), E>)
        ensures
            r == outcome,
            final(self)@ == if outcome is Ok {
                with_bit(old(self)@, I2C_DIS, value)
            } else {
                old(self)@
            },
    {
        self.0 = settle(self.0, set_bit(self.0, I2C_DIS, value), &outcome);
        outcome
    }

    /// True if block data update is enabled.
    pub fn bdu(&self) -> (r: bool)
        ensures
            r == bit(self@, BDU),
    {
        get_bit(self.0, BDU)
    }

    /// The frame that writes the register with block data update set to `value`
    /// and every other field as cached: the sub-address, then the byte.
    pub fn bdu_frame(&self, value: bool) -> (frame: [u8; 2])
        ensures
            frame@ == seq![ADDR, with_bit(self@, BDU, value)],
    {
        write_frame(ADDR, set_bit(self.0, BDU, value))
    }

    /// Records the outcome of sending `bdu_frame(value)` to the device: the
    /// cache takes the new byte if the write succeeded and stays as it is if
    /// not. The outcome is handed on as it came.
    pub fn set_bdu<E>(&mut self, value: bool, outcome: Result<(), E>) -> (r: Result<(), E>)
        ensures
            r == outcome,
            final(self)@ == if outcome is Ok {
                with_bit(old(self)@, BDU, value)
            } else {
                old(self)@
            },
    {
        self.0 = settle(self.0, set_bit(self.0, BDU, value), &outcome);
        outcome
    }

    /// True if the low and high parts of the data are swapped.
    pub fn ble(&self) -> (r: bool)
        ensures
            r == bit(self@, BLE),
    {
        get_bit(self.0, BLE)
    }

    /// The frame that writes the register with the swap of low and high parts
    /// set to `value` and every other field as cached: the sub-address, then
    /// the byte.
    pub fn ble_frame(&self, value: bool) -> (frame: [u8; 2])
        ensures
            frame@ == seq![ADDR, with_bit(self@, BLE, value)],
    {
        write_frame(ADDR, set_bit(self.0, BLE, value))
    }

    /// Records the outcome of sending `ble_frame(value)` to the device: the
    /// cache takes the new byte if the write succeeded and stays as it is if
    /// not. The outcome is handed on as it came.
    pub fn set_ble<E>(&mut self, value: bool, outcome: Result<(), E>) -> (r: Result<(), E>)
        ensures
            r == outcome,
            final(self)@ == if outcome is Ok {
                with_bit(old(self)@, BLE, value)
            } else {
                old(self)@
            },
    {
        self.0 = settle(self.0, set_bit(self.0, BLE, value), &outcome);
        outcome
    }

    /// True if the self-test is enabled.
    pub fn self_test(&self) -> (r: bool)
        ensures
            r == bit(self@, SELF_TEST),
    {
        get_bit(self.0, SELF_TEST)
    }

    /// The frame that writes the register with the self-test set to `value` and
    /// every other field as cached: the sub-address, then the byte.
    pub fn self_test_frame(&self, value: bool) -> (frame: [u8; 2])
        ensures
            frame@ == seq![ADDR, with_bit(self@, SELF_TEST, value)],
    {
        write_frame(ADDR, set_bit(self.0, SELF_TEST, value))
    }

    /// Records the outcome of sending `self_test_frame(value)` to the device:
    /// the cache takes the new byte if the write succeeded and stays as it is
    /// if not. The outcome is handed on as it came.
    pub fn set_self_test<E>(&mut self, value: bool, outcome: Result<(), E>) -> (r: Result<(), E>)
        ensures
            r == outcome,
            final(self)@ == if outcome is Ok {
                with_bit(old(self)@, SELF_TEST, value)
            } else {
                old(self)@
            },
    {
        self.0 = settle(self.0, set_bit(self.0, SELF_TEST, value), &outcome);
        outcome
    }

    /// True if the data-ready signal is driven on the pin.
    pub fn drdy_on_pin(&self) -> (r: bool)
        ensures
            r == bit(self@, DRDY_ON_PIN),
    {
        get_bit(self.0, DRDY_ON_PIN)
    }

    /// The frame that writes the register with the data-ready signal on the pin
    /// set to `value` and every other field as cached: the sub-address, then
    /// the byte.
    pub fn drdy_on_pin_frame(&self, value: bool) -> (frame: [u8; 2])
        ensures
            frame@ == seq![ADDR, with_bit(self@, DRDY_ON_PIN, value)],
    {
        write_frame(ADDR, set_bit(self.0, DRDY_ON_PIN, value))
    }

    /// Records the outcome of sending `drdy_on_pin_frame(value)` to the device:
    /// the cache takes the new byte if the write succeeded and stays as it is
    /// if not. The outcome is handed on as it came.
    pub fn set_drdy_on_pin<E>(&mut self, value: bool, outcome: Result<(), E>) -> (r: Result<(), E>)
        ensures
            r == outcome,
            final(self)@ == if outcome is Ok {
                with_bit(old(self)@, DRDY_ON_PIN, value)
            } else {
                old(self)@
            },
    {
        self.0 = settle(self.0, set_bit(self.0, DRDY_ON_PIN, value), &outcome);
        outcome
    }
}

} // verus!
