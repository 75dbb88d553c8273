//! Register-level driver core for the IIS2MDC three-axis magnetometer.
//!
//! The sensor sits on a two-wire bus and is driven through three
//! configuration registers and two groups of output registers. This crate
//! holds everything the driver decides: which byte goes to which register
//! when a field changes, what a byte read from a register means, and what a
//! reading of the output registers amounts to. It performs no bus transaction
//! itself. Each operation that needs one is given what the transaction
//! returned, the bytes or the error of the bus, and the error is always
//! handed on as it came.

use vstd::prelude::*;
use crate::cfg_reg_a::CfgRegA;
use crate::cfg_reg_b::CfgRegB;
use crate::cfg_reg_c::CfgRegC;
use crate::output::{decode_field, decode_temperature, temperature, word};

pub mod bits;
pub mod cfg_reg_a;
pub mod cfg_reg_b;
pub mod cfg_reg_c;
pub mod output;
pub mod register;

verus! {

/// Seven-bit bus address on which the sensor answers.
pub const I2C_ADDRESS: u8 = 0x1eu8;

/// The sensor, as far as the driver knows it: the cached copies of its three
/// configuration registers.
pub struct Iis2mdc {
    pub cfg_reg_a: CfgRegA,
    pub cfg_reg_b: CfgRegB,
    pub cfg_reg_c: CfgRegC,
}

impl Iis2mdc {
    /// Builds the sensor from one burst read of three bytes that starts at
    /// configuration register A; the device steps through B and C by itself.
    /// If the read failed there is no sensor, only the error of the bus.
    pub fn new<E>(reply: Result<[u8; 3], E>) -> (r: Result<Iis2mdc, E>)
        ensures
            match reply {
                Ok(registers) => r matches Ok(sensor) && sensor.cfg_reg_a@ == registers[0]
                    && sensor.cfg_reg_b@ == registers[1] && sensor.cfg_reg_c@ == registers[2],
                Err(e) => r matches Err(f) && f == e,
            },
    {
        match reply {
            Ok(registers) => {
                let cfg_reg_a = CfgRegA::new(registers[0]);
                let cfg_reg_b = CfgRegB::new(registers[1]);
                let cfg_reg_c = CfgRegC::new(registers[2]);
                Ok(Iis2mdc { cfg_reg_a, cfg_reg_b, cfg_reg_c })
            },
            Err(e) => Err(e),
        }
    }

    /// The temperature in steps of 1/256 degree Celsius, from a read of two
    /// bytes that starts at the temperature output, or the error of the bus.
    /// Nothing is cached: every call decodes the reading it is given.
    pub fn get_temperature<E>(&self, reply: Result<[u8; 2], E>) -> (r: Result<i32, E>)
        ensures
            match reply {
                Ok(reading) => r matches Ok(steps) && steps == temperature(reading[0], reading[1]),
                Err(e) => r matches Err(f) && f == e,
            },
    {
        match reply {
            Ok(reading) => Ok(decode_temperature(reading)),
            Err(e) => Err(e),
        }
    }

    /// The raw counts of the X, Y and Z axes, from a read of six bytes that
    /// starts at the X output, or the error of the bus. The counts are not
    /// scaled to a physical unit.
    pub fn get_measurements<E>(&self, reply: Result<[u8; 6], E>) -> (r: Result<[i16; 3], E>)
        ensures
            match reply {
                Ok(reading) => r matches Ok(counts) && counts[0] == word(reading[0], reading[1])
                    && counts[1] == word(reading[2], reading[3]) && counts[2] == word(
                    reading[4],
                    reading[5],
                ),
                Err(e) => r matches Err(f) && f == e,
            },
    {
        match reply {
            Ok(reading) => Ok(decode_field(reading)),
            Err(e) => Err(e),
        }
    }
}

} // verus!
