//! The sensor's register map and its fixed bus address.
use vstd::prelude::*;

verus! {

/// Seven-bit I2C address of the sensor.
pub const ADDRESS: u8 = 0x5E;

/// Registers of the sensor that hold measurement bytes.
#[allow(non_camel_case_types)]
#[derive(Copy, Clone, Debug, PartialEq, Eq, Structural)]
pub enum Register {
    CO2_MSB,
    CO2_LSB,
    TEMP_MSB,
    TEMP_LSB,
    PRESSURE_MSB,
    PRESSURE_LSB,
}

/// The byte address of a register within the sensor's register space.
pub open spec fn register_address(r: Register) -> u8 {
    match r {
        Register::CO2_MSB => 0x00,
        Register::CO2_LSB => 0x01,
        Register::TEMP_MSB => 0x02,
        Register::TEMP_LSB => 0x03,
        Register::PRESSURE_MSB => 0x06,
        Register::PRESSURE_LSB => 0x07,
    }
}

impl Register {
    /// Get register address.
    pub fn addr(&self) -> (a: u8)
        ensures
            a == register_address(*self),
    {
        match self {
            Register::CO2_MSB => 0x00,
            Register::CO2_LSB => 0x01,
            Register::TEMP_MSB => 0x02,
            Register::TEMP_LSB => 0x03,
            Register::PRESSURE_MSB => 0x06,
            Register::PRESSURE_LSB => 0x07,
        }
    }
}

/// Distinct registers have distinct addresses, so no two named registers
/// alias the same byte of the sensor.
pub proof fn lemma_register_addresses_distinct(a: Register, b: Register)
    ensures
        a != b ==> register_address(a) != register_address(b),
{
}

} // verus!
