//! The driver value and the three quantities the sensor measures.
use vstd::prelude::*;

use crate::reading::{signed_word, PairRead, Request, Step};
use crate::register::{register_address, Register, ADDRESS};

verus! {

/// A physical quantity measured by the sensor.
#[derive(Copy, Clone, Debug, PartialEq, Eq, Structural)]
pub enum Quantity {
    /// Temperature in degrees Celsius.
    Temperature,
    /// CO2 concentration in ppm.
    Co2,
    /// Pressure in hPa.
    Pressure,
}

impl Quantity {
    /// The registers that hold this quantity's high and low bytes.
    pub open spec fn spec_registers(self) -> (Register, Register) {
        match self {
            Quantity::Temperature => (Register::TEMP_MSB, Register::TEMP_LSB),
            Quantity::Co2 => (Register::CO2_MSB, Register::CO2_LSB),
            Quantity::Pressure => (Register::PRESSURE_MSB, Register::PRESSURE_LSB),
        }
    }

    /// The number the raw reading is divided by to give the quantity in its
    /// unit.
    pub open spec fn spec_divisor(self) -> u8 {
        match self {
            Quantity::Temperature => 100,
            Quantity::Co2 => 1,
            Quantity::Pressure => 10,
        }
    }

    /// The high-byte and low-byte registers of this quantity.
    pub fn registers(&self) -> (r: (Register, Register))
        ensures
            r == self.spec_registers(),
    {
        match self {
            Quantity::Temperature => (Register::TEMP_MSB, Register::TEMP_LSB),
            Quantity::Co2 => (Register::CO2_MSB, Register::CO2_LSB),
            Quantity::Pressure => (Register::PRESSURE_MSB, Register::PRESSURE_LSB),
        }
    }

    /// The scale divisor: the quantity in its unit is the raw reading divided
    /// by this number.
    pub fn divisor(&self) -> (d: u8)
        ensures
            d == self.spec_divisor(),
    {
        match self {
            Quantity::Temperature => 100,
            Quantity::Co2 => 1,
            Quantity::Pressure => 10,
        }
    }

    /// Starts the read of this quantity's raw word.
    pub fn start(&self) -> (s: PairRead)
        ensures
            s == (PairRead::AwaitingMsb { msb: self.spec_registers().0, lsb: self.spec_registers().1 }),
    {
        let (msb, lsb) = self.registers();
        PairRead::new(msb, lsb)
    }
}

/// EE895 device driver: owns the I2C bus handle it talks through.
pub struct EE895<I2C> {
    /// The concrete I2C device implementation.
    pub i2c: I2C,
}

impl<I2C> EE895<I2C> {
    /// Creates a new driver from an I2C peripheral. No bus traffic takes
    /// place; the result is always `Ok`.
    pub fn new<E>(i2c: I2C) -> (r: Result<Self, E>)
        ensures
            r matches Ok(d) && d.i2c == i2c,
    {
        Ok(EE895 { i2c })
    }
}

/// A read whose first transaction fails ends there with that error: no
/// transaction is asked for the low byte.
pub proof fn lemma_msb_error_ends_read<E>(msb: Register, lsb: Register, e: E)
    ensures
        (PairRead::AwaitingMsb { msb, lsb }).spec_next(Err::<u8, E>(e)) == Step::<E>::Finished(
            Err(e),
        ),
{
}

/// A read whose low-byte transaction fails ends with that error, whatever
/// high byte was read before.
pub proof fn lemma_lsb_error_ends_read<E>(lsb: Register, high: u8, e: E)
    ensures
        (PairRead::AwaitingLsb { lsb, high }).spec_next(Err::<u8, E>(e)) == Step::<E>::Finished(
            Err(e),
        ),
{
}

/// A successful read of quantity `q` is exactly two transactions, both to
/// the sensor's address: first its high-byte register, then its low-byte
/// register. It then finishes with the two reply bytes combined as a signed
/// big-endian word.
pub proof fn lemma_successful_read<E>(q: Quantity, msb: u8, lsb: u8)
    ensures
        ({
            let (reg_msb, reg_lsb) = q.spec_registers();
            let first = PairRead::AwaitingMsb { msb: reg_msb, lsb: reg_lsb };
            let second = PairRead::AwaitingLsb { lsb: reg_lsb, high: msb };
            &&& first.spec_request() == (Request {
                address: ADDRESS,
                register: register_address(reg_msb),
            })
            &&& first.spec_next(Ok::<u8, E>(msb)) == Step::<E>::Continue(second)
            &&& second.spec_request() == (Request {
                address: ADDRESS,
                register: register_address(reg_lsb),
            })
            &&& second.spec_next(Ok::<u8, E>(lsb)) matches Step::Finished(Ok(raw))
                && raw as int == signed_word(msb, lsb)
        }),
{
}

} // verus!
