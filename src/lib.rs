//! Driver logic for the EE895 CO2, pressure and temperature sensor.
//!
//! The sensor is read over I2C with the simplified protocol: each measurement
//! sits in two single-byte registers (high byte, low byte), each fetched by one
//! write-then-read transaction to the fixed device address. This crate holds
//! the verified parts of that exchange: the register map, the order of the
//! transactions and how their replies are combined into a signed raw word.
//! Performing the transactions on a bus, and scaling the raw word to a
//! floating-point value, is left to the embedding application.
pub mod driver;
pub mod reading;
pub mod register;
