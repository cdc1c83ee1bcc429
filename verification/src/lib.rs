//! Verified core of a Modbus bridge between a PV inverter and a heat pump.
pub mod registers;
pub mod heatpump;
pub mod retry;
pub mod stream;
pub mod session;
pub mod words;
