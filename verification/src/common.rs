//! Types shared by every component of the device.

pub mod converter;
pub mod enums;
pub mod event;
pub mod i2c;
pub mod simulated_bus;
