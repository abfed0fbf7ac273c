//! Small helpers shared by the chip drivers.

pub mod bits;
