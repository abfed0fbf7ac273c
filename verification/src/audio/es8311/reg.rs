//! Register addresses of the ES8311.

use vstd::prelude::*;

verus! {

pub const ES8311_RESET_REG_00: u8 = 0x00;

pub const ES8311_CLK_MANAGER_REG_01: u8 = 0x01;

pub const ES8311_CLK_MANAGER_REG_02: u8 = 0x02;

pub const ES8311_CLK_MANAGER_REG_03: u8 = 0x03;

pub const ES8311_CLOCK_MANAGER_REG_04: u8 = 0x04;

pub const ES8311_CLOCK_MANAGER_REG_05: u8 = 0x05;

pub const ES8311_CLOCK_MANAGER_REG_06: u8 = 0x06;

pub const ES8311_GPIO_REG: u8 = 0x07;

pub const ES8311_MASTER_MODE_REG: u8 = 0x08;

pub const ES8311_SDPIN_REG_09: u8 = 0x09;

pub const ES8311_SDPOUT_REG_0A: u8 = 0x0A;

pub const ES8311_SYSTEM_REG_0B: u8 = 0x0B;

pub const ES8311_SYSTEM_REG_0C: u8 = 0x0C;

pub const ES8311_SYSTEM_REG_0D: u8 = 0x0D;

pub const ES8311_SYSTEM_REG_0E: u8 = 0x0E;

pub const ES8311_SYSTEM_REG_10: u8 = 0x10;

pub const ES8311_SYSTEM_REG_11: u8 = 0x11;

pub const ES8311_SYSTEM_REG_12: u8 = 0x12;

pub const ES8311_SYSTEM_REG_13: u8 = 0x13;

pub const ES8311_SYSTEM_REG_14: u8 = 0x14;

pub const ES8311_ADC_REG_15: u8 = 0x15;

pub const ES8311_ADC_REG_16: u8 = 0x16;

pub const ES8311_ADC_REG_17: u8 = 0x17;

pub const ES8311_ADC_REG_1B: u8 = 0x1B;

pub const ES8311_ADC_REG_1C: u8 = 0x1C;

pub const ES8311_ADC_REG17: u8 = 0x17;

pub const ES8311_DAC_VOLUME_REG_32: u8 = 0x32;

pub const ES8311_DAC_REG_37: u8 = 0x37;

pub const ES8311_GPIO_REG_44: u8 = 0x44;

pub const ES8311_GP_REG_45: u8 = 0x45;

} // verus!
