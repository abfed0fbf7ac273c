//! Register addresses and bit masks of the ES7210.

use vstd::prelude::*;

verus! {

pub const ES7210_RESET_REG_00: u8 = 0x00;

pub const ES7210_CLOCK_OFF_REG_01: u8 = 0x01;

pub const ES7210_MAINCLK_REG_02: u8 = 0x02;

pub const ES7210_POWER_DOWN_REG_06: u8 = 0x06;

pub const ES7210_OSR_REG_07: u8 = 0x07;

pub const ES7210_MODE_CONFIG_REG_08: u8 = 0x08;

pub const ES7210_TIME_CONTROL0_REG_09: u8 = 0x09;

pub const ES7210_TIME_CONTROL0_REG_0A: u8 = 0x0A;

pub const ES7210_SDP_INTERFACE2_REG_12: u8 = 0x12;

pub const ES7210_ADC12_HPF2_REG_20: u8 = 0x20;

pub const ES7210_ADC12_HPF2_REG_21: u8 = 0x21;

pub const ES7210_ADC12_HPF2_REG_22: u8 = 0x22;

pub const ES7210_ADC12_HPF2_REG_23: u8 = 0x23;

pub const ES7210_ANALOG_REG_40: u8 = 0x40;

pub const ES7210_ANALOG_REG_41: u8 = 0x41;

pub const ES7210_ANALOG_REG_42: u8 = 0x42;

pub const ES7210_MIC1_GAIN_REG_43: u8 = 0x43;

pub const ES7210_MIC2_GAIN_REG_44: u8 = 0x44;

pub const ES7210_MIC3_GAIN_REG_45: u8 = 0x45;

pub const ES7210_MIC4_GAIN_REG_46: u8 = 0x46;

pub const ES7210_MIC1_POWER_REG_47: u8 = 0x47;

pub const ES7210_MIC2_POWER_REG_48: u8 = 0x48;

pub const ES7210_MIC3_POWER_REG_49: u8 = 0x49;

pub const ES7210_MIC4_POWER_REG_4A: u8 = 0x4A;

pub const ES7210_MIC12_POWER_REG_4B: u8 = 0x4B;

pub const ES7210_MIC34_POWER_REG_4C: u8 = 0x4C;

pub const ES7210_MIC12_POWER_DOWN_REG_4B: u8 = 0x4B;

pub const ES7210_MIC34_POWER_DOWN_REG_4C: u8 = 0x4C;

pub const ES7210_INPUT_MIC1: u8 = 0x01;

pub const ES7210_INPUT_MIC2: u8 = 0x02;

pub const ES7210_INPUT_MIC3: u8 = 0x04;

pub const ES7210_INPUT_MIC4: u8 = 0x08;

/// All four microphone inputs together.
pub const ES7210_INPUT_MIC_ALL: u8 = 0x0F;

} // verus!
