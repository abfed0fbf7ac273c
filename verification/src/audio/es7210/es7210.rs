//! The ES7210 driver proper: what it writes to the chip, and in which order.

use vstd::prelude::*;

use crate::audio::es7210::enums::MicGain;
use crate::audio::es7210::reg::{
    ES7210_ADC12_HPF2_REG_20, ES7210_ADC12_HPF2_REG_21, ES7210_ADC12_HPF2_REG_22,
    ES7210_ADC12_HPF2_REG_23, ES7210_ANALOG_REG_40, ES7210_ANALOG_REG_41, ES7210_ANALOG_REG_42,
    ES7210_CLOCK_OFF_REG_01, ES7210_INPUT_MIC_ALL, ES7210_MAINCLK_REG_02,
    ES7210_MIC12_POWER_DOWN_REG_4B, ES7210_MIC1_GAIN_REG_43, ES7210_MIC1_POWER_REG_47,
    ES7210_MIC2_GAIN_REG_44, ES7210_MIC2_POWER_REG_48, ES7210_MIC34_POWER_DOWN_REG_4C,
    ES7210_MIC3_GAIN_REG_45, ES7210_MIC3_POWER_REG_49, ES7210_MIC4_GAIN_REG_46,
    ES7210_MIC4_POWER_REG_4A, ES7210_MODE_CONFIG_REG_08, ES7210_OSR_REG_07,
    ES7210_POWER_DOWN_REG_06, ES7210_RESET_REG_00, ES7210_SDP_INTERFACE2_REG_12,
    ES7210_TIME_CONTROL0_REG_09, ES7210_TIME_CONTROL0_REG_0A,
};
use crate::common::i2c::{
    answered, broken_off, continues, extended_by, lemma_broken_off_at_once,
    lemma_broken_off_within, lemma_continues_itself, lemma_continues_twice,
    lemma_extended_by_nothing,
    lemma_extended_by_both, lemma_extended_by_step, lemma_update_done, op_done, read_register,
    read_request, register_read, register_write, run_program, untouched, update_broken_off,
    write_register, write_request, I2cBus, Records, RegOp, Request, TracedBus, Transfer,
};
use crate::utils::bits::update_bit;

verus! {

/// The bus address of the chip.
pub const ADDR: u8 = 0x18;

/// The bus address that `open` pokes before it touches the chip.
pub const WAKE_ADDR: u8 = 0x01;

/// Why a driver call failed.
#[derive(Debug)]
pub enum Error<E> {
    /// The bus reported `E`.
    I2c(E),
    /// None of the four microphone inputs was selected.
    InvalidMicInputMode,
}

/// Driver state for one ES7210 on the bus `I2C`.
pub struct Es7210<I2C: I2cBus> {
    i2c: TracedBus<I2C>,
    is_open: bool,
    enabled: bool,
    clock_off_status: u8,
}

/// The bit that stands for microphone `channel` (0 to 3) in a selection.
pub open spec fn channel_bit(channel: u8) -> u8 {
    if channel == 0 {
        0x01
    } else if channel == 1 {
        0x02
    } else if channel == 2 {
        0x04
    } else {
        0x08
    }
}

/// The gain register of microphone `channel` (0 to 3).
pub open spec fn gain_register(channel: u8) -> u8 {
    if channel == 0 {
        ES7210_MIC1_GAIN_REG_43
    } else if channel == 1 {
        ES7210_MIC2_GAIN_REG_44
    } else if channel == 2 {
        ES7210_MIC3_GAIN_REG_45
    } else {
        ES7210_MIC4_GAIN_REG_46
    }
}

/// The clock bits that microphone `channel` needs switched on: microphones
/// 0 and 1 share one converter pair, 2 and 3 the other.
pub open spec fn clock_bits(channel: u8) -> u8 {
    if channel < 2 {
        0x0b
    } else {
        0x15
    }
}

/// The power register of the converter pair that serves `channel`.
pub open spec fn pair_power_register(channel: u8) -> u8 {
    if channel < 2 {
        ES7210_MIC12_POWER_DOWN_REG_4B
    } else {
        ES7210_MIC34_POWER_DOWN_REG_4C
    }
}

/// Whether the selection `input_mics` holds at least one microphone.
pub open spec fn selects_any(input_mics: u8) -> bool {
    input_mics & ES7210_INPUT_MIC_ALL != 0
}

/// Whether the selection `input_mics` holds microphone `channel`.
pub open spec fn selects(input_mics: u8, channel: u8) -> bool {
    input_mics & channel_bit(channel) != 0
}

/// The steps that switch microphone `channel` on, or none if `input_mics`
/// does not hold it: clocks on, pair powered, input selected, gain at zero.
pub open spec fn mic_enable_program(input_mics: u8, channel: u8) -> Seq<RegOp> {
    if selects(input_mics, channel) {
        seq![
            RegOp::Update { reg: ES7210_CLOCK_OFF_REG_01, mask: clock_bits(channel), data: 0x00 },
            RegOp::Write { reg: pair_power_register(channel), value: 0x00 },
            RegOp::Update { reg: gain_register(channel), mask: 0x10, data: 0x10 },
            RegOp::Update { reg: gain_register(channel), mask: 0x0f, data: 0x00 },
        ]
    } else {
        Seq::<RegOp>::empty()
    }
}

/// The steps that deselect all four microphones.
pub open spec fn mic_deselect_program() -> Seq<RegOp> {
    seq![
        RegOp::Update { reg: ES7210_MIC1_GAIN_REG_43, mask: 0x10, data: 0x00 },
        RegOp::Update { reg: ES7210_MIC2_GAIN_REG_44, mask: 0x10, data: 0x00 },
        RegOp::Update { reg: ES7210_MIC3_GAIN_REG_45, mask: 0x10, data: 0x00 },
        RegOp::Update { reg: ES7210_MIC4_GAIN_REG_46, mask: 0x10, data: 0x00 },
    ]
}

/// The whole microphone selection: deselect all, switch on each selected
/// one in turn, then leave time-division mode.
pub open spec fn mic_select_program(input_mics: u8) -> Seq<RegOp> {
    mic_deselect_program() + mic_enable_program(input_mics, 0) + mic_enable_program(input_mics, 1)
        + mic_enable_program(input_mics, 2) + mic_enable_program(input_mics, 3)
        + seq![RegOp::Write { reg: ES7210_SDP_INTERFACE2_REG_12, value: 0x00 }]
}

/// Whether a gain change for the channels in `channel_mask` reaches
/// microphone `channel`: it must be selected and named by the mask.
pub open spec fn gain_applies(input_mics: u8, channel_mask: u8, channel: u8) -> bool {
    (input_mics & channel_bit(channel)) & (channel_mask & channel_bit(channel)) != 0
}

/// The step that sets the gain of microphone `channel`, or none if the
/// change does not reach it.
pub open spec fn gain_step(input_mics: u8, channel_mask: u8, channel: u8, gain: u8) -> Seq<RegOp> {
    if gain_applies(input_mics, channel_mask, channel) {
        seq![RegOp::Update { reg: gain_register(channel), mask: 0x0f, data: gain }]
    } else {
        Seq::<RegOp>::empty()
    }
}

/// The steps that set the gain of every microphone that the change reaches.
pub open spec fn gain_program(input_mics: u8, channel_mask: u8, gain: u8) -> Seq<RegOp> {
    gain_step(input_mics, channel_mask, 0, gain) + gain_step(input_mics, channel_mask, 1, gain)
        + gain_step(input_mics, channel_mask, 2, gain) + gain_step(
        input_mics,
        channel_mask,
        3,
        gain,
    )
}

/// The gain steps of the microphones below `channel`.
pub open spec fn gain_steps_before(
    input_mics: u8,
    channel_mask: u8,
    gain: u8,
    channel: u8,
) -> Seq<RegOp>
    decreases channel,
{
    if channel == 0 {
        Seq::<RegOp>::empty()
    } else {
        gain_steps_before(input_mics, channel_mask, gain, (channel - 1) as u8) + gain_step(
            input_mics,
            channel_mask,
            (channel - 1) as u8,
            gain,
        )
    }
}

/// The step that makes the chip the clock master, or the clock slave.
pub open spec fn master_mode_program(master_mode: bool) -> Seq<RegOp> {
    seq![
        RegOp::Update {
            reg: ES7210_MODE_CONFIG_REG_08,
            mask: 0x01,
            data: if master_mode {
                0x01
            } else {
                0x00
            },
        },
    ]
}

/// The register settings that `open` starts with.
pub open spec fn open_setup_program() -> Seq<RegOp> {
    seq![
        RegOp::Write { reg: ES7210_RESET_REG_00, value: 0xff },
        RegOp::Write { reg: ES7210_RESET_REG_00, value: 0x41 },
        RegOp::Write { reg: ES7210_CLOCK_OFF_REG_01, value: 0x3f },
        RegOp::Write { reg: ES7210_TIME_CONTROL0_REG_09, value: 0x30 },
        RegOp::Write { reg: ES7210_TIME_CONTROL0_REG_0A, value: 0x30 },
        RegOp::Write { reg: ES7210_ADC12_HPF2_REG_20, value: 0x0a },
        RegOp::Write { reg: ES7210_ADC12_HPF2_REG_21, value: 0x2a },
        RegOp::Write { reg: ES7210_ADC12_HPF2_REG_22, value: 0x0a },
        RegOp::Write { reg: ES7210_ADC12_HPF2_REG_23, value: 0x2a },
    ]
}

/// The analog and clock settings that `open` makes once the mode is set.
pub open spec fn open_analog_program() -> Seq<RegOp> {
    seq![
        RegOp::Write { reg: ES7210_ANALOG_REG_40, value: 0x43 },
        RegOp::Write { reg: ES7210_ANALOG_REG_41, value: 0x70 },
        RegOp::Write { reg: ES7210_ANALOG_REG_42, value: 0x70 },
        RegOp::Write { reg: ES7210_OSR_REG_07, value: 0x20 },
        RegOp::Write { reg: ES7210_MAINCLK_REG_02, value: 0xc1 },
    ]
}

/// Everything that `open` does on the chip, in order: setup, slave mode,
/// analog settings, all four microphones selected at 30 dB, and a last read
/// of the clock register.
pub open spec fn open_program() -> Seq<RegOp> {
    open_setup_program() + master_mode_program(false) + open_analog_program()
        + mic_select_program(ES7210_INPUT_MIC_ALL) + gain_program(
        ES7210_INPUT_MIC_ALL,
        0x0F,
        MicGain::Gain30db.spec_value(),
    ) + seq![RegOp::Read { reg: ES7210_CLOCK_OFF_REG_01 }]
}

/// The power-up settings that `start` makes before it selects the
/// microphones; `clock_off` is the clock setting that `open` found.
pub open spec fn start_power_program(clock_off: u8) -> Seq<RegOp> {
    seq![
        RegOp::Write { reg: ES7210_CLOCK_OFF_REG_01, value: clock_off },
        RegOp::Write { reg: ES7210_POWER_DOWN_REG_06, value: 0x00 },
        RegOp::Write { reg: ES7210_ANALOG_REG_40, value: 0x43 },
        RegOp::Write { reg: ES7210_MIC1_POWER_REG_47, value: 0x08 },
        RegOp::Write { reg: ES7210_MIC2_POWER_REG_48, value: 0x08 },
        RegOp::Write { reg: ES7210_MIC3_POWER_REG_49, value: 0x08 },
        RegOp::Write { reg: ES7210_MIC4_POWER_REG_4A, value: 0x08 },
    ]
}

/// The reset pulse that ends `start`.
pub open spec fn start_reset_program() -> Seq<RegOp> {
    seq![
        RegOp::Write { reg: ES7210_ANALOG_REG_40, value: 0x43 },
        RegOp::Write { reg: ES7210_RESET_REG_00, value: 0x71 },
        RegOp::Write { reg: ES7210_RESET_REG_00, value: 0x41 },
    ]
}

/// Everything that `start` does on the chip, in order.
pub open spec fn start_program(clock_off: u8) -> Seq<RegOp> {
    start_power_program(clock_off) + mic_select_program(ES7210_INPUT_MIC_ALL)
        + start_reset_program()
}

/// Everything that `stop` does on the chip, in order: microphones and
/// converter pairs powered down, analog part off, clocks off.
pub open spec fn stop_program() -> Seq<RegOp> {
    seq![
        RegOp::Write { reg: ES7210_MIC1_POWER_REG_47, value: 0xff },
        RegOp::Write { reg: ES7210_MIC2_POWER_REG_48, value: 0xff },
        RegOp::Write { reg: ES7210_MIC3_POWER_REG_49, value: 0xff },
        RegOp::Write { reg: ES7210_MIC4_POWER_REG_4A, value: 0xff },
        RegOp::Write { reg: ES7210_MIC12_POWER_DOWN_REG_4B, value: 0xff },
        RegOp::Write { reg: ES7210_MIC34_POWER_DOWN_REG_4C, value: 0xff },
        RegOp::Write { reg: ES7210_ANALOG_REG_40, value: 0xc0 },
        RegOp::Write { reg: ES7210_CLOCK_OFF_REG_01, value: 0x7f },
        RegOp::Write { reg: ES7210_POWER_DOWN_REG_06, value: 0x07 },
    ]
}

fn channel_bit_of(channel: u8) -> (bit: u8)
    requires
        channel < 4,
    ensures
        bit == channel_bit(channel),
{
    if channel == 0 {
        0x01
    } else if channel == 1 {
        0x02
    } else if channel == 2 {
        0x04
    } else {
        0x08
    }
}

fn gain_register_of(channel: u8) -> (reg: u8)
    requires
        channel < 4,
    ensures
        reg == gain_register(channel),
{
    if channel == 0 {
        ES7210_MIC1_GAIN_REG_43
    } else if channel == 1 {
        ES7210_MIC2_GAIN_REG_44
    } else if channel == 2 {
        ES7210_MIC3_GAIN_REG_45
    } else {
        ES7210_MIC4_GAIN_REG_46
    }
}

/// Appends to `program` the steps that switch microphone `channel` on, if
/// `input_mics` holds it.
fn push_mic_enable(program: &mut Vec<RegOp>, input_mics: u8, channel: u8)
    requires
        channel < 4,
    ensures
        final(program)@ == old(program)@ + mic_enable_program(input_mics, channel),
{
    let ghost before = program@;
    if input_mics & channel_bit_of(channel) != 0 {
        let clock: u8 = if channel < 2 {
            0x0b
        } else {
            0x15
        };
        let power: u8 = if channel < 2 {
            ES7210_MIC12_POWER_DOWN_REG_4B
        } else {
            ES7210_MIC34_POWER_DOWN_REG_4C
        };
        let gain_reg = gain_register_of(channel);
        program.push(RegOp::Update { reg: ES7210_CLOCK_OFF_REG_01, mask: clock, data: 0x00 });
        program.push(RegOp::Write { reg: power, value: 0x00 });
        program.push(RegOp::Update { reg: gain_reg, mask: 0x10, data: 0x10 });
        program.push(RegOp::Update { reg: gain_reg, mask: 0x0f, data: 0x00 });
    }
    assert(program@ =~= before + mic_enable_program(input_mics, channel));
}

fn open_setup() -> (program: Vec<RegOp>)
    ensures
        program@ == open_setup_program(),
{
    let program = vec![
        RegOp::Write { reg: ES7210_RESET_REG_00, value: 0xff },
        RegOp::Write { reg: ES7210_RESET_REG_00, value: 0x41 },
        RegOp::Write { reg: ES7210_CLOCK_OFF_REG_01, value: 0x3f },
        RegOp::Write { reg: ES7210_TIME_CONTROL0_REG_09, value: 0x30 },
        RegOp::Write { reg: ES7210_TIME_CONTROL0_REG_0A, value: 0x30 },
        RegOp::Write { reg: ES7210_ADC12_HPF2_REG_20, value: 0x0a },
        RegOp::Write { reg: ES7210_ADC12_HPF2_REG_21, value: 0x2a },
        RegOp::Write { reg: ES7210_ADC12_HPF2_REG_22, value: 0x0a },
        RegOp::Write { reg: ES7210_ADC12_HPF2_REG_23, value: 0x2a },
    ];
    assert(program@ =~= open_setup_program());
    program
}

fn open_analog() -> (program: Vec<RegOp>)
    ensures
        program@ == open_analog_program(),
{
    let program = vec![
        RegOp::Write { reg: ES7210_ANALOG_REG_40, value: 0x43 },
        RegOp::Write { reg: ES7210_ANALOG_REG_41, value: 0x70 },
        RegOp::Write { reg: ES7210_ANALOG_REG_42, value: 0x70 },
        RegOp::Write { reg: ES7210_OSR_REG_07, value: 0x20 },
        RegOp::Write { reg: ES7210_MAINCLK_REG_02, value: 0xc1 },
    ];
    assert(program@ =~= open_analog_program());
    program
}

fn start_power(clock_off: u8) -> (program: Vec<RegOp>)
    ensures
        program@ == start_power_program(clock_off),
{
    let program = vec![
        RegOp::Write { reg: ES7210_CLOCK_OFF_REG_01, value: clock_off },
        RegOp::Write { reg: ES7210_POWER_DOWN_REG_06, value: 0x00 },
        RegOp::Write { reg: ES7210_ANALOG_REG_40, value: 0x43 },
        RegOp::Write { reg: ES7210_MIC1_POWER_REG_47, value: 0x08 },
        RegOp::Write { reg: ES7210_MIC2_POWER_REG_48, value: 0x08 },
        RegOp::Write { reg: ES7210_MIC3_POWER_REG_49, value: 0x08 },
        RegOp::Write { reg: ES7210_MIC4_POWER_REG_4A, value: 0x08 },
    ];
    assert(program@ =~= start_power_program(clock_off));
    program
}

fn start_reset() -> (program: Vec<RegOp>)
    ensures
        program@ == start_reset_program(),
{
    let program = vec![
        RegOp::Write { reg: ES7210_ANALOG_REG_40, value: 0x43 },
        RegOp::Write { reg: ES7210_RESET_REG_00, value: 0x71 },
        RegOp::Write { reg: ES7210_RESET_REG_00, value: 0x41 },
    ];
    assert(program@ =~= start_reset_program());
    program
}

fn stop_steps() -> (program: Vec<RegOp>)
    ensures
        program@ == stop_program(),
{
    let program = vec![
        RegOp::Write { reg: ES7210_MIC1_POWER_REG_47, value: 0xff },
        RegOp::Write { reg: ES7210_MIC2_POWER_REG_48, value: 0xff },
        RegOp::Write { reg: ES7210_MIC3_POWER_REG_49, value: 0xff },
        RegOp::Write { reg: ES7210_MIC4_POWER_REG_4A, value: 0xff },
        RegOp::Write { reg: ES7210_MIC12_POWER_DOWN_REG_4B, value: 0xff },
        RegOp::Write { reg: ES7210_MIC34_POWER_DOWN_REG_4C, value: 0xff },
        RegOp::Write { reg: ES7210_ANALOG_REG_40, value: 0xc0 },
        RegOp::Write { reg: ES7210_CLOCK_OFF_REG_01, value: 0x7f },
        RegOp::Write { reg: ES7210_POWER_DOWN_REG_06, value: 0x07 },
    ];
    assert(program@ =~= stop_program());
    program
}

impl<I2C: I2cBus> Es7210<I2C> {
    /// Every transaction that completed on the driver's bus, oldest first.
    pub closed spec fn bus_log(&self) -> Seq<Transfer> {
        self.i2c.transfers()
    }

    /// Every transaction that was asked of the driver's bus, completed or
    /// not, oldest first.
    pub closed spec fn bus_requests(&self) -> Seq<Request> {
        self.i2c.requests()
    }

    /// The positions, among the requests, of those that the bus refused.
    pub closed spec fn bus_refused(&self) -> Seq<nat> {
        self.i2c.refused()
    }

    /// The three records of the driver's bus together.
    pub open spec fn bus_records(&self) -> Records {
        Records {
            requests: self.bus_requests(),
            transfers: self.bus_log(),
            refused: self.bus_refused(),
        }
    }

    /// Whether `open` has succeeded on this driver.
    pub closed spec fn spec_is_open(&self) -> bool {
        self.is_open
    }

    /// Whether the input is marked as enabled.
    pub closed spec fn spec_is_enabled(&self) -> bool {
        self.enabled
    }

    /// The clock setting that the last successful `open` read back.
    pub closed spec fn clock_off_status(&self) -> u8 {
        self.clock_off_status
    }

    /// Whether `self` differs from `earlier` in nothing but the history of
    /// the bus.
    pub open spec fn same_state(&self, earlier: &Self) -> bool {
        &&& self.spec_is_open() == earlier.spec_is_open()
        &&& self.spec_is_enabled() == earlier.spec_is_enabled()
        &&& self.clock_off_status() == earlier.clock_off_status()
    }

    /// A driver for the chip on `i2c`. Nothing is sent yet: the chip is
    /// neither open nor enabled.
    pub fn new(i2c: I2C) -> (driver: Self)
        ensures
            driver.bus_log() == Seq::<Transfer>::empty(),
            driver.bus_requests() == Seq::<Request>::empty(),
            driver.bus_refused() == Seq::<nat>::empty(),
            driver.spec_bus() == i2c,
            !driver.spec_is_open(),
            !driver.spec_is_enabled(),
            driver.clock_off_status() == 0,
    {
        Es7210 { i2c: TracedBus::new(i2c), is_open: false, enabled: false, clock_off_status: 0 }
    }

    /// The bus that the driver owns.
    pub closed spec fn spec_bus(&self) -> I2C {
        self.i2c.inner()
    }

    /// The bus, for whoever wants to look at it.
    pub fn bus(&self) -> (bus: &I2C)
        ensures
            *bus == self.spec_bus(),
    {
        self.i2c.bus()
    }

    /// Gives the bus back and ends the driver.
    pub fn release(self) -> (bus: I2C)
        ensures
            bus == self.spec_bus(),
    {
        self.i2c.into_inner()
    }

    /// Stores `value` in register `reg`.
    pub fn write_reg(&mut self, reg: u8, value: u8) -> (result: Result<(), Error<I2C::Error>>)
        ensures
            answered(old(self).bus_records(), final(self).bus_records(), result is Ok),
            final(self).bus_requests() == old(self).bus_requests().push(
                write_request(ADDR, reg, value),
            ),
            final(self).same_state(old(self)),
            result is Ok ==> final(self).bus_log() == old(self).bus_log().push(
                register_write(ADDR, reg, value),
            ),
            result is Err ==> final(self).bus_log() == old(self).bus_log(),
            result matches Err(e) ==> e is I2c,
    {
        match write_register(&mut self.i2c, ADDR, reg, value) {
            Ok(()) => Ok(()),
            Err(e) => Err(Error::I2c(e)),
        }
    }

    /// Reads a single byte from register `reg`.
    pub fn read_reg(&mut self, reg: u8) -> (result: Result<u8, Error<I2C::Error>>)
        ensures
            answered(old(self).bus_records(), final(self).bus_records(), result is Ok),
            final(self).bus_requests() == old(self).bus_requests().push(read_request(ADDR, reg)),
            final(self).same_state(old(self)),
            result matches Ok(value) ==> final(self).bus_log() == old(self).bus_log().push(
                register_read(ADDR, reg, value),
            ),
            result is Err ==> final(self).bus_log() == old(self).bus_log(),
            result matches Err(e) ==> e is I2c,
    {
        match read_register(&mut self.i2c, ADDR, reg) {
            Ok(value) => Ok(value),
            Err(e) => Err(Error::I2c(e)),
        }
    }

    /// Replaces the bits of register `reg_addr` that `update_bits` selects
    /// with those of `data`: one read, then one write of the changed value.
    /// If the read is refused, nothing is written.
    pub fn update_reg_bit(&mut self, reg_addr: u8, update_bits: u8, data: u8) -> (result: Result<
        (),
        Error<I2C::Error>,
    >)
        ensures
            answered(old(self).bus_records(), final(self).bus_records(), result is Ok),
            result is Err ==> update_broken_off(
                old(self).bus_log(),
                final(self).bus_log(),
                ADDR,
                reg_addr,
            ),
            final(self).same_state(old(self)),
            continues(old(self).bus_log(), final(self).bus_log()),
            result is Ok ==> op_done(
                ADDR,
                RegOp::Update { reg: reg_addr, mask: update_bits, data },
                final(self).bus_log().skip(old(self).bus_log().len() as int),
            ),
            result matches Err(e) ==> e is I2c,
    {
        let regv = match self.read_reg(reg_addr) {
            Ok(value) => value,
            Err(e) => {
                proof {
                    lemma_continues_itself(self.bus_log());
                }
                return Err(e);
            },
        };
        let changed = update_bit(regv, update_bits, data);
        let ghost middle = self.bus_log();
        let result = self.write_reg(reg_addr, changed);
        proof {
            lemma_update_done(
                old(self).bus_log(),
                middle,
                self.bus_log(),
                ADDR,
                reg_addr,
                update_bits,
                data,
                regv,
            );
        }
        result
    }

    /// Configures the chip for use: a write that wakes the bus, then the
    /// whole of `open_program`. On success the chip counts as open and the
    /// clock setting read last is kept for `start`. The first transaction
    /// that the bus refuses ends the call: nothing is asked of the bus
    /// after it.
    pub fn open(&mut self) -> (result: Result<(), Error<I2C::Error>>)
        ensures
            result is Err ==> final(self).bus_log() == old(self).bus_log() || broken_off(
                old(self).bus_log().push(
                    Transfer::Write { address: WAKE_ADDR, bytes: seq![0x01u8] },
                ),
                final(self).bus_log(),
                ADDR,
                open_program(),
            ),
            answered(old(self).bus_records(), final(self).bus_records(), result is Ok),
            continues(old(self).bus_log(), final(self).bus_log()),
            final(self).spec_is_enabled() == old(self).spec_is_enabled(),
            result is Ok ==> {
                &&& final(self).spec_is_open()
                &&& extended_by(
                    old(self).bus_log().push(
                        Transfer::Write { address: WAKE_ADDR, bytes: seq![0x01u8] },
                    ),
                    final(self).bus_log(),
                    ADDR,
                    open_program(),
                )
                &&& final(self).bus_log().last() == register_read(
                    ADDR,
                    ES7210_CLOCK_OFF_REG_01,
                    final(self).clock_off_status(),
                )
            },
            result is Err ==> final(self).same_state(old(self)),
            result matches Err(e) ==> e is I2c,
    {
        let ghost before = self.bus_log();
        assert(before.take(before.len() as int) =~= before);
        let wake = [0x01u8];
        assert(wake@ =~= seq![0x01u8]);
        match self.i2c.write(WAKE_ADDR, &wake) {
            Ok(()) => {},
            Err(e) => {
                return Err(Error::I2c(e));
            },
        }
        let ghost woken = self.bus_log();
        assert(woken.take(before.len() as int) =~= before);
        let ghost p_setup = open_setup_program();
        let ghost p_mode = master_mode_program(false);
        let ghost p_analog = open_analog_program();
        let ghost p_select = mic_select_program(ES7210_INPUT_MIC_ALL);
        let ghost p_gain = gain_program(
            ES7210_INPUT_MIC_ALL,
            0x0F,
            MicGain::Gain30db.spec_value(),
        );
        let ghost p_read = seq![RegOp::Read { reg: ES7210_CLOCK_OFF_REG_01 }];
        let setup = open_setup();
        match self.run(setup.as_slice()) {
            Ok(()) => {},
            Err(e) => {
                proof {
                    lemma_continues_twice(before, woken, self.bus_log());
                    lemma_extended_by_nothing(woken, ADDR);
                    let rest = p_mode + p_analog + p_select + p_gain + p_read;
                    lemma_broken_off_within(
                        woken,
                        woken,
                        self.bus_log(),
                        ADDR,
                        Seq::<RegOp>::empty(),
                        p_setup,
                        rest,
                    );
                    assert(Seq::<RegOp>::empty() + p_setup + rest =~= open_program());
                }
                return Err(e);
            },
        }
        let ghost after_setup = self.bus_log();
        match self.set_master_mode(false) {
            Ok(()) => {},
            Err(e) => {
                proof {
                    lemma_continues_twice(woken, after_setup, self.bus_log());
                    lemma_continues_twice(before, woken, self.bus_log());
                    let rest = p_analog + p_select + p_gain + p_read;
                    lemma_broken_off_within(
                        woken,
                        after_setup,
                        self.bus_log(),
                        ADDR,
                        p_setup,
                        p_mode,
                        rest,
                    );
                    assert(p_setup + p_mode + rest =~= open_program());
                }
                return Err(e);
            },
        }
        let ghost after_mode = self.bus_log();
        let analog = open_analog();
        match self.run(analog.as_slice()) {
            Ok(()) => {},
            Err(e) => {
                proof {
                    lemma_extended_by_both(
                        woken,
                        after_setup,
                        after_mode,
                        ADDR,
                        open_setup_program(),
                        master_mode_program(false),
                    );
                    lemma_continues_twice(woken, after_mode, self.bus_log());
                    lemma_continues_twice(before, woken, self.bus_log());
                    let rest = p_select + p_gain + p_read;
                    lemma_broken_off_within(
                        woken,
                        after_mode,
                        self.bus_log(),
                        ADDR,
                        p_setup + p_mode,
                        p_analog,
                        rest,
                    );
                    assert(p_setup + p_mode + p_analog + rest =~= open_program());
                }
                return Err(e);
            },
        }
        let ghost after_analog = self.bus_log();
        proof {
            lemma_extended_by_both(
                woken,
                after_setup,
                after_mode,
                ADDR,
                open_setup_program(),
                master_mode_program(false),
            );
            lemma_extended_by_both(
                woken,
                after_mode,
                after_analog,
                ADDR,
                open_setup_program() + master_mode_program(false),
                open_analog_program(),
            );
            assert(ES7210_INPUT_MIC_ALL & ES7210_INPUT_MIC_ALL != 0) by (bit_vector);
        }
        match self.mic_select(ES7210_INPUT_MIC_ALL) {
            Ok(()) => {},
            Err(e) => {
                proof {
                    lemma_continues_twice(woken, after_analog, self.bus_log());
                    lemma_continues_twice(before, woken, self.bus_log());
                    let rest = p_gain + p_read;
                    lemma_broken_off_within(
                        woken,
                        after_analog,
                        self.bus_log(),
                        ADDR,
                        p_setup + p_mode + p_analog,
                        p_select,
                        rest,
                    );
                    assert(p_setup + p_mode + p_analog + p_select + rest =~= open_program());
                }
                return Err(e);
            },
        }
        let ghost after_select = self.bus_log();
        proof {
            lemma_extended_by_both(
                woken,
                after_analog,
                after_select,
                ADDR,
                open_setup_program() + master_mode_program(false) + open_analog_program(),
                mic_select_program(ES7210_INPUT_MIC_ALL),
            );
        }
        match self.set_channel_gain(ES7210_INPUT_MIC_ALL, 0x0F, MicGain::Gain30db) {
            Ok(()) => {},
            Err(e) => {
                proof {
                    lemma_continues_twice(woken, after_select, self.bus_log());
                    lemma_continues_twice(before, woken, self.bus_log());
                    lemma_broken_off_within(
                        woken,
                        after_select,
                        self.bus_log(),
                        ADDR,
                        p_setup + p_mode + p_analog + p_select,
                        p_gain,
                        p_read,
                    );
                }
                return Err(e);
            },
        }
        let ghost after_gain = self.bus_log();
        let ghost configured = open_setup_program() + master_mode_program(false)
            + open_analog_program() + mic_select_program(ES7210_INPUT_MIC_ALL) + gain_program(
            ES7210_INPUT_MIC_ALL,
            0x0F,
            MicGain::Gain30db.spec_value(),
        );
        proof {
            lemma_extended_by_both(
                woken,
                after_select,
                after_gain,
                ADDR,
                open_setup_program() + master_mode_program(false) + open_analog_program()
                    + mic_select_program(ES7210_INPUT_MIC_ALL),
                gain_program(ES7210_INPUT_MIC_ALL, 0x0F, MicGain::Gain30db.spec_value()),
            );
            lemma_continues_twice(before, woken, after_gain);
        }
        let clock_off = match self.read_reg(ES7210_CLOCK_OFF_REG_01) {
            Ok(value) => value,
            Err(e) => {
                proof {
                    lemma_broken_off_at_once(after_gain, ADDR, p_read);
                    lemma_broken_off_within(
                        woken,
                        after_gain,
                        after_gain,
                        ADDR,
                        configured,
                        p_read,
                        Seq::<RegOp>::empty(),
                    );
                    assert(configured + p_read + Seq::<RegOp>::empty() =~= open_program());
                }
                return Err(e);
            },
        };
        proof {
            let after = self.bus_log();
            assert(after.take(after_gain.len() as int) =~= after_gain);
            let tail = after.skip(after_gain.len() as int);
            assert(tail =~= seq![register_read(ADDR, ES7210_CLOCK_OFF_REG_01, clock_off)]);
            assert(tail[0]->read =~= seq![clock_off]);
            lemma_extended_by_step(
                woken,
                after_gain,
                after,
                ADDR,
                configured,
                RegOp::Read { reg: ES7210_CLOCK_OFF_REG_01 },
            );
            assert(configured.push(RegOp::Read { reg: ES7210_CLOCK_OFF_REG_01 })
                =~= open_program());
            lemma_continues_twice(before, after_gain, after);
        }
        self.clock_off_status = clock_off;
        self.is_open = true;
        Ok(())
    }

    /// Powers the converters up and selects all four microphones: the whole
    /// of `start_program`, with the clock setting that `open` kept.
    pub fn start(&mut self) -> (result: Result<(), Error<I2C::Error>>)
        ensures
            result is Err ==> broken_off(
                old(self).bus_log(),
                final(self).bus_log(),
                ADDR,
                start_program(old(self).clock_off_status()),
            ),
            answered(old(self).bus_records(), final(self).bus_records(), result is Ok),
            final(self).same_state(old(self)),
            continues(old(self).bus_log(), final(self).bus_log()),
            result is Ok ==> extended_by(
                old(self).bus_log(),
                final(self).bus_log(),
                ADDR,
                start_program(old(self).clock_off_status()),
            ),
            result matches Err(e) ==> e is I2c,
    {
        let ghost before = self.bus_log();
        let ghost p_power = start_power_program(self.clock_off_status());
        let ghost p_select = mic_select_program(ES7210_INPUT_MIC_ALL);
        let ghost p_reset = start_reset_program();
        let power = start_power(self.clock_off_status);
        match self.run(power.as_slice()) {
            Ok(()) => {},
            Err(e) => {
                proof {
                    lemma_extended_by_nothing(before, ADDR);
                    lemma_broken_off_within(
                        before,
                        before,
                        self.bus_log(),
                        ADDR,
                        Seq::<RegOp>::empty(),
                        p_power,
                        p_select + p_reset,
                    );
                    assert(Seq::<RegOp>::empty() + p_power + (p_select + p_reset)
                        =~= start_program(self.clock_off_status()));
                }
                return Err(e);
            },
        }
        let ghost powered = self.bus_log();
        proof {
            assert(ES7210_INPUT_MIC_ALL & ES7210_INPUT_MIC_ALL != 0) by (bit_vector);
        }
        match self.mic_select(ES7210_INPUT_MIC_ALL) {
            Ok(()) => {},
            Err(e) => {
                proof {
                    lemma_continues_twice(before, powered, self.bus_log());
                    lemma_broken_off_within(
                        before,
                        powered,
                        self.bus_log(),
                        ADDR,
                        p_power,
                        p_select,
                        p_reset,
                    );
                }
                return Err(e);
            },
        }
        let ghost selected = self.bus_log();
        proof {
            lemma_extended_by_both(
                before,
                powered,
                selected,
                ADDR,
                start_power_program(self.clock_off_status()),
                mic_select_program(ES7210_INPUT_MIC_ALL),
            );
        }
        let reset = start_reset();
        match self.run(reset.as_slice()) {
            Ok(()) => {},
            Err(e) => {
                proof {
                    lemma_continues_twice(before, selected, self.bus_log());
                    lemma_broken_off_within(
                        before,
                        selected,
                        self.bus_log(),
                        ADDR,
                        p_power + p_select,
                        p_reset,
                        Seq::<RegOp>::empty(),
                    );
                    assert(p_power + p_select + p_reset + Seq::<RegOp>::empty()
                        =~= start_program(self.clock_off_status()));
                }
                return Err(e);
            },
        }
        proof {
            lemma_extended_by_both(
                before,
                selected,
                self.bus_log(),
                ADDR,
                start_power_program(self.clock_off_status()) + mic_select_program(
                    ES7210_INPUT_MIC_ALL,
                ),
                start_reset_program(),
            );
        }
        Ok(())
    }

    /// Powers the microphones, the converters and the clocks down: the
    /// whole of `stop_program`.
    pub fn stop(&mut self) -> (result: Result<(), Error<I2C::Error>>)
        ensures
            result is Err ==> broken_off(
                old(self).bus_log(),
                final(self).bus_log(),
                ADDR,
                stop_program(),
            ),
            answered(old(self).bus_records(), final(self).bus_records(), result is Ok),
            final(self).same_state(old(self)),
            continues(old(self).bus_log(), final(self).bus_log()),
            result is Ok ==> extended_by(
                old(self).bus_log(),
                final(self).bus_log(),
                ADDR,
                stop_program(),
            ),
            result matches Err(e) ==> e is I2c,
    {
        let program = stop_steps();
        self.run(program.as_slice())
    }

    /// Marks the input as enabled. Nothing is sent to the chip.
    pub fn enable(&mut self) -> (result: Result<(), Error<I2C::Error>>)
        ensures
            untouched(old(self).bus_records(), final(self).bus_records()),
            result is Ok,
            final(self).spec_is_enabled(),
            final(self).spec_is_open() == old(self).spec_is_open(),
            final(self).clock_off_status() == old(self).clock_off_status(),
            final(self).bus_log() == old(self).bus_log(),
    {
        self.enabled = true;
        Ok(())
    }

    /// Marks the input as disabled. Nothing is sent to the chip.
    pub fn disable(&mut self) -> (result: Result<(), Error<I2C::Error>>)
        ensures
            untouched(old(self).bus_records(), final(self).bus_records()),
            result is Ok,
            !final(self).spec_is_enabled(),
            final(self).spec_is_open() == old(self).spec_is_open(),
            final(self).clock_off_status() == old(self).clock_off_status(),
            final(self).bus_log() == old(self).bus_log(),
    {
        self.enabled = false;
        Ok(())
    }

    /// Whether `open` has succeeded on this driver.
    #[verifier::when_used_as_spec(spec_is_open)]
    pub fn is_open(&self) -> (open: bool)
        ensures
            open == self.spec_is_open(),
    {
        self.is_open
    }

    /// Whether the input is marked as enabled.
    #[verifier::when_used_as_spec(spec_is_enabled)]
    pub fn is_enabled(&self) -> (enabled: bool)
        ensures
            enabled == self.spec_is_enabled(),
    {
        self.enabled
    }

    /// Makes the chip the clock master (`true`) or the clock slave
    /// (`false`): one update of the lowest bit of the mode register.
    pub fn set_master_mode(&mut self, master_mode: bool) -> (result: Result<(), Error<I2C::Error>>)
        ensures
            result is Err ==> broken_off(
                old(self).bus_log(),
                final(self).bus_log(),
                ADDR,
                master_mode_program(master_mode),
            ),
            answered(old(self).bus_records(), final(self).bus_records(), result is Ok),
            final(self).same_state(old(self)),
            continues(old(self).bus_log(), final(self).bus_log()),
            result is Ok ==> extended_by(
                old(self).bus_log(),
                final(self).bus_log(),
                ADDR,
                master_mode_program(master_mode),
            ),
            result matches Err(e) ==> e is I2c,
    {
        let data: u8 = if master_mode {
            0x01
        } else {
            0x00
        };
        let program = [RegOp::Update { reg: ES7210_MODE_CONFIG_REG_08, mask: 0x01, data }];
        assert(program@ =~= master_mode_program(master_mode));
        self.run(&program)
    }

    /// Sets the gain of every microphone that is both selected in
    /// `input_mics` and named in `channel_mask`.
    pub fn set_channel_gain(&mut self, input_mics: u8, channel_mask: u8, gain: MicGain) -> (result:
        Result<(), Error<I2C::Error>>)
        ensures
            result is Err ==> broken_off(
                old(self).bus_log(),
                final(self).bus_log(),
                ADDR,
                gain_program(input_mics, channel_mask, gain.spec_value()),
            ),
            answered(old(self).bus_records(), final(self).bus_records(), result is Ok),
            final(self).same_state(old(self)),
            continues(old(self).bus_log(), final(self).bus_log()),
            result is Ok ==> extended_by(
                old(self).bus_log(),
                final(self).bus_log(),
                ADDR,
                gain_program(input_mics, channel_mask, gain.spec_value()),
            ),
            result matches Err(e) ==> e is I2c,
    {
        let value = gain.value();
        let mut program: Vec<RegOp> = Vec::new();
        let mut channel: u8 = 0;
        while channel < 4
            invariant
                channel <= 4,
                value == gain.spec_value(),
                program@ == gain_steps_before(input_mics, channel_mask, value, channel),
            decreases 4 - channel,
        {
            let ghost before = program@;
            let bit = self.make_channel_mask(channel);
            if (input_mics & bit) & (channel_mask & bit) != 0 {
                let reg = gain_register_of(channel);
                program.push(RegOp::Update { reg, mask: 0x0f, data: value });
            }
            assert(program@ =~= before + gain_step(input_mics, channel_mask, channel, value));
            channel += 1;
        }
        proof {
            reveal_with_fuel(gain_steps_before, 5);
            assert(program@ =~= gain_program(input_mics, channel_mask, value));
        }
        self.run(program.as_slice())
    }

    /// The bit that stands for `channel` in a channel mask.
    pub fn make_channel_mask(&self, channel: u8) -> (mask: u8)
        requires
            channel < 8,
        ensures
            mask == 1u8 << channel,
            channel < 4 ==> mask == channel_bit(channel),
    {
        proof {
            assert(1u8 << 0u8 == 0x01u8) by (bit_vector);
            assert(1u8 << 1u8 == 0x02u8) by (bit_vector);
            assert(1u8 << 2u8 == 0x04u8) by (bit_vector);
            assert(1u8 << 3u8 == 0x08u8) by (bit_vector);
        }
        1u8 << channel
    }

    /// Selects the microphones of `input_mics` as inputs. A selection that
    /// holds none of the four is refused before anything is sent.
    pub fn mic_select(&mut self, input_mics: u8) -> (result: Result<(), Error<I2C::Error>>)
        ensures
            selects_any(input_mics) && result is Err ==> broken_off(
                old(self).bus_log(),
                final(self).bus_log(),
                ADDR,
                mic_select_program(input_mics),
            ),
            !selects_any(input_mics) ==> untouched(old(self).bus_records(), final(self).bus_records()),
            selects_any(input_mics) ==> answered(
                old(self).bus_records(),
                final(self).bus_records(),
                result is Ok,
            ),
            final(self).same_state(old(self)),
            continues(old(self).bus_log(), final(self).bus_log()),
            !selects_any(input_mics) ==> result is Err && result->Err_0 is InvalidMicInputMode
                && final(self).bus_log() == old(self).bus_log(),
            selects_any(input_mics) ==> {
                &&& result is Ok ==> extended_by(
                    old(self).bus_log(),
                    final(self).bus_log(),
                    ADDR,
                    mic_select_program(input_mics),
                )
                &&& result matches Err(e) ==> e is I2c
            },
    {
        if input_mics & ES7210_INPUT_MIC_ALL == 0 {
            let ghost log = self.bus_log();
            assert(log.take(log.len() as int) =~= log);
            return Err(Error::InvalidMicInputMode);
        }
        let mut program: Vec<RegOp> = vec![
            RegOp::Update { reg: ES7210_MIC1_GAIN_REG_43, mask: 0x10, data: 0x00 },
            RegOp::Update { reg: ES7210_MIC2_GAIN_REG_44, mask: 0x10, data: 0x00 },
            RegOp::Update { reg: ES7210_MIC3_GAIN_REG_45, mask: 0x10, data: 0x00 },
            RegOp::Update { reg: ES7210_MIC4_GAIN_REG_46, mask: 0x10, data: 0x00 },
        ];
        assert(program@ =~= mic_deselect_program());
        push_mic_enable(&mut program, input_mics, 0);
        push_mic_enable(&mut program, input_mics, 1);
        push_mic_enable(&mut program, input_mics, 2);
        push_mic_enable(&mut program, input_mics, 3);
        program.push(RegOp::Write { reg: ES7210_SDP_INTERFACE2_REG_12, value: 0x00 });
        assert(program@ =~= mic_select_program(input_mics));
        self.run(program.as_slice())
    }

    /// Runs `program` on the chip, step by step, and stops at the first
    /// step that the bus refuses.
    fn run(&mut self, program: &[RegOp]) -> (result: Result<(), Error<I2C::Error>>)
        ensures
            result is Err ==> broken_off(
                old(self).bus_log(),
                final(self).bus_log(),
                ADDR,
                program@,
            ),
            answered(old(self).bus_records(), final(self).bus_records(), result is Ok),
            final(self).same_state(old(self)),
            continues(old(self).bus_log(), final(self).bus_log()),
            result is Ok ==> extended_by(
                old(self).bus_log(),
                final(self).bus_log(),
                ADDR,
                program@,
            ),
            result matches Err(e) ==> e is I2c,
    {
        match run_program(&mut self.i2c, ADDR, program) {
            Ok(()) => Ok(()),
            Err(e) => Err(Error::I2c(e)),
        }
    }
}

} // verus!
