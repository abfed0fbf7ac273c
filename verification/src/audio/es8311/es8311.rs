//! The ES8311 driver proper: what it writes to the chip, and in which order.

use vstd::prelude::*;

use crate::audio::es8311::reg::{
    ES8311_ADC_REG17, ES8311_ADC_REG_15, ES8311_ADC_REG_16, ES8311_ADC_REG_17,
    ES8311_ADC_REG_1B, ES8311_ADC_REG_1C, ES8311_CLK_MANAGER_REG_01, ES8311_CLK_MANAGER_REG_02,
    ES8311_CLK_MANAGER_REG_03, ES8311_CLOCK_MANAGER_REG_04, ES8311_CLOCK_MANAGER_REG_05,
    ES8311_CLOCK_MANAGER_REG_06, ES8311_DAC_REG_37, ES8311_DAC_VOLUME_REG_32,
    ES8311_GPIO_REG_44, ES8311_GP_REG_45, ES8311_RESET_REG_00, ES8311_SDPIN_REG_09,
    ES8311_SDPOUT_REG_0A, ES8311_SYSTEM_REG_0B, ES8311_SYSTEM_REG_0C, ES8311_SYSTEM_REG_0D,
    ES8311_SYSTEM_REG_0E, ES8311_SYSTEM_REG_10, ES8311_SYSTEM_REG_11, ES8311_SYSTEM_REG_12,
    ES8311_SYSTEM_REG_13, ES8311_SYSTEM_REG_14,
};
use crate::common::i2c::{
    answered, broken_off, continues, extended_by, lemma_broken_off_at_once,
    lemma_broken_off_within, lemma_continues_itself, lemma_continues_twice,
    lemma_extended_by_both, lemma_extended_by_nothing, lemma_extended_by_step, read_register,
    read_request, reads_register, register_read, register_write, run_program,
    write_register, write_request, DelayUs, I2cBus, Records, RegOp, Request, TracedBus,
    Transfer,
};

verus! {

/// The bus address of the chip.
pub const ADDR: u8 = 0x18;

/// The volume, in percent, that `init` sets.
pub const INITIAL_VOLUME: u8 = 50;

/// The volume, in percent, that `set_mute(false)` goes back to.
pub const UNMUTED_VOLUME: u8 = 20;

/// How long `init` waits after its first write, in microseconds.
pub const RESET_DELAY_US: u32 = 50_000;

/// Driver state for one ES8311 on the bus `I2C`.
pub struct Es8311<I2C: I2cBus> {
    i2c: TracedBus<I2C>,
    is_open: bool,
}

/// The loudest volume, in percent; a louder one counts as this.
pub const MAX_VOLUME: u8 = 100;

/// The volume that is set when `volume` percent is asked for: the same, but
/// never more than 100.
pub open spec fn clamped_volume(volume: u8) -> u8 {
    if volume > MAX_VOLUME {
        MAX_VOLUME
    } else {
        volume
    }
}

/// The value of the volume register for `volume` percent: 255 hundredths of
/// the volume, rounded down, where a volume above 100 counts as 100.
pub open spec fn volume_register(volume: u8) -> u8 {
    (255 * clamped_volume(volume) / 100) as u8
}

/// The volume in percent that `set_mute` sets.
pub open spec fn mute_volume(mute: bool) -> u8 {
    if mute {
        0
    } else {
        UNMUTED_VOLUME
    }
}

/// The step that sets the playback volume to `volume` percent.
pub open spec fn volume_program(volume: u8) -> Seq<RegOp> {
    seq![RegOp::Write { reg: ES8311_DAC_VOLUME_REG_32, value: volume_register(volume) }]
}

/// The step that makes the chip the clock master, or the clock slave.
pub open spec fn master_mode_program(master_mode: bool) -> Seq<RegOp> {
    seq![
        RegOp::Update {
            reg: ES8311_RESET_REG_00,
            mask: 0x40,
            data: if master_mode {
                0x40
            } else {
                0x00
            },
        },
    ]
}

/// The step that selects where the master clock comes from: the clock pin
/// (`true`) or the bit clock.
pub open spec fn mclk_source_program(use_mclk: bool) -> Seq<RegOp> {
    seq![
        RegOp::Write {
            reg: ES8311_CLK_MANAGER_REG_01,
            value: if use_mclk {
                0x3F
            } else {
                0xBF
            },
        },
    ]
}

/// The step that inverts the master clock, or not.
pub open spec fn invert_mclk_program(invert: bool) -> Seq<RegOp> {
    seq![
        RegOp::Update {
            reg: ES8311_CLK_MANAGER_REG_01,
            mask: 0x40,
            data: if invert {
                0x40
            } else {
                0x00
            },
        },
    ]
}

/// The step that inverts the bit clock, or not.
pub open spec fn invert_sclk_program(invert: bool) -> Seq<RegOp> {
    seq![
        RegOp::Update {
            reg: ES8311_CLOCK_MANAGER_REG_06,
            mask: 0x20,
            data: if invert {
                0x20
            } else {
                0x00
            },
        },
    ]
}

/// The clock setup that `init` and `enable` share: master clock from the
/// pin, neither clock inverted.
pub open spec fn clock_program() -> Seq<RegOp> {
    mclk_source_program(true) + invert_mclk_program(false) + invert_sclk_program(false)
}

/// The write that `init` makes before it waits.
pub open spec fn init_reset_program() -> Seq<RegOp> {
    seq![RegOp::Write { reg: ES8311_GPIO_REG_44, value: 0x08 }]
}

/// The clock and power settings that `init` makes after the wait.
pub open spec fn init_setup_program() -> Seq<RegOp> {
    seq![
        RegOp::Write { reg: ES8311_GPIO_REG_44, value: 0x08 },
        RegOp::Write { reg: ES8311_CLK_MANAGER_REG_01, value: 0x30 },
        RegOp::Write { reg: ES8311_CLK_MANAGER_REG_02, value: 0x00 },
        RegOp::Write { reg: ES8311_CLK_MANAGER_REG_03, value: 0x10 },
        RegOp::Write { reg: ES8311_ADC_REG_16, value: 0x24 },
        RegOp::Write { reg: ES8311_CLOCK_MANAGER_REG_04, value: 0x10 },
        RegOp::Write { reg: ES8311_CLOCK_MANAGER_REG_05, value: 0x00 },
        RegOp::Write { reg: ES8311_SYSTEM_REG_0B, value: 0x00 },
        RegOp::Write { reg: ES8311_SYSTEM_REG_0C, value: 0x00 },
        RegOp::Write { reg: ES8311_SYSTEM_REG_10, value: 0x1F },
        RegOp::Write { reg: ES8311_SYSTEM_REG_11, value: 0x7F },
        RegOp::Write { reg: ES8311_RESET_REG_00, value: 0x80 },
    ]
}

/// The output settings that `init` makes once the clocks are set.
pub open spec fn init_output_program() -> Seq<RegOp> {
    seq![
        RegOp::Write { reg: ES8311_SYSTEM_REG_13, value: 0x10 },
        RegOp::Write { reg: ES8311_ADC_REG_1B, value: 0x0A },
        RegOp::Write { reg: ES8311_ADC_REG_1C, value: 0x6A },
        RegOp::Write { reg: ES8311_GPIO_REG_44, value: 0x58 },
    ]
}

/// Everything that `init` does on the chip, in order.
pub open spec fn init_program() -> Seq<RegOp> {
    init_reset_program() + init_setup_program() + master_mode_program(false) + clock_program()
        + init_output_program() + volume_program(INITIAL_VOLUME)
}

/// The power-up settings that end `enable`.
pub open spec fn enable_power_program() -> Seq<RegOp> {
    seq![
        RegOp::Write { reg: ES8311_ADC_REG17, value: 0xBF },
        RegOp::Write { reg: ES8311_SYSTEM_REG_0E, value: 0x02 },
        RegOp::Write { reg: ES8311_SYSTEM_REG_12, value: 0x00 },
        RegOp::Write { reg: ES8311_SYSTEM_REG_14, value: 0x1A },
        RegOp::Update { reg: ES8311_SYSTEM_REG_14, mask: 0x40, data: 0x00 },
        RegOp::Write { reg: ES8311_SYSTEM_REG_0D, value: 0x01 },
        RegOp::Write { reg: ES8311_ADC_REG_15, value: 0x40 },
        RegOp::Write { reg: ES8311_DAC_REG_37, value: 0x08 },
        RegOp::Write { reg: ES8311_GP_REG_45, value: 0x00 },
    ]
}

/// The value that `enable` writes to the output interface register when it
/// found `found` there: unmuted, with bits 1 and 2 set.
pub open spec fn output_interface(found: u8) -> u8 {
    (found & 0xBF) | 0x06
}

/// Whether `transfers` are the four transactions with which `enable` sets
/// the two serial interfaces: both registers read, then the input one set
/// to 16-bit samples and the output one unmuted.
pub open spec fn interfaces_set(transfers: Seq<Transfer>) -> bool {
    &&& transfers.len() == 4
    &&& reads_register(transfers[0], ADDR, ES8311_SDPIN_REG_09)
    &&& reads_register(transfers[1], ADDR, ES8311_SDPOUT_REG_0A)
    &&& transfers[2] == register_write(ADDR, ES8311_SDPIN_REG_09, 0x0C)
    &&& transfers[3] == register_write(
        ADDR,
        ES8311_SDPOUT_REG_0A,
        output_interface(transfers[1]->read[0]),
    )
}

/// Whether the history `after` is `before` followed by an attempt to make
/// the chip the clock slave: the whole update, or what came through of it
/// before the bus refused.
pub open spec fn slave_mode_attempted(before: Seq<Transfer>, after: Seq<Transfer>) -> bool {
    &&& continues(before, after)
    &&& {
        ||| after == before
        ||| after.len() == before.len() + 1 && reads_register(
            after.last(),
            ADDR,
            ES8311_RESET_REG_00,
        )
        ||| extended_by(before, after, ADDR, master_mode_program(false))
    }
}

/// Whether the five histories are the stages of a successful `enable`:
/// from `before`, the attempt at slave mode leads to `attempted`, the clock
/// setup to `clocked`, the four transactions on the serial interfaces to
/// `interfaced`, and the power-up settings to `after`.
pub open spec fn enable_stages(
    before: Seq<Transfer>,
    attempted: Seq<Transfer>,
    clocked: Seq<Transfer>,
    interfaced: Seq<Transfer>,
    after: Seq<Transfer>,
) -> bool {
    &&& slave_mode_attempted(before, attempted)
    &&& extended_by(attempted, clocked, ADDR, clock_program())
    &&& continues(clocked, interfaced)
    &&& interfaces_set(interfaced.skip(clocked.len() as int))
    &&& extended_by(interfaced, after, ADDR, enable_power_program())
}

/// Whether the history `after` is `before` followed by everything that a
/// successful `enable` does on the chip: the attempt at slave mode, whose
/// outcome is not looked at, the clock setup, the serial interfaces and the
/// power-up settings.
pub open spec fn enabled_from(before: Seq<Transfer>, after: Seq<Transfer>) -> bool {
    exists|attempted: Seq<Transfer>, clocked: Seq<Transfer>, interfaced: Seq<Transfer>|
        enable_stages(before, attempted, clocked, interfaced, after)
}

/// Whether the history `after` is `before` followed by a start of the four
/// transactions on the serial interfaces that the bus broke off: fewer
/// than four of them, in their order.
pub open spec fn interfaces_broken_off(before: Seq<Transfer>, after: Seq<Transfer>) -> bool {
    let done = after.skip(before.len() as int);
    &&& continues(before, after)
    &&& done.len() < 4
    &&& done.len() >= 1 ==> reads_register(done[0], ADDR, ES8311_SDPIN_REG_09)
    &&& done.len() >= 2 ==> reads_register(done[1], ADDR, ES8311_SDPOUT_REG_0A)
    &&& done.len() >= 3 ==> done[2] == register_write(ADDR, ES8311_SDPIN_REG_09, 0x0C)
}

/// Whether the five histories are the stages of an `enable` that the bus
/// broke off: from `before`, the attempt at slave mode leads to
/// `attempted`; then the clock setup was broken off, or it led to
/// `clocked` and the transactions on the serial interfaces were broken
/// off, or they led to `interfaced` and the power-up settings were broken
/// off. What the bus completed last is in `after`.
pub open spec fn enable_broken_stages(
    before: Seq<Transfer>,
    attempted: Seq<Transfer>,
    clocked: Seq<Transfer>,
    interfaced: Seq<Transfer>,
    after: Seq<Transfer>,
) -> bool {
    &&& slave_mode_attempted(before, attempted)
    &&& {
        ||| broken_off(attempted, after, ADDR, clock_program())
        ||| {
            &&& extended_by(attempted, clocked, ADDR, clock_program())
            &&& interfaces_broken_off(clocked, after)
        }
        ||| {
            &&& extended_by(attempted, clocked, ADDR, clock_program())
            &&& continues(clocked, interfaced)
            &&& interfaces_set(interfaced.skip(clocked.len() as int))
            &&& broken_off(interfaced, after, ADDR, enable_power_program())
        }
    }
}

/// Whether the history `after` is `before` followed by what the bus
/// completed of an `enable` that it broke off after the attempt at slave
/// mode.
pub open spec fn enable_broken_off(before: Seq<Transfer>, after: Seq<Transfer>) -> bool {
    exists|attempted: Seq<Transfer>, clocked: Seq<Transfer>, interfaced: Seq<Transfer>|
        enable_broken_stages(before, attempted, clocked, interfaced, after)
}

/// Whether, from `before` to `after`, the bus was used as `enable` uses it.
/// The attempt at slave mode comes first, and a transaction that the bus
/// refuses during it does not end the call. After it, the first refused
/// transaction does: nothing is asked of the bus after that one. Every
/// transaction that was not refused was completed.
pub open spec fn answered_after_attempt(before: Records, after: Records, ok: bool) -> bool {
    let last_counts: int = if ok {
        0
    } else {
        1
    };
    let kept = if ok {
        after.refused
    } else {
        after.refused.drop_last()
    };
    &&& after.requests.len() - before.requests.len() == after.transfers.len()
        - before.transfers.len() + after.refused.len() - before.refused.len()
    &&& after.refused.len() >= before.refused.len() + last_counts
    &&& !ok ==> after.refused.last() == after.requests.len() - 1
    &&& kept == before.refused || (kept.len() == before.refused.len() + 1 && kept.drop_last()
        == before.refused)
}

/// An attempt whose outcome is passed over, followed by a call that ends
/// at its first refusal, uses the bus as `enable` does.
pub proof fn lemma_attempt_then(
    before: Records,
    tried: Records,
    after: Records,
    attempt_ok: bool,
    ok: bool,
)
    requires
        answered(before, tried, attempt_ok),
        answered(tried, after, ok),
    ensures
        answered_after_attempt(before, after, ok),
{
    let kept = if ok {
        after.refused
    } else {
        after.refused.drop_last()
    };
    if !ok {
        assert(tried.refused.push((after.requests.len() - 1) as nat).drop_last()
            =~= tried.refused);
    }
    assert(kept == tried.refused);
    if !attempt_ok {
        assert(before.refused.push((tried.requests.len() - 1) as nat).drop_last()
            =~= before.refused);
    }
}

/// Everything that `suspend` does on the chip, in order: volumes down,
/// converters and references off, clocks off.
pub open spec fn suspend_program() -> Seq<RegOp> {
    seq![
        RegOp::Write { reg: ES8311_DAC_VOLUME_REG_32, value: 0x00 },
        RegOp::Write { reg: ES8311_ADC_REG_17, value: 0x00 },
        RegOp::Write { reg: ES8311_SYSTEM_REG_0E, value: 0xFF },
        RegOp::Write { reg: ES8311_SYSTEM_REG_12, value: 0x02 },
        RegOp::Write { reg: ES8311_SYSTEM_REG_14, value: 0x00 },
        RegOp::Write { reg: ES8311_SYSTEM_REG_0D, value: 0xFA },
        RegOp::Write { reg: ES8311_ADC_REG_15, value: 0x00 },
        RegOp::Write { reg: ES8311_CLK_MANAGER_REG_02, value: 0x10 },
        RegOp::Write { reg: ES8311_RESET_REG_00, value: 0x00 },
        RegOp::Write { reg: ES8311_RESET_REG_00, value: 0x1F },
        RegOp::Write { reg: ES8311_CLK_MANAGER_REG_01, value: 0x30 },
        RegOp::Write { reg: ES8311_CLK_MANAGER_REG_01, value: 0x00 },
        RegOp::Write { reg: ES8311_GP_REG_45, value: 0x00 },
        RegOp::Write { reg: ES8311_SYSTEM_REG_0D, value: 0xFC },
        RegOp::Write { reg: ES8311_CLK_MANAGER_REG_02, value: 0x00 },
    ]
}

/// What `close` does on the chip: the whole of `suspend_program` if the
/// chip was open, nothing otherwise.
pub open spec fn close_program(was_open: bool) -> Seq<RegOp> {
    if was_open {
        suspend_program()
    } else {
        Seq::<RegOp>::empty()
    }
}

fn init_setup() -> (program: Vec<RegOp>)
    ensures
        program@ == init_setup_program(),
{
    let program = vec![
        RegOp::Write { reg: ES8311_GPIO_REG_44, value: 0x08 },
        RegOp::Write { reg: ES8311_CLK_MANAGER_REG_01, value: 0x30 },
        RegOp::Write { reg: ES8311_CLK_MANAGER_REG_02, value: 0x00 },
        RegOp::Write { reg: ES8311_CLK_MANAGER_REG_03, value: 0x10 },
        RegOp::Write { reg: ES8311_ADC_REG_16, value: 0x24 },
        RegOp::Write { reg: ES8311_CLOCK_MANAGER_REG_04, value: 0x10 },
        RegOp::Write { reg: ES8311_CLOCK_MANAGER_REG_05, value: 0x00 },
        RegOp::Write { reg: ES8311_SYSTEM_REG_0B, value: 0x00 },
        RegOp::Write { reg: ES8311_SYSTEM_REG_0C, value: 0x00 },
        RegOp::Write { reg: ES8311_SYSTEM_REG_10, value: 0x1F },
        RegOp::Write { reg: ES8311_SYSTEM_REG_11, value: 0x7F },
        RegOp::Write { reg: ES8311_RESET_REG_00, value: 0x80 },
    ];
    assert(program@ =~= init_setup_program());
    program
}

fn init_output() -> (program: Vec<RegOp>)
    ensures
        program@ == init_output_program(),
{
    let program = vec![
        RegOp::Write { reg: ES8311_SYSTEM_REG_13, value: 0x10 },
        RegOp::Write { reg: ES8311_ADC_REG_1B, value: 0x0A },
        RegOp::Write { reg: ES8311_ADC_REG_1C, value: 0x6A },
        RegOp::Write { reg: ES8311_GPIO_REG_44, value: 0x58 },
    ];
    assert(program@ =~= init_output_program());
    program
}

fn enable_power() -> (program: Vec<RegOp>)
    ensures
        program@ == enable_power_program(),
{
    let program = vec![
        RegOp::Write { reg: ES8311_ADC_REG17, value: 0xBF },
        RegOp::Write { reg: ES8311_SYSTEM_REG_0E, value: 0x02 },
        RegOp::Write { reg: ES8311_SYSTEM_REG_12, value: 0x00 },
        RegOp::Write { reg: ES8311_SYSTEM_REG_14, value: 0x1A },
        RegOp::Update { reg: ES8311_SYSTEM_REG_14, mask: 0x40, data: 0x00 },
        RegOp::Write { reg: ES8311_SYSTEM_REG_0D, value: 0x01 },
        RegOp::Write { reg: ES8311_ADC_REG_15, value: 0x40 },
        RegOp::Write { reg: ES8311_DAC_REG_37, value: 0x08 },
        RegOp::Write { reg: ES8311_GP_REG_45, value: 0x00 },
    ];
    assert(program@ =~= enable_power_program());
    program
}

fn suspend_steps() -> (program: Vec<RegOp>)
    ensures
        program@ == suspend_program(),
{
    let program = vec![
        RegOp::Write { reg: ES8311_DAC_VOLUME_REG_32, value: 0x00 },
        RegOp::Write { reg: ES8311_ADC_REG_17, value: 0x00 },
        RegOp::Write { reg: ES8311_SYSTEM_REG_0E, value: 0xFF },
        RegOp::Write { reg: ES8311_SYSTEM_REG_12, value: 0x02 },
        RegOp::Write { reg: ES8311_SYSTEM_REG_14, value: 0x00 },
        RegOp::Write { reg: ES8311_SYSTEM_REG_0D, value: 0xFA },
        RegOp::Write { reg: ES8311_ADC_REG_15, value: 0x00 },
        RegOp::Write { reg: ES8311_CLK_MANAGER_REG_02, value: 0x10 },
        RegOp::Write { reg: ES8311_RESET_REG_00, value: 0x00 },
        RegOp::Write { reg: ES8311_RESET_REG_00, value: 0x1F },
        RegOp::Write { reg: ES8311_CLK_MANAGER_REG_01, value: 0x30 },
        RegOp::Write { reg: ES8311_CLK_MANAGER_REG_01, value: 0x00 },
        RegOp::Write { reg: ES8311_GP_REG_45, value: 0x00 },
        RegOp::Write { reg: ES8311_SYSTEM_REG_0D, value: 0xFC },
        RegOp::Write { reg: ES8311_CLK_MANAGER_REG_02, value: 0x00 },
    ];
    assert(program@ =~= suspend_program());
    program
}

/// The volume register value for `volume` percent.
pub fn volume_register_of(volume: u8) -> (value: u8)
    ensures
        value == volume_register(volume),
        volume <= 100 ==> value == 255 * volume / 100,
        volume >= 100 ==> value == 255,
{
    let percent: u8 = if volume > MAX_VOLUME {
        MAX_VOLUME
    } else {
        volume
    };
    let scaled: u16 = 255u16 * (percent as u16) / 100u16;
    scaled as u8
}

impl<I2C: I2cBus> Es8311<I2C> {
    /// Every transaction that completed on the driver's bus, oldest first.
    pub closed spec fn bus_log(&self) -> Seq<Transfer> {
        self.i2c.transfers()
    }

    /// Every transaction that was asked of the driver's bus, completed or
    /// not, oldest first.
    pub closed spec fn bus_requests(&self) -> Seq<Request> {
        self.i2c.requests()
    }

    /// The positions, among the requests, of those that the bus refused.
    pub closed spec fn bus_refused(&self) -> Seq<nat> {
        self.i2c.refused()
    }

    /// The three records of the driver's bus together.
    pub open spec fn bus_records(&self) -> Records {
        Records {
            requests: self.bus_requests(),
            transfers: self.bus_log(),
            refused: self.bus_refused(),
        }
    }

    /// Whether `enable` has succeeded since the last `close`.
    pub closed spec fn spec_is_open(&self) -> bool {
        self.is_open
    }

    /// A driver for the chip on `i2c`. Nothing is sent yet, and the chip is
    /// not open.
    pub fn new(i2c: I2C) -> (driver: Self)
        ensures
            driver.bus_log() == Seq::<Transfer>::empty(),
            driver.bus_requests() == Seq::<Request>::empty(),
            driver.bus_refused() == Seq::<nat>::empty(),
            driver.spec_bus() == i2c,
            !driver.spec_is_open(),
    {
        Es8311 { i2c: TracedBus::new(i2c), is_open: false }
    }

    /// The bus that the driver owns.
    pub closed spec fn spec_bus(&self) -> I2C {
        self.i2c.inner()
    }

    /// The bus, for whoever wants to look at it.
    pub fn bus(&self) -> (bus: &I2C)
        ensures
            *bus == self.spec_bus(),
    {
        self.i2c.bus()
    }

    /// Gives the bus back and ends the driver.
    pub fn release(self) -> (bus: I2C)
        ensures
            bus == self.spec_bus(),
    {
        self.i2c.into_inner()
    }

    /// Whether `enable` has succeeded since the last `close`.
    #[verifier::when_used_as_spec(spec_is_open)]
    pub fn is_open(&self) -> (open: bool)
        ensures
            open == self.spec_is_open(),
    {
        self.is_open
    }

    /// Runs `program` on the chip and stops at the first step that the bus
    /// refuses.
    fn run(&mut self, program: &[RegOp]) -> (result: Result<(), I2C::Error>)
        ensures
            result is Err ==> broken_off(
                old(self).bus_log(),
                final(self).bus_log(),
                ADDR,
                program@,
            ),
            answered(old(self).bus_records(), final(self).bus_records(), result is Ok),
            final(self).spec_is_open() == old(self).spec_is_open(),
            continues(old(self).bus_log(), final(self).bus_log()),
            result is Ok ==> extended_by(
                old(self).bus_log(),
                final(self).bus_log(),
                ADDR,
                program@,
            ),
    {
        run_program(&mut self.i2c, ADDR, program)
    }

    /// Stores `value` in register `reg`: one write of the register's
    /// number and the value is asked of the bus, and what the bus answers
    /// is the result.
    pub fn write_reg(&mut self, reg: u8, value: u8) -> (result: Result<(), I2C::Error>)
        ensures
            answered(old(self).bus_records(), final(self).bus_records(), result is Ok),
            final(self).spec_is_open() == old(self).spec_is_open(),
            final(self).bus_requests() == old(self).bus_requests().push(
                write_request(ADDR, reg, value),
            ),
            result is Ok ==> final(self).bus_log() == old(self).bus_log().push(
                register_write(ADDR, reg, value),
            ),
            result is Err ==> final(self).bus_log() == old(self).bus_log(),
    {
        write_register(&mut self.i2c, ADDR, reg, value)
    }

    /// Reads a single byte from register `reg`: one read of a byte after
    /// the register's number is asked of the bus. If the bus completes it,
    /// the result is the byte read; otherwise it is the error of the bus.
    pub fn read_u8(&mut self, reg: u8) -> (result: Result<u8, I2C::Error>)
        ensures
            answered(old(self).bus_records(), final(self).bus_records(), result is Ok),
            final(self).spec_is_open() == old(self).spec_is_open(),
            final(self).bus_requests() == old(self).bus_requests().push(
                read_request(ADDR, reg),
            ),
            result matches Ok(value) ==> final(self).bus_log() == old(self).bus_log().push(
                register_read(ADDR, reg, value),
            ),
            result is Err ==> final(self).bus_log() == old(self).bus_log(),
    {
        read_register(&mut self.i2c, ADDR, reg)
    }

    /// Sets the playback volume to `volume` percent of full scale; a volume
    /// above 100 sets full scale.
    pub fn set_voice_volume(&mut self, volume: u8) -> (result: Result<(), I2C::Error>)
        ensures
            result is Err ==> broken_off(
                old(self).bus_log(),
                final(self).bus_log(),
                ADDR,
                volume_program(volume),
            ),
            answered(old(self).bus_records(), final(self).bus_records(), result is Ok),
            final(self).spec_is_open() == old(self).spec_is_open(),
            continues(old(self).bus_log(), final(self).bus_log()),
            result is Ok ==> extended_by(
                old(self).bus_log(),
                final(self).bus_log(),
                ADDR,
                volume_program(volume),
            ),
            result is Err ==> final(self).bus_log() == old(self).bus_log(),
    {
        let ghost before = self.bus_log();
        let value = volume_register_of(volume);
        let result = self.write_reg(ES8311_DAC_VOLUME_REG_32, value);
        proof {
            lemma_continues_itself(before);
            if result is Err {
                lemma_broken_off_at_once(before, ADDR, volume_program(volume));
            }
            if result is Ok {
                let after = self.bus_log();
                lemma_extended_by_nothing(before, ADDR);
                assert(after.take(before.len() as int) =~= before);
                assert(after.skip(before.len() as int) =~= seq![
                    register_write(ADDR, ES8311_DAC_VOLUME_REG_32, value),
                ]);
                lemma_extended_by_step(
                    before,
                    before,
                    after,
                    ADDR,
                    Seq::<RegOp>::empty(),
                    RegOp::Write { reg: ES8311_DAC_VOLUME_REG_32, value },
                );
                assert(Seq::<RegOp>::empty().push(
                    RegOp::Write { reg: ES8311_DAC_VOLUME_REG_32, value },
                ) =~= volume_program(volume));
            }
        }
        result
    }

    /// Mutes the output (`true`: volume 0) or unmutes it (`false`: volume
    /// 20 percent).
    pub fn set_mute(&mut self, mute: bool) -> (result: Result<(), I2C::Error>)
        ensures
            result is Err ==> broken_off(
                old(self).bus_log(),
                final(self).bus_log(),
                ADDR,
                volume_program(mute_volume(mute)),
            ),
            answered(old(self).bus_records(), final(self).bus_records(), result is Ok),
            final(self).spec_is_open() == old(self).spec_is_open(),
            continues(old(self).bus_log(), final(self).bus_log()),
            result is Ok ==> extended_by(
                old(self).bus_log(),
                final(self).bus_log(),
                ADDR,
                volume_program(mute_volume(mute)),
            ),
            result is Err ==> final(self).bus_log() == old(self).bus_log(),
    {
        if mute {
            self.set_voice_volume(0)
        } else {
            self.set_voice_volume(UNMUTED_VOLUME)
        }
    }

    /// Makes the chip the clock master (`true`) or the clock slave
    /// (`false`): one update of bit 6 of the reset register.
    pub fn set_master_mode(&mut self, master_mode: bool) -> (result: Result<(), I2C::Error>)
        ensures
            result is Err ==> broken_off(
                old(self).bus_log(),
                final(self).bus_log(),
                ADDR,
                master_mode_program(master_mode),
            ),
            answered(old(self).bus_records(), final(self).bus_records(), result is Ok),
            final(self).spec_is_open() == old(self).spec_is_open(),
            continues(old(self).bus_log(), final(self).bus_log()),
            result is Ok ==> extended_by(
                old(self).bus_log(),
                final(self).bus_log(),
                ADDR,
                master_mode_program(master_mode),
            ),
            result is Err ==> final(self).bus_log() == old(self).bus_log()
                || final(self).bus_log().len() == old(self).bus_log().len() + 1
                && reads_register(final(self).bus_log().last(), ADDR, ES8311_RESET_REG_00),
    {
        let ghost before = self.bus_log();
        let found = match self.read_u8(ES8311_RESET_REG_00) {
            Ok(value) => value,
            Err(e) => {
                proof {
                    lemma_continues_itself(before);
                    lemma_broken_off_at_once(before, ADDR, master_mode_program(master_mode));
                }
                return Err(e);
            },
        };
        let ghost middle = self.bus_log();
        let data: u8 = if master_mode {
            0x40
        } else {
            0x00
        };
        let changed = crate::utils::bits::update_bit(found, 0x40, data);
        let result = self.write_reg(ES8311_RESET_REG_00, changed);
        proof {
            crate::common::i2c::lemma_update_done(
                before,
                middle,
                self.bus_log(),
                ADDR,
                ES8311_RESET_REG_00,
                0x40,
                data,
                found,
            );
            assert(middle.last()->read =~= seq![found]);
            if result is Err {
                let program = master_mode_program(master_mode);
                let whole = self.bus_log().skip(before.len() as int);
                assert(program.take(0) =~= Seq::<RegOp>::empty());
                assert(whole.drop_last().len() == 0);
                assert(whole.last() == middle.last());
                assert(crate::common::i2c::broken_at(ADDR, program, whole, 0));
            }
            if result is Ok {
                lemma_extended_by_nothing(before, ADDR);
                lemma_extended_by_step(
                    before,
                    before,
                    self.bus_log(),
                    ADDR,
                    Seq::<RegOp>::empty(),
                    RegOp::Update { reg: ES8311_RESET_REG_00, mask: 0x40, data },
                );
                assert(Seq::<RegOp>::empty().push(
                    RegOp::Update { reg: ES8311_RESET_REG_00, mask: 0x40, data },
                ) =~= master_mode_program(master_mode));
            }
        }
        result
    }

    /// Inverts the master clock (`true`) or not (`false`).
    pub fn set_invert_mclk(&mut self, invert: bool) -> (result: Result<(), I2C::Error>)
        ensures
            result is Err ==> broken_off(
                old(self).bus_log(),
                final(self).bus_log(),
                ADDR,
                invert_mclk_program(invert),
            ),
            answered(old(self).bus_records(), final(self).bus_records(), result is Ok),
            final(self).spec_is_open() == old(self).spec_is_open(),
            continues(old(self).bus_log(), final(self).bus_log()),
            result is Ok ==> extended_by(
                old(self).bus_log(),
                final(self).bus_log(),
                ADDR,
                invert_mclk_program(invert),
            ),
    {
        let data: u8 = if invert {
            0x40
        } else {
            0x00
        };
        let program = [RegOp::Update { reg: ES8311_CLK_MANAGER_REG_01, mask: 0x40, data }];
        assert(program@ =~= invert_mclk_program(invert));
        self.run(&program)
    }

    /// Inverts the bit clock (`true`) or not (`false`).
    pub fn set_invert_sclk(&mut self, invert: bool) -> (result: Result<(), I2C::Error>)
        ensures
            result is Err ==> broken_off(
                old(self).bus_log(),
                final(self).bus_log(),
                ADDR,
                invert_sclk_program(invert),
            ),
            answered(old(self).bus_records(), final(self).bus_records(), result is Ok),
            final(self).spec_is_open() == old(self).spec_is_open(),
            continues(old(self).bus_log(), final(self).bus_log()),
            result is Ok ==> extended_by(
                old(self).bus_log(),
                final(self).bus_log(),
                ADDR,
                invert_sclk_program(invert),
            ),
    {
        let data: u8 = if invert {
            0x20
        } else {
            0x00
        };
        let program = [RegOp::Update { reg: ES8311_CLOCK_MANAGER_REG_06, mask: 0x20, data }];
        assert(program@ =~= invert_sclk_program(invert));
        self.run(&program)
    }

    /// Takes the master clock from the clock pin (`true`) or from the bit
    /// clock (`false`).
    pub fn configure_mclk_source(&mut self, use_mclk: bool) -> (result: Result<(), I2C::Error>)
        ensures
            result is Err ==> broken_off(
                old(self).bus_log(),
                final(self).bus_log(),
                ADDR,
                mclk_source_program(use_mclk),
            ),
            answered(old(self).bus_records(), final(self).bus_records(), result is Ok),
            final(self).spec_is_open() == old(self).spec_is_open(),
            continues(old(self).bus_log(), final(self).bus_log()),
            result is Ok ==> extended_by(
                old(self).bus_log(),
                final(self).bus_log(),
                ADDR,
                mclk_source_program(use_mclk),
            ),
    {
        let value: u8 = if use_mclk {
            0x3F
        } else {
            0xBF
        };
        let program = [RegOp::Write { reg: ES8311_CLK_MANAGER_REG_01, value }];
        assert(program@ =~= mclk_source_program(use_mclk));
        self.run(&program)
    }

    /// Switches the power amplifier. The amplifier's supply is not under
    /// this chip's control, so nothing is sent.
    pub fn pa_power(&self, enable: bool) -> (result: Result<(), I2C::Error>)
        ensures
            result is Ok,
    {
        let _ = enable;
        Ok(())
    }

    /// The clock setup that `init` and `enable` share.
    fn set_clocks(&mut self) -> (result: Result<(), I2C::Error>)
        ensures
            result is Err ==> broken_off(
                old(self).bus_log(),
                final(self).bus_log(),
                ADDR,
                clock_program(),
            ),
            answered(old(self).bus_records(), final(self).bus_records(), result is Ok),
            final(self).spec_is_open() == old(self).spec_is_open(),
            continues(old(self).bus_log(), final(self).bus_log()),
            result is Ok ==> extended_by(
                old(self).bus_log(),
                final(self).bus_log(),
                ADDR,
                clock_program(),
            ),
    {
        let ghost before = self.bus_log();
        let ghost p_source = mclk_source_program(true);
        let ghost p_mclk = invert_mclk_program(false);
        let ghost p_sclk = invert_sclk_program(false);
        match self.configure_mclk_source(true) {
            Ok(()) => {},
            Err(e) => {
                proof {
                    lemma_extended_by_nothing(before, ADDR);
                    lemma_broken_off_within(
                        before,
                        before,
                        self.bus_log(),
                        ADDR,
                        Seq::<RegOp>::empty(),
                        p_source,
                        p_mclk + p_sclk,
                    );
                    assert(Seq::<RegOp>::empty() + p_source + (p_mclk + p_sclk)
                        =~= clock_program());
                }
                return Err(e);
            },
        }
        let ghost sourced = self.bus_log();
        match self.set_invert_mclk(false) {
            Ok(()) => {},
            Err(e) => {
                proof {
                    lemma_continues_twice(before, sourced, self.bus_log());
                    lemma_broken_off_within(
                        before,
                        sourced,
                        self.bus_log(),
                        ADDR,
                        p_source,
                        p_mclk,
                        p_sclk,
                    );
                }
                return Err(e);
            },
        }
        let ghost master = self.bus_log();
        proof {
            lemma_extended_by_both(
                before,
                sourced,
                master,
                ADDR,
                mclk_source_program(true),
                invert_mclk_program(false),
            );
        }
        match self.set_invert_sclk(false) {
            Ok(()) => {},
            Err(e) => {
                proof {
                    lemma_continues_twice(before, master, self.bus_log());
                    lemma_broken_off_within(
                        before,
                        master,
                        self.bus_log(),
                        ADDR,
                        p_source + p_mclk,
                        p_sclk,
                        Seq::<RegOp>::empty(),
                    );
                    assert(p_source + p_mclk + p_sclk + Seq::<RegOp>::empty()
                        =~= clock_program());
                }
                return Err(e);
            },
        }
        proof {
            lemma_extended_by_both(
                before,
                master,
                self.bus_log(),
                ADDR,
                mclk_source_program(true) + invert_mclk_program(false),
                invert_sclk_program(false),
            );
        }
        Ok(())
    }

    /// Brings the chip into its configured state: the whole of
    /// `init_program`, with a pause of 50 ms after the first write.
    pub fn init<D: DelayUs>(&mut self, delay: &mut D) -> (result: Result<(), I2C::Error>)
        ensures
            result is Err ==> broken_off(
                old(self).bus_log(),
                final(self).bus_log(),
                ADDR,
                init_program(),
            ),
            answered(old(self).bus_records(), final(self).bus_records(), result is Ok),
            final(self).spec_is_open() == old(self).spec_is_open(),
            continues(old(self).bus_log(), final(self).bus_log()),
            result is Ok ==> extended_by(
                old(self).bus_log(),
                final(self).bus_log(),
                ADDR,
                init_program(),
            ),
    {
        let ghost before = self.bus_log();
        let reset = [RegOp::Write { reg: ES8311_GPIO_REG_44, value: 0x08 }];
        assert(reset@ =~= init_reset_program());
        let ghost q_reset = init_reset_program();
        let ghost q_setup = init_setup_program();
        let ghost q_mode = master_mode_program(false);
        let ghost q_clock = clock_program();
        let ghost q_output = init_output_program();
        let ghost q_volume = volume_program(INITIAL_VOLUME);
        match self.run(&reset) {
            Ok(()) => {},
            Err(e) => {
                proof {
                    lemma_extended_by_nothing(before, ADDR);
                    let rest = q_setup + q_mode + q_clock + q_output + q_volume;
                    lemma_broken_off_within(
                        before,
                        before,
                        self.bus_log(),
                        ADDR,
                        Seq::<RegOp>::empty(),
                        q_reset,
                        rest,
                    );
                    assert(Seq::<RegOp>::empty() + q_reset + rest =~= init_program());
                }
                return Err(e);
            },
        }
        let ghost s1 = self.bus_log();
        delay.delay_us(RESET_DELAY_US);
        let setup = init_setup();
        match self.run(setup.as_slice()) {
            Ok(()) => {},
            Err(e) => {
                proof {
                    lemma_continues_twice(before, s1, self.bus_log());
                    lemma_broken_off_within(
                        before,
                        s1,
                        self.bus_log(),
                        ADDR,
                        q_reset,
                        q_setup,
                        q_mode + q_clock + q_output + q_volume,
                    );
                    assert(q_reset + q_setup + (q_mode + q_clock + q_output + q_volume) =~= init_program());
                }
                return Err(e);
            },
        }
        let ghost s2 = self.bus_log();
        let ghost p2 = init_reset_program() + init_setup_program();
        proof {
            lemma_extended_by_both(
                before,
                s1,
                s2,
                ADDR,
                init_reset_program(),
                init_setup_program(),
            );
        }
        match self.set_master_mode(false) {
            Ok(()) => {},
            Err(e) => {
                proof {
                    lemma_continues_twice(before, s2, self.bus_log());
                    lemma_broken_off_within(
                        before,
                        s2,
                        self.bus_log(),
                        ADDR,
                        q_reset + q_setup,
                        q_mode,
                        q_clock + q_output + q_volume,
                    );
                    assert(q_reset + q_setup + q_mode + (q_clock + q_output + q_volume) =~= init_program());
                }
                return Err(e);
            },
        }
        let ghost s3 = self.bus_log();
        let ghost p3 = p2 + master_mode_program(false);
        proof {
            lemma_extended_by_both(before, s2, s3, ADDR, p2, master_mode_program(false));
        }
        match self.set_clocks() {
            Ok(()) => {},
            Err(e) => {
                proof {
                    lemma_continues_twice(before, s3, self.bus_log());
                    lemma_broken_off_within(
                        before,
                        s3,
                        self.bus_log(),
                        ADDR,
                        q_reset + q_setup + q_mode,
                        q_clock,
                        q_output + q_volume,
                    );
                    assert(q_reset + q_setup + q_mode + q_clock + (q_output + q_volume) =~= init_program());
                }
                return Err(e);
            },
        }
        let ghost s4 = self.bus_log();
        let ghost p4 = p3 + clock_program();
        proof {
            lemma_extended_by_both(before, s3, s4, ADDR, p3, clock_program());
        }
        let output = init_output();
        match self.run(output.as_slice()) {
            Ok(()) => {},
            Err(e) => {
                proof {
                    lemma_continues_twice(before, s4, self.bus_log());
                    lemma_broken_off_within(
                        before,
                        s4,
                        self.bus_log(),
                        ADDR,
                        q_reset + q_setup + q_mode + q_clock,
                        q_output,
                        q_volume,
                    );
                    assert(q_reset + q_setup + q_mode + q_clock + q_output + (q_volume) =~= init_program());
                }
                return Err(e);
            },
        }
        let ghost s5 = self.bus_log();
        let ghost p5 = p4 + init_output_program();
        proof {
            lemma_extended_by_both(before, s4, s5, ADDR, p4, init_output_program());
        }
        match self.set_voice_volume(INITIAL_VOLUME) {
            Ok(()) => {},
            Err(e) => {
                proof {
                    lemma_continues_twice(before, s5, self.bus_log());
                    lemma_broken_off_within(
                        before,
                        s5,
                        self.bus_log(),
                        ADDR,
                        q_reset + q_setup + q_mode + q_clock + q_output,
                        q_volume,
                        Seq::<RegOp>::empty(),
                    );
                    assert(q_reset + q_setup + q_mode + q_clock + q_output + q_volume + (Seq::<
                        RegOp,
                    >::empty()) =~= init_program());
                }
                return Err(e);
            },
        }
        proof {
            lemma_extended_by_both(
                before,
                s5,
                self.bus_log(),
                ADDR,
                p5,
                volume_program(INITIAL_VOLUME),
            );
        }
        Ok(())
    }

    /// Starts the chip: slave mode is attempted, the clocks are set, both
    /// serial interfaces are configured and the converters are powered up.
    /// On success the chip counts as open. A refusal during the attempt at
    /// slave mode is passed over; the first refusal after it ends the call.
    pub fn enable(&mut self) -> (result: Result<(), I2C::Error>)
        ensures
            answered_after_attempt(
                old(self).bus_records(),
                final(self).bus_records(),
                result is Ok,
            ),
            continues(old(self).bus_log(), final(self).bus_log()),
            result is Ok ==> final(self).spec_is_open() && enabled_from(
                old(self).bus_log(),
                final(self).bus_log(),
            ),
            result is Err ==> final(self).spec_is_open() == old(self).spec_is_open()
                && enable_broken_off(old(self).bus_log(), final(self).bus_log()),
    {
        let ghost before = self.bus_log();
        let ghost entry = self.bus_records();
        let attempt = self.set_master_mode(false);
        let ghost attempt_ok = attempt is Ok;
        let ghost attempted = self.bus_log();
        let ghost tried = self.bus_records();
        match self.set_clocks() {
            Ok(()) => {},
            Err(e) => {
                proof {
                    lemma_continues_twice(before, attempted, self.bus_log());
                    lemma_attempt_then(entry, tried, self.bus_records(), attempt_ok, false);
                    assert(enable_broken_stages(
                        before,
                        attempted,
                        attempted,
                        attempted,
                        self.bus_log(),
                    ));
                }
                return Err(e);
            },
        }
        let ghost clocked = self.bus_log();
        proof {
            lemma_continues_twice(before, attempted, clocked);
            lemma_continues_itself(clocked);
        }
        let dac_found = match self.read_u8(ES8311_SDPIN_REG_09) {
            Ok(value) => value,
            Err(e) => {
                proof {
                    lemma_attempt_then(entry, tried, self.bus_records(), attempt_ok, false);
                    assert(enable_broken_stages(before, attempted, clocked, clocked, clocked));
                }
                return Err(e);
            },
        };
        let ghost r1 = self.bus_log();
        proof {
            assert(r1.take(clocked.len() as int) =~= clocked);
            assert(r1.skip(clocked.len() as int) =~= seq![
                register_read(ADDR, ES8311_SDPIN_REG_09, dac_found),
            ]);
            assert(r1.skip(clocked.len() as int)[0]->read =~= seq![dac_found]);
            lemma_continues_twice(before, clocked, r1);
        }
        let adc_found = match self.read_u8(ES8311_SDPOUT_REG_0A) {
            Ok(value) => value,
            Err(e) => {
                proof {
                    lemma_attempt_then(entry, tried, self.bus_records(), attempt_ok, false);
                    assert(enable_broken_stages(before, attempted, clocked, clocked, r1));
                }
                return Err(e);
            },
        };
        let ghost r2 = self.bus_log();
        proof {
            assert(r2.take(clocked.len() as int) =~= clocked);
            assert(r2.skip(clocked.len() as int) =~= seq![
                register_read(ADDR, ES8311_SDPIN_REG_09, dac_found),
                register_read(ADDR, ES8311_SDPOUT_REG_0A, adc_found),
            ]);
            assert(r2.skip(clocked.len() as int)[0]->read =~= seq![dac_found]);
            assert(r2.skip(clocked.len() as int)[1]->read =~= seq![adc_found]);
            lemma_continues_twice(before, clocked, r2);
        }
        let dac_iface: u8 = 0x0C;
        let adc_iface: u8 = (adc_found & 0xBF) | 0x06;
        match self.write_reg(ES8311_SDPIN_REG_09, dac_iface) {
            Ok(()) => {},
            Err(e) => {
                proof {
                    lemma_attempt_then(entry, tried, self.bus_records(), attempt_ok, false);
                    assert(enable_broken_stages(before, attempted, clocked, clocked, r2));
                }
                return Err(e);
            },
        }
        let ghost w1 = self.bus_log();
        proof {
            assert(w1.take(clocked.len() as int) =~= clocked);
            assert(w1.skip(clocked.len() as int) =~= seq![
                register_read(ADDR, ES8311_SDPIN_REG_09, dac_found),
                register_read(ADDR, ES8311_SDPOUT_REG_0A, adc_found),
                register_write(ADDR, ES8311_SDPIN_REG_09, 0x0C),
            ]);
            assert(w1.skip(clocked.len() as int)[0]->read =~= seq![dac_found]);
            assert(w1.skip(clocked.len() as int)[1]->read =~= seq![adc_found]);
            lemma_continues_twice(before, clocked, w1);
        }
        match self.write_reg(ES8311_SDPOUT_REG_0A, adc_iface) {
            Ok(()) => {},
            Err(e) => {
                proof {
                    lemma_attempt_then(entry, tried, self.bus_records(), attempt_ok, false);
                    assert(enable_broken_stages(before, attempted, clocked, clocked, w1));
                }
                return Err(e);
            },
        }
        let ghost interfaced = self.bus_log();
        proof {
            assert(interfaced.take(clocked.len() as int) =~= clocked);
            let tail = interfaced.skip(clocked.len() as int);
            assert(tail =~= seq![
                register_read(ADDR, ES8311_SDPIN_REG_09, dac_found),
                register_read(ADDR, ES8311_SDPOUT_REG_0A, adc_found),
                register_write(ADDR, ES8311_SDPIN_REG_09, 0x0C),
                register_write(ADDR, ES8311_SDPOUT_REG_0A, adc_iface),
            ]);
            assert(tail[0]->read =~= seq![dac_found]);
            assert(tail[1]->read =~= seq![adc_found]);
            lemma_continues_twice(before, clocked, interfaced);
        }
        let power = enable_power();
        match self.run(power.as_slice()) {
            Ok(()) => {},
            Err(e) => {
                proof {
                    lemma_continues_twice(before, interfaced, self.bus_log());
                    lemma_attempt_then(entry, tried, self.bus_records(), attempt_ok, false);
                    assert(enable_broken_stages(
                        before,
                        attempted,
                        clocked,
                        interfaced,
                        self.bus_log(),
                    ));
                }
                return Err(e);
            },
        }
        proof {
            lemma_continues_twice(before, interfaced, self.bus_log());
            assert(enable_stages(before, attempted, clocked, interfaced, self.bus_log()));
            lemma_attempt_then(entry, tried, self.bus_records(), attempt_ok, true);
        }
        self.is_open = true;
        Ok(())
    }

    /// Powers the converters down and stops the clocks: the whole of
    /// `suspend_program`.
    pub fn suspend(&mut self) -> (result: Result<(), I2C::Error>)
        ensures
            result is Err ==> broken_off(
                old(self).bus_log(),
                final(self).bus_log(),
                ADDR,
                suspend_program(),
            ),
            answered(old(self).bus_records(), final(self).bus_records(), result is Ok),
            final(self).spec_is_open() == old(self).spec_is_open(),
            continues(old(self).bus_log(), final(self).bus_log()),
            result is Ok ==> extended_by(
                old(self).bus_log(),
                final(self).bus_log(),
                ADDR,
                suspend_program(),
            ),
    {
        let program = suspend_steps();
        self.run(program.as_slice())
    }

    /// The same as `close`.
    pub fn disable(&mut self) -> (result: Result<(), I2C::Error>)
        ensures
            result is Err ==> broken_off(
                old(self).bus_log(),
                final(self).bus_log(),
                ADDR,
                suspend_program(),
            ),
            answered(old(self).bus_records(), final(self).bus_records(), result is Ok),
            continues(old(self).bus_log(), final(self).bus_log()),
            result is Ok ==> !final(self).spec_is_open() && extended_by(
                old(self).bus_log(),
                final(self).bus_log(),
                ADDR,
                close_program(old(self).spec_is_open()),
            ),
            result is Err ==> old(self).spec_is_open() && final(self).spec_is_open(),
    {
        self.close()
    }

    /// Suspends the chip if it is open, and marks it as closed. A chip that
    /// is not open is left alone.
    pub fn close(&mut self) -> (result: Result<(), I2C::Error>)
        ensures
            result is Err ==> broken_off(
                old(self).bus_log(),
                final(self).bus_log(),
                ADDR,
                suspend_program(),
            ),
            answered(old(self).bus_records(), final(self).bus_records(), result is Ok),
            continues(old(self).bus_log(), final(self).bus_log()),
            result is Ok ==> !final(self).spec_is_open() && extended_by(
                old(self).bus_log(),
                final(self).bus_log(),
                ADDR,
                close_program(old(self).spec_is_open()),
            ),
            result is Err ==> old(self).spec_is_open() && final(self).spec_is_open(),
    {
        if self.is_open {
            match self.suspend() {
                Ok(()) => {},
                Err(e) => {
                    return Err(e);
                },
            }
            match self.pa_power(false) {
                Ok(()) => {},
                Err(e) => {
                    return Err(e);
                },
            }
            self.is_open = false;
        } else {
            proof {
                lemma_extended_by_nothing(self.bus_log(), ADDR);
            }
        }
        Ok(())
    }
}

} // verus!
