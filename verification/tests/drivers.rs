use xiaoxin_esp32::audio::audio_codec::AudioCodec;
use xiaoxin_esp32::audio::es7210::enums::MicGain;
use xiaoxin_esp32::audio::es7210::es7210::{Error, Es7210};
use xiaoxin_esp32::audio::es8311::es8311::{volume_register_of, Es8311};
use xiaoxin_esp32::audio::xiaozhi_audio_codec::{
    starting_volume, CodecError, StoredVolume, XiaozhiAudioCodec, DEFAULT_OUTPUT_VOLUME,
};
use xiaoxin_esp32::common::i2c::{
    read_register, run_program, update_register, write_register, DelayUs, I2cBus, RegOp,
    TracedBus,
};
use xiaoxin_esp32::common::simulated_bus::{BusFault, RecordedTransfer, SimulatedBus};
use xiaoxin_esp32::utils::bits::update_bit;

struct CountingDelay {
    total_us: u64,
    calls: u32,
}

impl DelayUs for CountingDelay {
    fn delay_us(&mut self, us: u32) {
        self.total_us += us as u64;
        self.calls += 1;
    }
}

fn write(address: u8, reg: u8, value: u8) -> RecordedTransfer {
    RecordedTransfer { address, bytes: vec![reg, value], read: None }
}

fn read(address: u8, reg: u8, value: u8) -> RecordedTransfer {
    RecordedTransfer { address, bytes: vec![reg], read: Some(vec![value]) }
}

#[test]
fn update_bit_replaces_only_selected_bits() {
    assert_eq!(update_bit(0b1010_1010, 0b0000_1111, 0b0000_0101), 0b1010_0101);
    assert_eq!(update_bit(0xFF, 0x10, 0x00), 0xEF);
    assert_eq!(update_bit(0x00, 0x10, 0x10), 0x10);
    assert_eq!(update_bit(0x3F, 0x0B, 0x00), 0x34);
    assert_eq!(update_bit(0x12, 0x00, 0xFF), 0x12);
    assert_eq!(update_bit(0x12, 0xFF, 0x34), 0x34);
}

#[test]
fn mic_gain_values_count_up() {
    assert_eq!(MicGain::Gain0db.value(), 0);
    assert_eq!(MicGain::Gain3db.value(), 1);
    assert_eq!(MicGain::Gain30db.value(), 10);
    assert_eq!(MicGain::Gain33db.value(), 11);
    assert_eq!(MicGain::Gain34_5db.value(), 12);
    assert_eq!(MicGain::Gain36db.value(), 13);
    assert_eq!(MicGain::Gain37_5db.value(), 14);
}

#[test]
fn simulated_bus_keeps_what_is_written() {
    let mut bus = SimulatedBus::new();
    assert_eq!(bus.register(0x20), 0);
    assert!(bus.write(0x18, &[0x20, 0x55]).is_ok());
    assert_eq!(bus.register(0x20), 0x55);
    assert!(bus.write(0x18, &[0x21]).is_ok());
    assert_eq!(bus.register(0x21), 0);
    bus.set_register(0xFF, 7);
    bus.set_register(0x00, 9);
    let mut buffer = [0u8; 3];
    assert!(bus.write_read(0x18, &[0xFF], &mut buffer).is_ok());
    assert_eq!(buffer, [7, 9, 0]);
    assert_eq!(bus.log().len(), 3);
    assert_eq!(bus.log()[0], write(0x18, 0x20, 0x55));
    assert_eq!(bus.log()[2].read, Some(vec![7, 9, 0]));
}

#[test]
fn simulated_bus_fails_when_budget_is_spent() {
    let mut bus = SimulatedBus::failing_after(1);
    assert!(bus.write(0x18, &[0x01, 0x02]).is_ok());
    assert_eq!(bus.write(0x18, &[0x01, 0x03]), Err(BusFault::NoAcknowledge));
    assert_eq!(bus.register(0x01), 0x02);
    let mut buffer = [0xAAu8; 1];
    assert_eq!(bus.write_read(0x18, &[0x01], &mut buffer), Err(BusFault::NoAcknowledge));
    assert_eq!(buffer, [0xAA]);
    assert_eq!(bus.log().len(), 1);
}

#[test]
fn register_helpers_run_a_program() {
    let mut bus = TracedBus::new(SimulatedBus::new());
    assert!(write_register(&mut bus, 0x18, 0x10, 0xF0).is_ok());
    assert_eq!(read_register(&mut bus, 0x18, 0x10), Ok(0xF0));
    assert!(update_register(&mut bus, 0x18, 0x10, 0x81, 0x01).is_ok());
    assert_eq!(bus.bus().register(0x10), 0x71);
    let program = [
        RegOp::Write { reg: 0x01, value: 0x3F },
        RegOp::Update { reg: 0x01, mask: 0x0B, data: 0x00 },
        RegOp::Read { reg: 0x01 },
    ];
    let before = bus.bus().log().len();
    assert!(run_program(&mut bus, 0x18, &program).is_ok());
    let bus = bus.into_inner();
    assert_eq!(bus.log().len(), before + 4);
    assert_eq!(bus.log()[before], write(0x18, 0x01, 0x3F));
    assert_eq!(bus.log()[before + 1], read(0x18, 0x01, 0x3F));
    assert_eq!(bus.log()[before + 2], write(0x18, 0x01, 0x34));
    assert_eq!(bus.log()[before + 3], read(0x18, 0x01, 0x34));
}

#[test]
fn run_program_stops_at_first_failure() {
    let mut bus = TracedBus::new(SimulatedBus::failing_after(2));
    let program = [
        RegOp::Write { reg: 0x01, value: 0x11 },
        RegOp::Update { reg: 0x02, mask: 0xFF, data: 0x22 },
        RegOp::Write { reg: 0x03, value: 0x33 },
    ];
    assert_eq!(run_program(&mut bus, 0x18, &program), Err(BusFault::NoAcknowledge));
    let bus = bus.into_inner();
    assert_eq!(bus.log().len(), 2);
    assert_eq!(bus.register(0x01), 0x11);
    assert_eq!(bus.register(0x02), 0x00);
    assert_eq!(bus.register(0x03), 0x00);
}

#[test]
fn traced_bus_passes_transactions_through() {
    let mut bus = TracedBus::new(SimulatedBus::new());
    assert!(bus.write(0x30, &[0x05, 0x06]).is_ok());
    assert_eq!(bus.write_read_byte(0x30, 0x05), Ok(0x06));
    assert_eq!(bus.bus().log().len(), 2);
    assert_eq!(bus.bus().log()[0], write(0x30, 0x05, 0x06));
    assert_eq!(bus.bus().log()[1], read(0x30, 0x05, 0x06));
}

struct EchoBus {
    last: Vec<u8>,
}

impl I2cBus for EchoBus {
    type Error = ();

    fn write(&mut self, _address: u8, bytes: &[u8]) -> Result<(), ()> {
        self.last = bytes.to_vec();
        Ok(())
    }

    fn write_read(&mut self, _address: u8, _bytes: &[u8], buffer: &mut [u8]) -> Result<(), ()> {
        for b in buffer.iter_mut() {
            *b = 0x5A;
        }
        Ok(())
    }
}

#[test]
fn any_bus_can_carry_a_driver() {
    let mut driver = Es8311::new(EchoBus { last: vec![] });
    assert_eq!(driver.read_u8(1), Ok(0x5A));
    assert!(driver.set_voice_volume(100).is_ok());
    assert_eq!(driver.bus().last, vec![0x32, 255]);
    assert!(driver.set_master_mode(false).is_ok());
    assert_eq!(driver.bus().last, vec![0x00, 0x1A]);
}

#[test]
fn es7210_starts_closed() {
    let driver = Es7210::new(SimulatedBus::new());
    assert!(!driver.is_open());
    assert!(!driver.is_enabled());
    assert_eq!(driver.bus().log().len(), 0);
}

#[test]
fn es7210_open_runs_whole_sequence() {
    let mut driver = Es7210::new(SimulatedBus::new());
    assert!(driver.open().is_ok());
    assert!(driver.is_open());
    assert!(!driver.is_enabled());
    let bus = driver.release();
    let log = bus.log();
    assert_eq!(log.len(), 63);
    assert_eq!(log[0], RecordedTransfer { address: 0x01, bytes: vec![0x01], read: None });
    assert_eq!(log[1], write(0x18, 0x00, 0xFF));
    assert_eq!(log[2], write(0x18, 0x00, 0x41));
    assert_eq!(log[3], write(0x18, 0x01, 0x3F));
    assert_eq!(log[9], write(0x18, 0x23, 0x2A));
    assert_eq!(log[10], read(0x18, 0x08, 0x00));
    assert_eq!(log[11], write(0x18, 0x08, 0x00));
    assert_eq!(log[12], write(0x18, 0x40, 0x43));
    assert_eq!(log[16], write(0x18, 0x02, 0xC1));
    assert_eq!(log[17], read(0x18, 0x43, 0x00));
    assert_eq!(log[25], read(0x18, 0x01, 0x3F));
    assert_eq!(log[26], write(0x18, 0x01, 0x34));
    assert_eq!(log[27], write(0x18, 0x4B, 0x00));
    assert_eq!(log[53], write(0x18, 0x12, 0x00));
    assert_eq!(log[62], read(0x18, 0x01, 0x20));
    assert_eq!(bus.register(0x43), 0x1A);
    assert_eq!(bus.register(0x44), 0x1A);
    assert_eq!(bus.register(0x45), 0x1A);
    assert_eq!(bus.register(0x46), 0x1A);
    assert_eq!(bus.register(0x01), 0x20);
    assert_eq!(bus.register(0x4B), 0x00);
    assert_eq!(bus.register(0x12), 0x00);
}

#[test]
fn es7210_start_restores_clock_setting() {
    let mut driver = Es7210::new(SimulatedBus::new());
    assert!(driver.open().is_ok());
    let before = driver.bus().log().len();
    assert!(driver.start().is_ok());
    let bus = driver.release();
    let log = bus.log();
    assert_eq!(log.len(), before + 7 + 37 + 3);
    assert_eq!(log[before], write(0x18, 0x01, 0x20));
    assert_eq!(log[before + 1], write(0x18, 0x06, 0x00));
    assert_eq!(log[before + 6], write(0x18, 0x4A, 0x08));
    assert_eq!(log[log.len() - 3], write(0x18, 0x40, 0x43));
    assert_eq!(log[log.len() - 2], write(0x18, 0x00, 0x71));
    assert_eq!(log[log.len() - 1], write(0x18, 0x00, 0x41));
}

#[test]
fn es7210_stop_powers_down() {
    let mut driver = Es7210::new(SimulatedBus::new());
    assert!(driver.stop().is_ok());
    assert!(!driver.is_open());
    let bus = driver.release();
    assert_eq!(bus.log().len(), 9);
    assert_eq!(bus.log()[0], write(0x18, 0x47, 0xFF));
    assert_eq!(bus.log()[6], write(0x18, 0x40, 0xC0));
    assert_eq!(bus.log()[7], write(0x18, 0x01, 0x7F));
    assert_eq!(bus.log()[8], write(0x18, 0x06, 0x07));
}

#[test]
fn es7210_enable_and_disable_touch_no_register() {
    let mut driver = Es7210::new(SimulatedBus::new());
    assert!(driver.enable().is_ok());
    assert!(driver.is_enabled());
    assert!(driver.disable().is_ok());
    assert!(!driver.is_enabled());
    assert_eq!(driver.bus().log().len(), 0);
}

#[test]
fn es7210_refuses_empty_mic_selection() {
    let mut driver = Es7210::new(SimulatedBus::new());
    assert!(matches!(driver.mic_select(0x00), Err(Error::InvalidMicInputMode)));
    assert!(matches!(driver.mic_select(0xF0), Err(Error::InvalidMicInputMode)));
    assert_eq!(driver.bus().log().len(), 0);
}

#[test]
fn es7210_selects_single_mic() {
    let mut driver = Es7210::new(SimulatedBus::new());
    assert!(driver.mic_select(0x04).is_ok());
    let bus = driver.release();
    let log = bus.log();
    assert_eq!(log.len(), 8 + 7 + 1);
    assert_eq!(log[8], read(0x18, 0x01, 0x00));
    assert_eq!(log[9], write(0x18, 0x01, 0x00));
    assert_eq!(log[10], write(0x18, 0x4C, 0x00));
    assert_eq!(log[12], write(0x18, 0x45, 0x10));
    assert_eq!(log[15], write(0x18, 0x12, 0x00));
    assert_eq!(bus.register(0x45), 0x10);
    assert_eq!(bus.register(0x43), 0x00);
}

#[test]
fn es7210_gain_reaches_selected_and_masked_channels_only() {
    let mut driver = Es7210::new(SimulatedBus::new());
    assert!(driver.set_channel_gain(0x0F, 0x05, MicGain::Gain24db).is_ok());
    assert!(driver.set_channel_gain(0x02, 0x0F, MicGain::Gain3db).is_ok());
    let bus = driver.release();
    assert_eq!(bus.log().len(), 6);
    assert_eq!(bus.register(0x43), 8);
    assert_eq!(bus.register(0x44), 1);
    assert_eq!(bus.register(0x45), 8);
    assert_eq!(bus.register(0x46), 0);
}

#[test]
fn es7210_channel_masks() {
    let driver = Es7210::new(SimulatedBus::new());
    assert_eq!(driver.make_channel_mask(0), 0x01);
    assert_eq!(driver.make_channel_mask(1), 0x02);
    assert_eq!(driver.make_channel_mask(3), 0x08);
    assert_eq!(driver.make_channel_mask(7), 0x80);
}

#[test]
fn es7210_master_mode_sets_lowest_bit() {
    let mut bus = SimulatedBus::new();
    bus.set_register(0x08, 0xF0);
    let mut driver = Es7210::new(bus);
    assert!(driver.set_master_mode(true).is_ok());
    assert_eq!(driver.bus().register(0x08), 0xF1);
    assert!(driver.set_master_mode(false).is_ok());
    assert_eq!(driver.bus().register(0x08), 0xF0);
}

#[test]
fn es7210_open_reports_bus_failure() {
    let mut driver = Es7210::new(SimulatedBus::failing_after(20));
    assert!(matches!(driver.open(), Err(Error::I2c(BusFault::NoAcknowledge))));
    assert!(!driver.is_open());
    assert_eq!(driver.bus().log().len(), 20);
    let mut dead = Es7210::new(SimulatedBus::failing_after(0));
    assert!(matches!(dead.read_reg(0x01), Err(Error::I2c(BusFault::NoAcknowledge))));
    assert!(matches!(dead.write_reg(0x01, 1), Err(Error::I2c(BusFault::NoAcknowledge))));
    assert!(matches!(dead.update_reg_bit(0x01, 1, 1), Err(Error::I2c(BusFault::NoAcknowledge))));
}

#[test]
fn es7210_read_reg_returns_register() {
    let mut bus = SimulatedBus::new();
    bus.set_register(0x3D, 0x72);
    let mut driver = Es7210::new(bus);
    assert!(matches!(driver.read_reg(0x3D), Ok(0x72)));
    assert_eq!(driver.bus().log()[0], read(0x18, 0x3D, 0x72));
}

#[test]
fn es8311_volume_register_values() {
    assert_eq!(volume_register_of(0), 0);
    assert_eq!(volume_register_of(20), 51);
    assert_eq!(volume_register_of(50), 127);
    assert_eq!(volume_register_of(99), 252);
    assert_eq!(volume_register_of(100), 255);
    assert_eq!(volume_register_of(101), 255);
    assert_eq!(volume_register_of(255), 255);
}

#[test]
fn es8311_set_voice_volume_and_mute() {
    let mut driver = Es8311::new(SimulatedBus::new());
    assert!(driver.set_voice_volume(50).is_ok());
    assert_eq!(driver.bus().register(0x32), 127);
    assert!(driver.set_voice_volume(101).is_ok());
    assert_eq!(driver.bus().register(0x32), 0xFF);
    assert!(driver.set_voice_volume(50).is_ok());
    assert!(driver.set_mute(true).is_ok());
    assert_eq!(driver.bus().register(0x32), 0);
    assert!(driver.set_mute(false).is_ok());
    assert_eq!(driver.bus().register(0x32), 51);
    assert_eq!(driver.bus().log().len(), 5);
    assert_eq!(driver.bus().log()[0], write(0x18, 0x32, 127));
}

#[test]
fn es8311_read_u8_returns_register() {
    let mut bus = SimulatedBus::new();
    bus.set_register(0xFD, 0x83);
    let mut driver = Es8311::new(bus);
    assert_eq!(driver.read_u8(0xFD), Ok(0x83));
    let mut dead = Es8311::new(SimulatedBus::failing_after(0));
    assert_eq!(dead.read_u8(0xFD), Err(BusFault::NoAcknowledge));
}

#[test]
fn es8311_init_runs_whole_sequence() {
    let mut delay = CountingDelay { total_us: 0, calls: 0 };
    let mut driver = Es8311::new(SimulatedBus::new());
    assert!(driver.init(&mut delay).is_ok());
    assert!(!driver.is_open());
    assert_eq!(delay.calls, 1);
    assert_eq!(delay.total_us, 50_000);
    let bus = driver.release();
    let log = bus.log();
    assert_eq!(log.len(), 1 + 12 + 2 + 5 + 4 + 1);
    assert_eq!(log[0], write(0x18, 0x44, 0x08));
    assert_eq!(log[1], write(0x18, 0x44, 0x08));
    assert_eq!(log[2], write(0x18, 0x01, 0x30));
    assert_eq!(log[12], write(0x18, 0x00, 0x80));
    assert_eq!(log[13], read(0x18, 0x00, 0x80));
    assert_eq!(log[14], write(0x18, 0x00, 0x80));
    assert_eq!(log[15], write(0x18, 0x01, 0x3F));
    assert_eq!(log[16], read(0x18, 0x01, 0x3F));
    assert_eq!(log[17], write(0x18, 0x01, 0x3F));
    assert_eq!(log[18], read(0x18, 0x06, 0x00));
    assert_eq!(log[19], write(0x18, 0x06, 0x00));
    assert_eq!(log[20], write(0x18, 0x13, 0x10));
    assert_eq!(log[23], write(0x18, 0x44, 0x58));
    assert_eq!(log[24], write(0x18, 0x32, 127));
}

#[test]
fn es8311_init_fails_before_the_delay() {
    let mut delay = CountingDelay { total_us: 0, calls: 0 };
    let mut driver = Es8311::new(SimulatedBus::failing_after(0));
    assert_eq!(driver.init(&mut delay), Err(BusFault::NoAcknowledge));
    assert_eq!(delay.calls, 0);
}

#[test]
fn es8311_enable_opens_the_chip() {
    let mut bus = SimulatedBus::new();
    bus.set_register(0x0A, 0xC1);
    bus.set_register(0x00, 0xFF);
    let mut driver = Es8311::new(bus);
    assert!(driver.enable().is_ok());
    assert!(driver.is_open());
    let bus = driver.release();
    let log = bus.log();
    assert_eq!(log.len(), 2 + 5 + 4 + 10);
    assert_eq!(log[0], read(0x18, 0x00, 0xFF));
    assert_eq!(log[1], write(0x18, 0x00, 0xBF));
    assert_eq!(log[2], write(0x18, 0x01, 0x3F));
    assert_eq!(log[7], read(0x18, 0x09, 0x00));
    assert_eq!(log[8], read(0x18, 0x0A, 0xC1));
    assert_eq!(log[9], write(0x18, 0x09, 0x0C));
    assert_eq!(log[10], write(0x18, 0x0A, 0x87));
    assert_eq!(log[11], write(0x18, 0x17, 0xBF));
    assert_eq!(log[14], write(0x18, 0x14, 0x1A));
    assert_eq!(log[15], read(0x18, 0x14, 0x1A));
    assert_eq!(log[16], write(0x18, 0x14, 0x1A));
    assert_eq!(log[20], write(0x18, 0x45, 0x00));
}

#[test]
fn es8311_enable_goes_on_when_slave_mode_fails() {
    let mut driver = Es8311::new(SimulatedBus::failing_after(0));
    assert_eq!(driver.enable(), Err(BusFault::NoAcknowledge));
    assert!(!driver.is_open());
    assert_eq!(driver.bus().log().len(), 0);
}

#[test]
fn es8311_close_suspends_open_chip_only() {
    let mut driver = Es8311::new(SimulatedBus::new());
    assert!(driver.close().is_ok());
    assert_eq!(driver.bus().log().len(), 0);
    assert!(driver.enable().is_ok());
    let before = driver.bus().log().len();
    assert!(driver.disable().is_ok());
    assert!(!driver.is_open());
    assert_eq!(driver.bus().log().len(), before + 15);
    assert_eq!(driver.bus().log()[before], write(0x18, 0x32, 0x00));
    assert_eq!(driver.bus().log()[before + 14], write(0x18, 0x02, 0x00));
    assert!(driver.pa_power(true).is_ok());
}

#[test]
fn es8311_suspend_writes_fifteen_registers() {
    let mut driver = Es8311::new(SimulatedBus::new());
    assert!(driver.suspend().is_ok());
    assert_eq!(driver.bus().log().len(), 15);
    assert_eq!(driver.bus().log()[5], write(0x18, 0x0D, 0xFA));
    assert_eq!(driver.bus().log()[13], write(0x18, 0x0D, 0xFC));
    assert_eq!(driver.bus().register(0x0D), 0xFC);
}

#[test]
fn es8311_clock_settings() {
    let mut bus = SimulatedBus::new();
    bus.set_register(0x06, 0x0F);
    let mut driver = Es8311::new(bus);
    assert!(driver.configure_mclk_source(false).is_ok());
    assert_eq!(driver.bus().register(0x01), 0xBF);
    assert!(driver.set_invert_mclk(false).is_ok());
    assert_eq!(driver.bus().register(0x01), 0xBF);
    assert!(driver.configure_mclk_source(true).is_ok());
    assert!(driver.set_invert_mclk(true).is_ok());
    assert_eq!(driver.bus().register(0x01), 0x7F);
    assert!(driver.set_invert_sclk(true).is_ok());
    assert_eq!(driver.bus().register(0x06), 0x2F);
    assert!(driver.set_master_mode(true).is_ok());
    assert_eq!(driver.bus().register(0x00), 0x40);
}

#[test]
fn codec_starting_volume() {
    assert_eq!(starting_volume(0, StoredVolume::Unavailable), DEFAULT_OUTPUT_VOLUME);
    assert_eq!(starting_volume(12, StoredVolume::Missing), 12);
    assert_eq!(starting_volume(12, StoredVolume::Value(0)), 30);
    assert_eq!(starting_volume(12, StoredVolume::Value(77)), 77);
}

#[test]
fn codec_brings_both_chips_up() {
    let mut delay = CountingDelay { total_us: 0, calls: 0 };
    let mut codec = XiaozhiAudioCodec::new(SimulatedBus::new(), SimulatedBus::new(), &mut delay);
    assert_eq!(codec.output_codec().bus().log().len(), 25);
    assert_eq!(codec.input_codec().bus().log().len(), 63);
    assert!(!codec.input_enabled());
    assert!(!codec.output_enabled());
    assert!(codec.input_reference());
    assert_eq!(codec.output_volume(), 0);
    assert!(codec.start(StoredVolume::Value(40)).is_ok());
    assert_eq!(codec.output_volume(), 40);
    assert!(codec.input_codec().is_enabled());
    assert!(codec.output_codec().is_open());
    assert!(codec.input_enabled());
    assert!(codec.output_enabled());
    assert!(codec.set_output_volume(100).is_ok());
    assert_eq!(codec.output_codec().bus().register(0x32), 255);
    let before = codec.output_codec().bus().log().len();
    assert!(codec.enable_output(true).is_ok());
    assert_eq!(codec.output_codec().bus().log().len(), before);
    assert!(codec.enable_input(false).is_ok());
    assert!(!codec.input_codec().is_enabled());
    assert!(!codec.input_enabled());
    assert!(codec.enable_output(false).is_ok());
    assert!(!codec.output_codec().is_open());
    assert!(!codec.output_enabled());
    assert_eq!(codec.output_codec().bus().log().len(), before + 15);
    assert!(codec.enable_input(true).is_ok());
    assert!(codec.input_codec().is_enabled());
    assert!(codec.input_enabled());
}

#[test]
fn codec_is_made_even_when_a_chip_fails() {
    let mut delay = CountingDelay { total_us: 0, calls: 0 };
    let codec = XiaozhiAudioCodec::new(
        SimulatedBus::failing_after(3),
        SimulatedBus::failing_after(0),
        &mut delay,
    );
    assert_eq!(codec.output_codec().bus().log().len(), 3);
    assert_eq!(codec.input_codec().bus().log().len(), 0);
    assert!(!codec.input_codec().is_open());
}

#[test]
fn codec_reports_failure_of_the_speaker_codec() {
    let mut delay = CountingDelay { total_us: 0, calls: 0 };
    let mut codec = XiaozhiAudioCodec::new(
        SimulatedBus::failing_after(25),
        SimulatedBus::new(),
        &mut delay,
    );
    assert!(matches!(
        codec.set_output_volume(10),
        Err(CodecError::Output(BusFault::NoAcknowledge))
    ));
    assert!(matches!(
        codec.start(StoredVolume::Missing),
        Err(CodecError::Output(BusFault::NoAcknowledge))
    ));
    assert!(codec.input_codec().is_enabled());
    assert!(codec.input_enabled());
    assert!(!codec.output_codec().is_open());
    assert!(!codec.output_enabled());
    assert_eq!(codec.output_volume(), 0);
}

#[test]
fn es7210_start_and_stop_report_bus_failure() {
    let mut driver = Es7210::new(SimulatedBus::failing_after(5));
    assert!(matches!(driver.start(), Err(Error::I2c(BusFault::NoAcknowledge))));
    assert_eq!(driver.bus().log().len(), 5);
    assert!(matches!(driver.stop(), Err(Error::I2c(BusFault::NoAcknowledge))));
    assert!(matches!(driver.set_master_mode(true), Err(Error::I2c(BusFault::NoAcknowledge))));
    assert!(matches!(
        driver.set_channel_gain(0x0F, 0x0F, MicGain::Gain0db),
        Err(Error::I2c(BusFault::NoAcknowledge))
    ));
    assert!(matches!(driver.mic_select(0x01), Err(Error::I2c(BusFault::NoAcknowledge))));
    assert!(matches!(driver.mic_select(0x00), Err(Error::InvalidMicInputMode)));
}

#[test]
fn refused_read_leaves_the_register_alone() {
    let mut bus = SimulatedBus::failing_after(0);
    bus.set_register(0x43, 0x55);
    let mut driver = Es7210::new(bus);
    assert!(matches!(
        driver.update_reg_bit(0x43, 0x0F, 0x0A),
        Err(Error::I2c(BusFault::NoAcknowledge))
    ));
    assert_eq!(driver.bus().register(0x43), 0x55);
    assert_eq!(driver.bus().log().len(), 0);
    let mut bus = SimulatedBus::failing_after(1);
    bus.set_register(0x43, 0x55);
    let mut traced = TracedBus::new(bus);
    assert_eq!(update_register(&mut traced, 0x18, 0x43, 0x0F, 0x0A), Err(BusFault::NoAcknowledge));
    assert_eq!(traced.bus().register(0x43), 0x55);
    assert_eq!(traced.bus().log().len(), 1);
    assert_eq!(traced.bus().log()[0], read(0x18, 0x43, 0x55));
}

#[test]
fn open_stops_at_the_first_refusal() {
    for allowed in [0usize, 1, 5, 11, 30, 62] {
        let mut driver = Es7210::new(SimulatedBus::failing_after(allowed));
        assert!(matches!(driver.open(), Err(Error::I2c(BusFault::NoAcknowledge))));
        assert!(!driver.is_open());
        assert!(!driver.is_enabled());
        assert_eq!(driver.bus().log().len(), allowed);
    }
    let mut driver = Es7210::new(SimulatedBus::failing_after(63));
    assert!(driver.open().is_ok());
}
