use i2cdev::linux::LinuxI2CError;
use qwiic_adc_rs::reading::{interpret, to_voltage, Millivolts};
use qwiic_adc_rs::{
    AdcError, BusAction, DeviceModel, Modes, Mux, QwiicADC, QwiicADCConfig, SampleRates,
    Transaction, PGA,
};

fn millivolts(v: Millivolts) -> f32 {
    v.numerator as f32 / v.denominator as f32
}

/// A chip that answers bus actions the way the converter does, and logs them.
struct SimChip {
    registers: [u16; 4],
    pointer: usize,
    low_byte_next: bool,
    log: Vec<BusAction>,
}

impl SimChip {
    fn new() -> SimChip {
        SimChip { registers: [0, 0x8583, 0x8000, 0x7FFF], pointer: 0, low_byte_next: false, log: Vec::new() }
    }

    fn answer(&mut self, action: BusAction) -> u8 {
        self.log.push(action);
        match action {
            BusAction::WriteByte(p) => {
                self.pointer = (p % 4) as usize;
                self.low_byte_next = false;
                0
            }
            BusAction::ReadByte => {
                let w = self.registers[self.pointer];
                let b = if self.low_byte_next { (w & 0xFF) as u8 } else { (w >> 8) as u8 };
                self.low_byte_next = !self.low_byte_next;
                b
            }
            BusAction::WriteBlock(r, high, low) => {
                self.pointer = (r % 4) as usize;
                self.low_byte_next = false;
                if self.pointer != 0 {
                    self.registers[self.pointer] = ((high as u16) << 8) | low as u16;
                }
                0
            }
            _ => 0,
        }
    }

    fn writes(&self) -> usize {
        self.log.iter().filter(|a| !matches!(a, BusAction::ReadByte | BusAction::Delay(_))).count()
    }
}

fn drive(adc: &mut QwiicADC, op: impl FnOnce(&QwiicADC) -> Transaction, chip: &mut SimChip) -> Result<u16, AdcError> {
    let mut tx = op(adc);
    loop {
        let action = tx.next_action();
        if action == BusAction::Finish {
            break;
        }
        let byte = chip.answer(action);
        tx.answer(Ok(byte));
    }
    adc.complete(tx)
}

#[test]
fn test_config_creation() {
    let config = QwiicADCConfig::default();
    assert_eq!(config.model(), "ADS1015");

    let config = QwiicADCConfig::new("ADS1115".to_string());
    assert_eq!(config.model(), "ADS1115");
}

#[test]
fn config_tag_selects_model() {
    assert_eq!(QwiicADCConfig::default().device_model(), DeviceModel::Ads1015);
    assert_eq!(QwiicADCConfig::new("ADS1115".to_string()).device_model(), DeviceModel::Ads1115);
    assert_eq!(QwiicADCConfig::new("ads1015".to_string()).device_model(), DeviceModel::Ads1115);
    let adc = QwiicADC::new(QwiicADCConfig::default());
    assert_eq!(adc.model(), DeviceModel::Ads1015);
    assert_eq!(adc.last_gain(), None);
}

#[test]
fn test_raw_to_voltage_ads1015() {
    let config = QwiicADCConfig::default();
    let adc = QwiicADC::new(config);

    let raw = 2048;
    let voltage = millivolts(adc.raw_to_voltage(raw, PGA::Two).unwrap());
    assert_eq!(voltage, 2048.0, "Voltage calculation incorrect for ADS1015");

    let voltage = millivolts(adc.raw_to_voltage(raw, PGA::One).unwrap());
    assert_eq!(voltage, 4096.0, "Voltage calculation incorrect for ADS1015");
}

#[test]
fn test_raw_to_voltage_ads1115() {
    let config = QwiicADCConfig::new("ADS1115".to_string());
    let adc = QwiicADC::new(config);

    let raw = 32768;
    let voltage = millivolts(adc.raw_to_voltage(raw, PGA::Two).unwrap());
    assert_eq!(voltage, 2048.0, "Voltage calculation incorrect for ADS1115");

    let voltage = millivolts(adc.raw_to_voltage(raw, PGA::One).unwrap());
    assert_eq!(voltage, 4096.0, "Voltage calculation incorrect for ADS1115");
}

#[test]
fn voltage_is_exact_per_gain() {
    let v = to_voltage(2048, PGA::Two, DeviceModel::Ads1015);
    assert_eq!(v, Millivolts { numerator: 2048 * 2048, denominator: 2048 });
    let v = to_voltage(32768, PGA::Two, DeviceModel::Ads1115);
    assert_eq!(v.numerator, 2048 * v.denominator);
    assert_eq!(millivolts(to_voltage(1000, PGA::TwoThirds, DeviceModel::Ads1015)), 3000.0);
    assert_eq!(millivolts(to_voltage(1000, PGA::Sixteen, DeviceModel::Ads1015)), 125.0);
    assert_eq!(millivolts(to_voltage(16384, PGA::Four, DeviceModel::Ads1115)), 512.0);
    assert_eq!(millivolts(to_voltage(1024, PGA::Eight, DeviceModel::Ads1015)), 256.0);
    assert_eq!(millivolts(to_voltage(0, PGA::One, DeviceModel::Ads1115)), 0.0);
}

#[test]
fn gain_one_doubles_gain_two() {
    for raw in [0u16, 1, 777, 2047, 4095, 32767, 65535] {
        for model in [DeviceModel::Ads1015, DeviceModel::Ads1115] {
            let one = to_voltage(raw, PGA::One, model);
            let two = to_voltage(raw, PGA::Two, model);
            assert_eq!(one.denominator, two.denominator);
            assert_eq!(one.numerator, 2 * two.numerator);
        }
    }
}

#[test]
fn interpret_shifts_only_for_twelve_bits() {
    assert_eq!(interpret(0xFFF0, DeviceModel::Ads1015), 0x0FFF);
    assert_eq!(interpret(0xFFF0, DeviceModel::Ads1115), 0xFFF0);
    assert_eq!(interpret(0x000F, DeviceModel::Ads1015), 0x0000);
    assert_eq!(interpret(0x7FF0, DeviceModel::Ads1015), 0x07FF);
}

#[test]
fn test_channel_validation() {
    for channel in 0..=3 {
        assert!(QwiicADC::validate_channel(channel).is_ok(), "Channel {} should be valid", channel);
    }
    for channel in 4..=255 {
        match QwiicADC::validate_channel(channel) {
            Err(AdcError::InvalidChannel(ch)) => assert_eq!(ch, channel),
            _ => panic!("Channel {} should be invalid", channel),
        }
    }
}

#[test]
fn test_differential_mode_validation() {
    let valid_modes = [
        Mux::DiffP0N1.value(),
        Mux::DiffP0N3.value(),
        Mux::DiffP1N3.value(),
        Mux::DiffP2N3.value(),
    ];
    for mode in &valid_modes {
        assert!(QwiicADC::validate_differential_mode(*mode).is_ok(), "Mode 0x{:04X} should be valid", mode);
    }

    let invalid_modes = [0x5000u16, 0x6000u16, 0x9999u16, 0xFFFFu16];
    for mode in &invalid_modes {
        match QwiicADC::validate_differential_mode(*mode) {
            Err(AdcError::InvalidDifferentialMode(m)) => assert_eq!(m, *mode),
            _ => panic!("Mode 0x{:04X} should be invalid", mode),
        }
    }
}

#[test]
fn test_error_display() {
    let err = AdcError::InvalidChannel(5);
    assert_eq!(err.message(), "Invalid channel: 5. Must be 0-3");

    let err = AdcError::InvalidDifferentialMode(0x9999);
    assert_eq!(err.message(), "Invalid differential mode: 0x9999");
}

#[test]
fn other_error_messages() {
    assert_eq!(AdcError::InvalidChannel(255).message(), "Invalid channel: 255. Must be 0-3");
    assert_eq!(AdcError::InvalidChannel(42).message(), "Invalid channel: 42. Must be 0-3");
    assert_eq!(AdcError::InvalidDifferentialMode(0x00AF).message(), "Invalid differential mode: 0x00AF");
    assert_eq!(AdcError::InvalidThreshold(0x0800).message(), "Invalid threshold: 0x0800");
    assert_eq!(
        AdcError::GainMismatch { recorded: PGA::Two, supplied: PGA::One }.message(),
        "Gain mismatch: reading taken with gain Two, voltage asked for gain One"
    );
    let transport = AdcError::I2cError(LinuxI2CError::Errno(5)).message();
    assert!(transport.starts_with("I2C error: "));
    assert!(transport.len() > "I2C error: ".len());
}

#[test]
fn single_ended_channels_are_read() {
    for channel in 0..4u8 {
        let mut adc = QwiicADC::new(QwiicADCConfig::default());
        let mut chip = SimChip::new();
        chip.registers[0] = 0xFFF0;
        let value = drive(&mut adc, |a| a.get_single_ended(channel), &mut chip).unwrap();
        assert_eq!(value, 0x0FFF);
        // power-on configuration 0x8583: gain Two, 1600 Hz, comparator disabled
        let word: u16 = 0x8000 | 0x0100 | 0x0080 | 0x0400 | 0x0003 | (0x4000 + 0x1000 * channel as u16);
        assert_eq!(
            chip.log,
            vec![
                BusAction::WriteByte(0x01),
                BusAction::ReadByte,
                BusAction::ReadByte,
                BusAction::WriteBlock(0x01, (word >> 8) as u8, (word & 0xFF) as u8),
                BusAction::Delay(10_000),
                BusAction::WriteByte(0x00),
                BusAction::ReadByte,
                BusAction::ReadByte,
            ]
        );
        assert_eq!(chip.registers[1], word);
        assert_eq!(adc.last_gain(), Some(PGA::Two));
    }
}

#[test]
fn reading_keeps_the_chips_gain_and_rate() {
    let mut adc = QwiicADC::new(QwiicADCConfig::default());
    let mut chip = SimChip::new();
    // gain One, 1600 Hz, comparator disabled
    chip.registers[1] = 0x8383;
    drive(&mut adc, |a| a.get_single_ended(0), &mut chip).unwrap();
    assert_eq!(chip.registers[1], 0xC383);
    assert_eq!(adc.last_gain(), Some(PGA::One));

    // window comparator, latching, 3300 Hz, gain Sixteen, differential P0-N3
    chip.registers[1] = 0x0BDF;
    drive(&mut adc, |a| a.get_differential(Some(0x1000)), &mut chip).unwrap();
    assert_eq!(chip.registers[1], 0x9BDF);
    assert_eq!(adc.last_gain(), Some(PGA::Sixteen));

    // a register written directly is what the next reading keeps
    drive(&mut adc, |a| a.write_register(0x01, 0x0083), &mut chip).unwrap();
    drive(&mut adc, |a| a.get_single_ended(3), &mut chip).unwrap();
    assert_eq!(chip.registers[1], 0xF183);
    assert_eq!(adc.last_gain(), Some(PGA::TwoThirds));
}

#[test]
fn top_gain_patterns_all_select_sixteen() {
    for field in [0x0A00u16, 0x0C00, 0x0E00] {
        let mut adc = QwiicADC::new(QwiicADCConfig::default());
        let mut chip = SimChip::new();
        chip.registers[1] = 0x0183 | field;
        drive(&mut adc, |a| a.read_last_conversion(), &mut chip).unwrap();
        assert_eq!(adc.last_gain(), Some(PGA::Sixteen));
    }
}

#[test]
fn invalid_channel_issues_no_bus_traffic() {
    for channel in 4..=255u8 {
        let mut adc = QwiicADC::new(QwiicADCConfig::default());
        let mut chip = SimChip::new();
        match drive(&mut adc, |a| a.get_single_ended(channel), &mut chip) {
            Err(AdcError::InvalidChannel(ch)) => assert_eq!(ch, channel),
            _ => panic!("channel {} should be refused", channel),
        }
        assert!(chip.log.is_empty());
        assert!(matches!(
            drive(&mut adc, |a| a.start_continuous(channel), &mut chip),
            Err(AdcError::InvalidChannel(_))
        ));
        assert_eq!(chip.writes(), 0);
    }
}

#[test]
fn differential_pairings() {
    let model = QwiicADCConfig::new("ADS1115".to_string());
    let mut adc = QwiicADC::new(model);
    let mut chip = SimChip::new();
    chip.registers[0] = 0xFFF0;
    assert_eq!(drive(&mut adc, |a| a.get_differential(None), &mut chip).unwrap(), 0xFFF0);
    assert_eq!(chip.registers[1], 0x8000 | 0x0100 | 0x0080 | 0x0400 | 0x0003);
    for mode in [0x1000u16, 0x2000, 0x3000] {
        assert!(drive(&mut adc, |a| a.get_differential(Some(mode)), &mut chip).is_ok());
        assert_eq!(chip.registers[1] & 0x7000, mode);
    }
    let before = chip.log.len();
    for mode in [0x4000u16, 0x5000, 0x9999, 0xFFFF, 0x0001] {
        match drive(&mut adc, |a| a.get_differential(Some(mode)), &mut chip) {
            Err(AdcError::InvalidDifferentialMode(m)) => assert_eq!(m, mode),
            _ => panic!("mode {:04X} should be refused", mode),
        }
    }
    assert_eq!(chip.log.len(), before);
}

#[test]
fn set_gain_then_get_gain_round_trips() {
    for gain in [PGA::TwoThirds, PGA::One, PGA::Two, PGA::Four, PGA::Eight, PGA::Sixteen] {
        let mut adc = QwiicADC::new(QwiicADCConfig::default());
        let mut chip = SimChip::new();
        chip.registers[1] = 0x8583 | 0x00E0;
        drive(&mut adc, |a| a.set_mode(Modes::Continuous), &mut chip).unwrap();
        drive(&mut adc, |a| a.set_sample_rate(SampleRates::S490Hz), &mut chip).unwrap();
        let before = chip.registers[1];
        drive(&mut adc, |a| a.set_gain(gain), &mut chip).unwrap();
        assert_eq!(drive(&mut adc, |a| a.get_gain(), &mut chip).unwrap(), gain.value());
        assert_eq!(chip.registers[1] & !0x0E00, before & !0x0E00);
        assert_eq!(drive(&mut adc, |a| a.get_sample_rate(), &mut chip).unwrap(), 0x0040);
        assert_eq!(chip.registers[1] & 0x0100, 0x0000);
    }
}

#[test]
fn set_gain_reads_then_writes_configuration() {
    let mut adc = QwiicADC::new(QwiicADCConfig::default());
    let mut chip = SimChip::new();
    assert_eq!(drive(&mut adc, |a| a.set_gain(PGA::One), &mut chip).unwrap(), 0x8383);
    assert_eq!(
        chip.log,
        vec![
            BusAction::WriteByte(0x01),
            BusAction::ReadByte,
            BusAction::ReadByte,
            BusAction::WriteBlock(0x01, 0x83, 0x83),
        ]
    );
}

#[test]
fn thresholds_are_independent() {
    let mut adc = QwiicADC::new(QwiicADCConfig::default());
    let mut chip = SimChip::new();
    drive(&mut adc, |a| a.set_low_threshold(1024), &mut chip).unwrap();
    drive(&mut adc, |a| a.set_high_threshold(0xFC00), &mut chip).unwrap();
    assert_eq!(drive(&mut adc, |a| a.get_low_threshold(), &mut chip).unwrap(), 1024);
    assert_eq!(drive(&mut adc, |a| a.get_high_threshold(), &mut chip).unwrap(), 0xFC00);
}

#[test]
fn thresholds_outside_model_range_are_refused() {
    let mut adc = QwiicADC::new(QwiicADCConfig::default());
    let mut chip = SimChip::new();
    for t in [2048u16, 3072, 0x7FFF, 0xF7FF] {
        match drive(&mut adc, |a| a.set_low_threshold(t), &mut chip) {
            Err(AdcError::InvalidThreshold(v)) => assert_eq!(v, t),
            _ => panic!("threshold {} should be refused", t),
        }
    }
    assert!(chip.log.is_empty());
    assert!(drive(&mut adc, |a| a.set_high_threshold(2047), &mut chip).is_ok());
    assert!(drive(&mut adc, |a| a.set_high_threshold(0xF800), &mut chip).is_ok());

    let mut adc16 = QwiicADC::new(QwiicADCConfig::new("ADS1115".to_string()));
    assert!(drive(&mut adc16, |a| a.set_low_threshold(0x7FFF), &mut chip).is_ok());
    assert_eq!(chip.registers[2], 0x7FFF);
}

#[test]
fn gain_of_reading_must_match() {
    let mut adc = QwiicADC::new(QwiicADCConfig::default());
    let mut chip = SimChip::new();
    drive(&mut adc, |a| a.set_gain(PGA::Four), &mut chip).unwrap();
    chip.registers[0] = 0x4000;
    assert_eq!(drive(&mut adc, |a| a.get_single_ended(0), &mut chip).unwrap(), 0x0400);
    assert_eq!(adc.last_gain(), Some(PGA::Four));
    assert_eq!(chip.registers[1] & 0x0E00, PGA::Four.value());
    match adc.raw_to_voltage(0x0400, PGA::Two) {
        Err(AdcError::GainMismatch { recorded, supplied }) => {
            assert_eq!(recorded, PGA::Four);
            assert_eq!(supplied, PGA::Two);
        }
        _ => panic!("mismatched gain should be refused"),
    }
    assert_eq!(millivolts(adc.raw_to_voltage(0x0400, PGA::Four).unwrap()), 512.0);
}

#[test]
fn mask_is_no_gain_setting() {
    let mut adc = QwiicADC::new(QwiicADCConfig::default());
    let mut chip = SimChip::new();
    match drive(&mut adc, |a| a.set_gain(PGA::Mask), &mut chip) {
        Err(AdcError::InvalidGain(g)) => assert_eq!(g, PGA::Mask),
        _ => panic!("Mask should be refused"),
    }
    assert!(chip.log.is_empty());
    assert!(matches!(adc.raw_to_voltage(1024, PGA::Mask), Err(AdcError::InvalidGain(PGA::Mask))));
    assert_eq!(AdcError::InvalidGain(PGA::Mask).message(), "Invalid gain: Mask");
}

#[test]
fn voltage_independent_of_bit_width() {
    let a12 = QwiicADC::new(QwiicADCConfig::default());
    let a16 = QwiicADC::new(QwiicADCConfig::new("ADS1115".to_string()));
    for raw in [0u16, 1, 1000, 2048, 4095] {
        for gain in [PGA::TwoThirds, PGA::One, PGA::Two, PGA::Four, PGA::Eight, PGA::Sixteen] {
            let v12 = a12.raw_to_voltage(raw, gain).unwrap();
            let v16 = a16.raw_to_voltage(16 * raw, gain).unwrap();
            assert_eq!(v12.numerator as u64 * v16.denominator as u64, v16.numerator as u64 * v12.denominator as u64);
        }
    }
}

#[test]
fn continuous_mode_start_read_stop() {
    let mut adc = QwiicADC::new(QwiicADCConfig::default());
    let mut chip = SimChip::new();
    assert_eq!(drive(&mut adc, |a| a.start_continuous(2), &mut chip).unwrap(), 0xE483);
    assert_eq!(chip.registers[1], 0xE483);
    chip.registers[0] = 0x1230;
    assert_eq!(drive(&mut adc, |a| a.read_last_conversion(), &mut chip).unwrap(), 0x0123);
    assert_eq!(adc.last_gain(), Some(PGA::Two));
    drive(&mut adc, |a| a.stop_continuous(), &mut chip).unwrap();
    assert_eq!(chip.registers[1], 0xE583);
}

#[test]
fn bus_error_ends_transaction_unchanged() {
    let mut adc = QwiicADC::new(QwiicADCConfig::default());
    let mut tx = adc.set_gain(PGA::One);
    assert_eq!(tx.next_action(), BusAction::WriteByte(0x01));
    tx.answer(Ok(0));
    tx.answer(Err(LinuxI2CError::Errno(121)));
    assert!(tx.is_finished());
    assert_eq!(tx.next_action(), BusAction::Finish);
    match adc.complete(tx) {
        Err(AdcError::I2cError(LinuxI2CError::Errno(n))) => assert_eq!(n, 121),
        _ => panic!("the bus error should come back"),
    }
    assert_eq!(adc.last_gain(), None);
}

#[test]
fn raw_register_access() {
    let mut adc = QwiicADC::new(QwiicADCConfig::default());
    let mut chip = SimChip::new();
    assert_eq!(drive(&mut adc, |a| a.is_connected(), &mut chip).unwrap(), 0x85);
    assert_eq!(drive(&mut adc, |a| a.read_register(0x01), &mut chip).unwrap(), 0x85);
    assert_eq!(drive(&mut adc, |a| a.write_register(0x03, 0x1234), &mut chip).unwrap(), 0x1234);
    assert_eq!(drive(&mut adc, |a| a.read_register_16bit(0x03), &mut chip).unwrap(), 0x1234);
    let n = chip.log.len();
    assert_eq!(drive(&mut adc, |a| a.write_byte(0x06), &mut chip).unwrap(), 0x06);
    assert_eq!(chip.log[n..].to_vec(), vec![BusAction::WriteByte(0x06), BusAction::Delay(10)]);
    assert_eq!(drive(&mut adc, |a| a.get_analog_data(1), &mut chip).unwrap(), 0);
    assert_eq!(chip.registers[1], 0xD583);
}
