//! The driver: its configuration, the state it records, and the transaction
//! behind each of its operations.

use vstd::prelude::*;
use crate::error::AdcError;
use crate::reading::{
    full_scale_range, lemma_gain_scaling, model_of, to_voltage, voltage_of, DeviceModel,
    Millivolts, QwiicADCConfig,
};
use crate::registers::{
    gain_of_field, gain_setting, Modes, Mux, Pointers, SampleRates, MUX_MASK, PGA,
};
use crate::transaction::{Op, Transaction};

verus! {

/// The signed value of a 16-bit two's-complement word.
pub open spec fn signed_of(v: u16) -> int {
    if v < 0x8000 {
        v as int
    } else {
        v as int - 0x10000
    }
}

/// Whether a comparator threshold lies in the signed range of the model:
/// -2048..=2047 for the 12-bit model, any 16-bit value for the 16-bit one.
pub open spec fn threshold_in_range(model: DeviceModel, v: u16) -> bool {
    match model {
        DeviceModel::Ads1015 => -2048 <= signed_of(v) <= 2047,
        DeviceModel::Ads1115 => true,
    }
}

/// The multiplexer code of a single-ended channel.
pub open spec fn single_ended_code(channel: u8) -> u16 {
    match channel {
        0 => Mux::Single0.spec_value(),
        1 => Mux::Single1.spec_value(),
        2 => Mux::Single2.spec_value(),
        _ => Mux::Single3.spec_value(),
    }
}

/// Whether a multiplexer code is one of the four differential pairings.
pub open spec fn is_differential_code(mode: u16) -> bool {
    mode == Mux::DiffP0N1.spec_value() || mode == Mux::DiffP0N3.spec_value()
        || mode == Mux::DiffP1N3.spec_value() || mode == Mux::DiffP2N3.spec_value()
}

/// The driver of one converter. It records the model and the gain that the
/// chip was configured with for the last reading; every other setting lives
/// in the chip's configuration register.
pub struct QwiicADC {
    config: QwiicADCConfig,
    model: DeviceModel,
    last_gain: Option<PGA>,
}

impl QwiicADC {
    /// The model of the attached chip.
    pub closed spec fn spec_model(&self) -> DeviceModel {
        self.model
    }

    /// The configuration the driver was made with.
    pub closed spec fn spec_config(&self) -> QwiicADCConfig {
        self.config
    }

    /// The gain of the last reading, if any was taken.
    pub closed spec fn spec_last_gain(&self) -> Option<PGA> {
        self.last_gain
    }

    /// The recorded model is the one the configuration names.
    pub closed spec fn wf(&self) -> bool {
        self.model == model_of(self.config.tag())
    }

    /// A driver for the chip model that `config` names, with no reading taken
    /// yet.
    pub fn new(config: QwiicADCConfig) -> (r: QwiicADC)
        ensures
            r.wf(),
            r.spec_config() == config,
            r.spec_model() == model_of(config.tag()),
            r.spec_last_gain() is None,
    {
        let model = config.device_model();
        QwiicADC { config, model, last_gain: None }
    }

    /// The configuration the driver was made with.
    pub fn config(&self) -> (r: &QwiicADCConfig)
        ensures
            *r == self.spec_config(),
            self.wf() ==> model_of(r.tag()) == self.spec_model(),
    {
        &self.config
    }

    /// The model of the attached chip.
    pub fn model(&self) -> (r: DeviceModel)
        ensures
            r == self.spec_model(),
    {
        self.model
    }

    /// The gain of the last reading, if any was taken.
    pub fn last_gain(&self) -> (r: Option<PGA>)
        ensures
            r == self.spec_last_gain(),
    {
        self.last_gain
    }

    /// Accepts the single-ended channels 0..=3 and refuses any other.
    pub fn validate_channel(channel: u8) -> (r: Result<(), AdcError>)
        ensures
            r is Ok <==> channel <= 3,
            channel > 3 ==> r == Err::<(), AdcError>(AdcError::InvalidChannel(channel)),
    {
        if channel > 3 {
            Err(AdcError::InvalidChannel(channel))
        } else {
            Ok(())
        }
    }

    /// Accepts the four differential multiplexer codes and refuses any other.
    pub fn validate_differential_mode(mode: u16) -> (r: Result<(), AdcError>)
        ensures
            r is Ok <==> is_differential_code(mode),
            !is_differential_code(mode) ==> r == Err::<(), AdcError>(
                AdcError::InvalidDifferentialMode(mode),
            ),
    {
        if mode == Mux::DiffP0N1.value() || mode == Mux::DiffP0N3.value() || mode
            == Mux::DiffP1N3.value() || mode == Mux::DiffP2N3.value() {
            Ok(())
        } else {
            Err(AdcError::InvalidDifferentialMode(mode))
        }
    }

    /// Accepts a comparator threshold in the signed range of the model.
    pub fn validate_threshold(&self, threshold: u16) -> (r: Result<(), AdcError>)
        ensures
            r is Ok <==> threshold_in_range(self.spec_model(), threshold),
            !threshold_in_range(self.spec_model(), threshold) ==> r == Err::<(), AdcError>(
                AdcError::InvalidThreshold(threshold),
            ),
    {
        match self.model {
            DeviceModel::Ads1015 => {
                if threshold <= 2047 || threshold >= 0xF800 {
                    Ok(())
                } else {
                    Err(AdcError::InvalidThreshold(threshold))
                }
            },
            DeviceModel::Ads1115 => Ok(()),
        }
    }

    /// The multiplexer code of a single-ended channel.
    pub fn single_ended_mux(channel: u8) -> (r: u16)
        requires
            channel <= 3,
        ensures
            r == single_ended_code(channel),
    {
        match channel {
            0 => Mux::Single0.value(),
            1 => Mux::Single1.value(),
            2 => Mux::Single2.value(),
            _ => Mux::Single3.value(),
        }
    }

    /// Probes the chip by reading the first byte of the configuration register.
    pub fn is_connected(&self) -> (r: Transaction)
        ensures
            r == Transaction::started(Op::ReadByteAt(Pointers::Config.spec_value())),
            r.wf(),
    {
        Transaction::start(Op::ReadByteAt(Pointers::Config.value()))
    }

    /// Reads the first byte of a register.
    pub fn read_register(&self, location: u8) -> (r: Transaction)
        ensures
            r == Transaction::started(Op::ReadByteAt(location)),
            r.wf(),
    {
        Transaction::start(Op::ReadByteAt(location))
    }

    /// Reads a 16-bit register.
    pub fn read_register_16bit(&self, location: u8) -> (r: Transaction)
        ensures
            r == Transaction::started(Op::ReadWordAt(location)),
            r.wf(),
    {
        Transaction::start(Op::ReadWordAt(location))
    }

    /// Writes a 16-bit register.
    pub fn write_register(&self, register: u8, val: u16) -> (r: Transaction)
        ensures
            r == Transaction::started(Op::WriteWordAt(register, val)),
            r.wf(),
    {
        Transaction::start(Op::WriteWordAt(register, val))
    }

    /// Sends a single command byte, followed by a short pause.
    pub fn write_byte(&self, command: u8) -> (r: Transaction)
        ensures
            r == Transaction::started(Op::Command(command)),
            r.wf(),
    {
        Transaction::start(Op::Command(command))
    }

    /// Sets the gain field of the configuration register, keeping its other
    /// bits. `Mask` is no gain setting and is refused before any bus traffic.
    pub fn set_gain(&self, gain: PGA) -> (r: Transaction)
        ensures
            r.wf(),
            gain != PGA::Mask ==> r == Transaction::started(Op::SetGain(gain)),
            gain == PGA::Mask ==> r == Transaction::refused(AdcError::InvalidGain(gain)),
    {
        if gain == PGA::Mask {
            Transaction::refuse(AdcError::InvalidGain(gain))
        } else {
            Transaction::start(Op::SetGain(gain))
        }
    }

    /// Reads the gain field of the configuration register.
    pub fn get_gain(&self) -> (r: Transaction)
        ensures
            r == Transaction::started(Op::GetGain),
            r.wf(),
    {
        Transaction::start(Op::GetGain)
    }

    /// Sets the sample-rate field of the configuration register, keeping its
    /// other bits.
    pub fn set_sample_rate(&self, rate: SampleRates) -> (r: Transaction)
        ensures
            r == Transaction::started(Op::SetSampleRate(rate)),
            r.wf(),
    {
        Transaction::start(Op::SetSampleRate(rate))
    }

    /// Reads the sample-rate field of the configuration register.
    pub fn get_sample_rate(&self) -> (r: Transaction)
        ensures
            r == Transaction::started(Op::GetSampleRate),
            r.wf(),
    {
        Transaction::start(Op::GetSampleRate)
    }

    /// Sets the mode bit of the configuration register, keeping its other bits.
    pub fn set_mode(&self, mode: Modes) -> (r: Transaction)
        ensures
            r == Transaction::started(Op::SetMode(mode)),
            r.wf(),
    {
        Transaction::start(Op::SetMode(mode))
    }

    /// Writes the low comparator threshold; a value outside the model's signed
    /// range is refused before any bus traffic.
    pub fn set_low_threshold(&self, threshold: u16) -> (r: Transaction)
        ensures
            r.wf(),
            threshold_in_range(self.spec_model(), threshold) ==> r == Transaction::started(
                Op::WriteWordAt(Pointers::LowThresh.spec_value(), threshold),
            ),
            !threshold_in_range(self.spec_model(), threshold) ==> r == Transaction::refused(
                AdcError::InvalidThreshold(threshold),
            ),
    {
        match self.validate_threshold(threshold) {
            Ok(()) => Transaction::start(Op::WriteWordAt(Pointers::LowThresh.value(), threshold)),
            Err(e) => Transaction::refuse(e),
        }
    }

    /// Writes the high comparator threshold; a value outside the model's
    /// signed range is refused before any bus traffic.
    pub fn set_high_threshold(&self, threshold: u16) -> (r: Transaction)
        ensures
            r.wf(),
            threshold_in_range(self.spec_model(), threshold) ==> r == Transaction::started(
                Op::WriteWordAt(Pointers::HighThresh.spec_value(), threshold),
            ),
            !threshold_in_range(self.spec_model(), threshold) ==> r == Transaction::refused(
                AdcError::InvalidThreshold(threshold),
            ),
    {
        match self.validate_threshold(threshold) {
            Ok(()) => Transaction::start(Op::WriteWordAt(Pointers::HighThresh.value(), threshold)),
            Err(e) => Transaction::refuse(e),
        }
    }

    /// Reads the low comparator threshold.
    pub fn get_low_threshold(&self) -> (r: Transaction)
        ensures
            r == Transaction::started(Op::ReadWordAt(Pointers::LowThresh.spec_value())),
            r.wf(),
    {
        Transaction::start(Op::ReadWordAt(Pointers::LowThresh.value()))
    }

    /// Reads the high comparator threshold.
    pub fn get_high_threshold(&self) -> (r: Transaction)
        ensures
            r == Transaction::started(Op::ReadWordAt(Pointers::HighThresh.spec_value())),
            r.wf(),
    {
        Transaction::start(Op::ReadWordAt(Pointers::HighThresh.value()))
    }

    /// Puts the chip in continuous mode on a single-ended channel. The
    /// configuration register is read first and its gain, sample rate and
    /// comparator fields are kept. Channels above 3 are refused before any bus
    /// traffic.
    pub fn start_continuous(&self, channel: u8) -> (r: Transaction)
        ensures
            r.wf(),
            channel <= 3 ==> r == Transaction::started(
                Op::StartContinuous(single_ended_code(channel)),
            ),
            channel > 3 ==> r == Transaction::refused(AdcError::InvalidChannel(channel)),
    {
        match Self::validate_channel(channel) {
            Ok(()) => Transaction::start(Op::StartContinuous(Self::single_ended_mux(channel))),
            Err(e) => Transaction::refuse(e),
        }
    }

    /// Returns the chip to single-shot mode.
    pub fn stop_continuous(&self) -> (r: Transaction)
        ensures
            r == Transaction::started(Op::SetMode(Modes::Single)),
            r.wf(),
    {
        self.set_mode(Modes::Single)
    }

    /// Reads the conversion register without starting a conversion.
    pub fn read_last_conversion(&self) -> (r: Transaction)
        ensures
            r == Transaction::started(Op::Fetch(self.spec_model())),
            r.wf(),
    {
        Transaction::start(Op::Fetch(self.model))
    }

    /// A single-shot reading of a single-ended channel. The configuration
    /// register is read first and its gain, sample rate and comparator fields
    /// are kept in the word that starts the conversion. Channels above 3 are
    /// refused before any bus traffic.
    pub fn get_single_ended(&self, channel: u8) -> (r: Transaction)
        ensures
            r.wf(),
            channel <= 3 ==> r == Transaction::started(
                Op::Convert(single_ended_code(channel), self.spec_model()),
            ),
            channel > 3 ==> r == Transaction::refused(AdcError::InvalidChannel(channel)),
    {
        match Self::validate_channel(channel) {
            Ok(()) => Transaction::start(Op::Convert(Self::single_ended_mux(channel), self.model)),
            Err(e) => Transaction::refuse(e),
        }
    }

    /// A single-shot differential reading; without a pairing, AIN0 against
    /// AIN1. The configuration register's gain, sample rate and comparator
    /// fields are kept. A code other than the four differential pairings is
    /// refused before any bus traffic.
    pub fn get_differential(&self, cfg_mux_diff: Option<u16>) -> (r: Transaction)
        ensures
            r.wf(),
            ({
                let mode = match cfg_mux_diff {
                    Some(m) => m,
                    None => Mux::DiffP0N1.spec_value(),
                };
                &&& is_differential_code(mode) ==> r == Transaction::started(
                    Op::Convert(mode, self.spec_model()),
                )
                &&& !is_differential_code(mode) ==> r == Transaction::refused(
                    AdcError::InvalidDifferentialMode(mode),
                )
            }),
    {
        let mode = match cfg_mux_diff {
            Some(m) => m,
            None => Mux::DiffP0N1.value(),
        };
        match Self::validate_differential_mode(mode) {
            Ok(()) => Transaction::start(Op::Convert(mode, self.model)),
            Err(e) => Transaction::refuse(e),
        }
    }

    /// Same as `get_single_ended`.
    pub fn get_analog_data(&self, channel: u8) -> (r: Transaction)
        ensures
            r.wf(),
            channel <= 3 ==> r == Transaction::started(
                Op::Convert(single_ended_code(channel), self.spec_model()),
            ),
            channel > 3 ==> r == Transaction::refused(AdcError::InvalidChannel(channel)),
    {
        self.get_single_ended(channel)
    }

    /// Takes the outcome of a finished transaction and records, for a
    /// reading, the gain that the configuration register it read selects.
    pub fn complete(&mut self, tx: Transaction) -> (r: Result<u16, AdcError>)
        requires
            old(self).wf(),
            tx.spec_outcome() is Some,
        ensures
            tx.spec_outcome() == Some(r),
            final(self).wf(),
            final(self).spec_config() == old(self).spec_config(),
            final(self).spec_model() == old(self).spec_model(),
            final(self).spec_last_gain() == (match (tx.spec_op(), r) {
                (Op::Convert(_, _), Ok(_)) => Some(gain_of_field(tx.spec_config())),
                (Op::Fetch(_), Ok(_)) => Some(gain_of_field(tx.spec_config())),
                _ => old(self).spec_last_gain(),
            }),
    {
        let op = tx.op();
        let config = tx.config;
        let outcome = tx.into_outcome();
        if outcome.is_ok() {
            match op {
                Op::Convert(_, _) | Op::Fetch(_) => {
                    self.last_gain = Some(gain_setting(config));
                },
                _ => {},
            }
        }
        outcome
    }

    /// What `raw_to_voltage` returns: `Mask` is no gain setting; a gain other
    /// than the one recorded for the last reading is a mismatch; otherwise the
    /// voltage of the reading.
    pub open spec fn voltage_result(&self, raw_value: u16, gain: PGA) -> Result<Millivolts, AdcError> {
        if gain == PGA::Mask {
            Err(AdcError::InvalidGain(gain))
        } else {
            match self.spec_last_gain() {
                Some(recorded) if recorded != gain => Err(
                    AdcError::GainMismatch { recorded, supplied: gain },
                ),
                _ => Ok(voltage_of(raw_value, gain, self.spec_model())),
            }
        }
    }

    /// The voltage of a reading taken with `gain`. `Mask` is refused, and so
    /// is a gain other than the one the driver recorded for its last reading.
    pub fn raw_to_voltage(&self, raw_value: u16, gain: PGA) -> (r: Result<Millivolts, AdcError>)
        ensures
            r == self.voltage_result(raw_value, gain),
    {
        if gain == PGA::Mask {
            return Err(AdcError::InvalidGain(gain));
        }
        match self.last_gain {
            Some(recorded) => {
                if recorded != gain {
                    return Err(AdcError::GainMismatch { recorded, supplied: gain });
                }
            },
            None => {},
        }
        Ok(to_voltage(raw_value, gain, self.model))
    }
}

/// The input selections the driver converts lie inside the multiplexer field.
pub proof fn lemma_input_codes_in_field(channel: u8, mode: u16)
    ensures
        channel <= 3 ==> single_ended_code(channel) & !MUX_MASK == 0,
        is_differential_code(mode) ==> mode & !MUX_MASK == 0,
{
    let c = single_ended_code(channel);
    assert(c & !0x7000u16 == 0u16) by (bit_vector)
        requires
            c == 0x4000u16 || c == 0x5000u16 || c == 0x6000u16 || c == 0x7000u16,
    ;
    if is_differential_code(mode) {
        assert(mode & !0x7000u16 == 0u16) by (bit_vector)
            requires
                mode == 0u16 || mode == 0x1000u16 || mode == 0x2000u16 || mode == 0x3000u16,
        ;
    }
}

/// The voltage does not depend on the model's bit width: a 12-bit count
/// `raw` stands for the same voltage as the 16-bit count `16 * raw`, for any
/// gain setting that neither driver's last reading contradicts.
pub proof fn lemma_model_normalization(a12: QwiicADC, a16: QwiicADC, raw: u16, gain: PGA)
    requires
        a12.spec_model() == DeviceModel::Ads1015,
        a16.spec_model() == DeviceModel::Ads1115,
        raw <= 4095,
        gain != PGA::Mask,
        a12.spec_last_gain() is None || a12.spec_last_gain() == Some(gain),
        a16.spec_last_gain() is None || a16.spec_last_gain() == Some(gain),
    ensures
        a12.voltage_result(raw, gain) is Ok,
        a16.voltage_result((16 * raw) as u16, gain) is Ok,
        ({
            let v12 = a12.voltage_result(raw, gain)->Ok_0;
            let v16 = a16.voltage_result((16 * raw) as u16, gain)->Ok_0;
            v12.numerator * v16.denominator == v16.numerator * v12.denominator
        }),
{
    let v12 = a12.voltage_result(raw, gain)->Ok_0;
    let v16 = a16.voltage_result((16 * raw) as u16, gain)->Ok_0;
    let range = full_scale_range(gain) as int;
    let r = raw as int;
    assert(0 <= r * range <= 4095 * 6144 && 0 <= 16 * r * range <= 65520 * 6144) by (nonlinear_arith)
        requires
            0 <= r <= 4095,
            0 <= range <= 6144,
    ;
    assert(v12.numerator == r * range);
    assert(v16.numerator == 16 * r * range);
    assert((r * range) * 32768 == (16 * r * range) * 2048) by (nonlinear_arith);
}

/// The voltage scales with the full-scale range: for a driver that has taken
/// no reading yet, any reading stands for twice the voltage at gain `One`
/// (4.096 V) as at gain `Two` (2.048 V).
pub proof fn lemma_gain_doubling(adc: QwiicADC, raw: u16)
    requires
        adc.spec_last_gain() is None,
    ensures
        adc.voltage_result(raw, PGA::One) is Ok,
        adc.voltage_result(raw, PGA::Two) is Ok,
        adc.voltage_result(raw, PGA::One)->Ok_0.numerator == 2 * adc.voltage_result(
            raw,
            PGA::Two,
        )->Ok_0.numerator,
        adc.voltage_result(raw, PGA::One)->Ok_0.denominator == adc.voltage_result(
            raw,
            PGA::Two,
        )->Ok_0.denominator,
{
    lemma_gain_scaling(raw, adc.spec_model());
}

} // verus!
