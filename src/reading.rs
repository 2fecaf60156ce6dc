//! Device models and the interpretation of raw conversion results.

use vstd::prelude::*;
use crate::registers::PGA;

verus! {

/// The two members of the converter family.
#[derive(Clone, Copy, Debug, PartialEq, Eq, Structural)]
pub enum DeviceModel {
    /// 12-bit converter; its result is left-justified in the register.
    Ads1015,
    /// 16-bit converter.
    Ads1115,
}

/// The model that a model tag names: "ADS1015" is the 12-bit model, any
/// other tag the 16-bit one.
pub open spec fn model_of(tag: Seq<char>) -> DeviceModel {
    if tag == "ADS1015"@ {
        DeviceModel::Ads1015
    } else {
        DeviceModel::Ads1115
    }
}

/// Driver configuration: the tag of the attached chip model.
pub struct QwiicADCConfig {
    model: String,
}

impl QwiicADCConfig {
    pub closed spec fn tag(&self) -> Seq<char> {
        self.model@
    }

    /// A configuration for the chip model named by `model`.
    pub fn new(model: String) -> (r: QwiicADCConfig)
        ensures
            r.tag() == model@,
    {
        QwiicADCConfig { model }
    }

    /// The model tag.
    pub fn model(&self) -> (r: &str)
        ensures
            r@ == self.tag(),
    {
        self.model.as_str()
    }

    /// The device model that the tag selects.
    pub fn device_model(&self) -> (r: DeviceModel)
        ensures
            r == model_of(self.tag()),
    {
        let twelve_bit = String::from_str("ADS1015");
        proof {
            reveal_strlit("ADS1015");
        }
        if self.model == twelve_bit {
            DeviceModel::Ads1015
        } else {
            DeviceModel::Ads1115
        }
    }
}

impl Default for QwiicADCConfig {
    /// The 12-bit model.
    fn default() -> (r: QwiicADCConfig)
        ensures
            r.tag() == "ADS1015"@,
    {
        proof {
            reveal_strlit("ADS1015");
        }
        QwiicADCConfig::new(String::from_str("ADS1015"))
    }
}


/// The model's reading of a conversion-register word: the 12-bit model's
/// result is the upper twelve bits, the 16-bit model's the whole word.
pub open spec fn interpreted(raw: u16, model: DeviceModel) -> u16 {
    match model {
        DeviceModel::Ads1015 => raw >> 4,
        DeviceModel::Ads1115 => raw,
    }
}

/// Interprets a conversion-register word for the given model.
pub fn interpret(raw: u16, model: DeviceModel) -> (r: u16)
    ensures
        r == interpreted(raw, model),
        model == DeviceModel::Ads1015 ==> r as int == raw as int / 16,
        model == DeviceModel::Ads1115 ==> r == raw,
{
    match model {
        DeviceModel::Ads1015 => {
            assert(raw >> 4 == raw / 16) by (bit_vector);
            raw >> 4
        },
        DeviceModel::Ads1115 => raw,
    }
}

/// Full-scale input range of a gain setting, in millivolts. The whole-field
/// pattern `Mask` is no gain setting and has no range.
pub open spec fn full_scale_range(gain: PGA) -> u32 {
    match gain {
        PGA::TwoThirds => 6144,
        PGA::One => 4096,
        PGA::Two => 2048,
        PGA::Four => 1024,
        PGA::Eight => 512,
        PGA::Sixteen => 256,
        PGA::Mask => 0,
    }
}

/// Full-scale code of a model: the count that stands for the full-scale range.
pub open spec fn full_scale_code(model: DeviceModel) -> u32 {
    match model {
        DeviceModel::Ads1015 => 2048,
        DeviceModel::Ads1115 => 32768,
    }
}

/// Computes the full-scale range of a gain setting.
pub fn range_millivolts(gain: PGA) -> (r: u32)
    requires
        gain != PGA::Mask,
    ensures
        r == full_scale_range(gain),
{
    match gain {
        PGA::TwoThirds => 6144,
        PGA::One => 4096,
        PGA::Two => 2048,
        PGA::Four => 1024,
        PGA::Eight => 512,
        PGA::Sixteen => 256,
        PGA::Mask => 0,
    }
}

/// Computes the full-scale code of a model.
pub fn code_span(model: DeviceModel) -> (r: u32)
    ensures
        r == full_scale_code(model),
{
    match model {
        DeviceModel::Ads1015 => 2048,
        DeviceModel::Ads1115 => 32768,
    }
}

/// An exact voltage: `numerator / denominator` millivolts.
#[derive(Clone, Copy, Debug, PartialEq, Eq, Structural)]
pub struct Millivolts {
    pub numerator: u32,
    pub denominator: u32,
}

/// The voltage that a reading stands for: `value / full_scale_code(model) *
/// full_scale_range(gain)` millivolts.
pub open spec fn voltage_of(value: u16, gain: PGA, model: DeviceModel) -> Millivolts {
    Millivolts {
        numerator: (value as int * full_scale_range(gain) as int) as u32,
        denominator: full_scale_code(model),
    }
}

/// Converts a reading to the voltage it stands for.
pub fn to_voltage(value: u16, gain: PGA, model: DeviceModel) -> (r: Millivolts)
    requires
        gain != PGA::Mask,
    ensures
        r == voltage_of(value, gain, model),
        r.numerator == value as int * full_scale_range(gain) as int,
        r.denominator == full_scale_code(model),
        r.denominator > 0,
{
    let range = range_millivolts(gain);
    assert(value as int * range as int <= 65535 * 6144) by (nonlinear_arith)
        requires
            value <= 65535,
            range <= 6144,
    ;
    Millivolts { numerator: value as u32 * range, denominator: code_span(model) }
}


/// The voltage scales with the full-scale range: the same reading stands for
/// twice the voltage at gain `One` (4.096 V) as at gain `Two` (2.048 V).
pub proof fn lemma_gain_scaling(raw: u16, model: DeviceModel)
    ensures
        voltage_of(raw, PGA::One, model).numerator == 2 * voltage_of(raw, PGA::Two, model).numerator,
        voltage_of(raw, PGA::One, model).denominator == voltage_of(raw, PGA::Two, model).denominator,
{
    let r = raw as int;
    assert(0 <= r * 2048 <= 65535 * 2048 && r * 4096 == 2 * (r * 2048)) by (nonlinear_arith)
        requires
            0 <= r <= 65535,
    ;
    assert(voltage_of(raw, PGA::One, model).numerator == r * 4096);
    assert(voltage_of(raw, PGA::Two, model).numerator == r * 2048);
}

} // verus!
