//! Register map of the converter and the codec of its 16-bit configuration word.

use vstd::prelude::*;

verus! {

/// Bit of the configuration word that starts a single conversion.
pub const OS_MASK: u16 = 0x8000;
/// Input multiplexer field of the configuration word.
pub const MUX_MASK: u16 = 0x7000;
/// Programmable-gain field of the configuration word.
pub const PGA_MASK: u16 = 0x0E00;
/// Operating-mode bit of the configuration word.
pub const MODE_MASK: u16 = 0x0100;
/// Sample-rate field of the configuration word.
pub const RATE_MASK: u16 = 0x00E0;

/// I2C addresses selected by the strapping of the ADDR pin.
#[derive(Clone, Copy, Debug, PartialEq, Eq, Structural)]
pub enum Addresses {
    /// ADDR pin connected to GND (the default address).
    Gnd,
    /// ADDR pin connected to VDD.
    Vdd,
    /// ADDR pin connected to SDA.
    Sda,
    /// ADDR pin connected to SCL.
    Scl,
}

impl Addresses {
    pub open spec fn spec_value(self) -> u16 {
        match self {
            Addresses::Gnd => 0x48,
            Addresses::Vdd => 0x49,
            Addresses::Sda => 0x4A,
            Addresses::Scl => 0x4B,
        }
    }

    /// The 7-bit bus address.
    #[verifier::when_used_as_spec(spec_value)]
    pub fn value(self) -> (r: u16)
        ensures
            r == self.spec_value(),
    {
        match self {
            Addresses::Gnd => 0x48,
            Addresses::Vdd => 0x49,
            Addresses::Sda => 0x4A,
            Addresses::Scl => 0x4B,
        }
    }
}

/// Operational-status bit: writing `Single` starts a conversion.
#[derive(Clone, Copy, Debug, PartialEq, Eq, Structural)]
pub enum OS {
    /// Begin a single conversion.
    Single,
    /// No conversion started (reads as: conversion in progress).
    Busy,
}

impl OS {
    pub open spec fn spec_value(self) -> u16 {
        match self {
            OS::Single => 0x8000,
            OS::Busy => 0x0000,
        }
    }

    /// The bit pattern in the configuration word.
    #[verifier::when_used_as_spec(spec_value)]
    pub fn value(self) -> (r: u16)
        ensures
            r == self.spec_value(),
    {
        match self {
            OS::Single => 0x8000,
            OS::Busy => 0x0000,
        }
    }
}

/// Register pointers.
#[derive(Clone, Copy, Debug, PartialEq, Eq, Structural)]
pub enum Pointers {
    /// Conversion register: the result of the last conversion.
    Convert,
    /// Configuration register.
    Config,
    /// Low comparator threshold.
    LowThresh,
    /// High comparator threshold.
    HighThresh,
}

impl Pointers {
    pub open spec fn spec_value(self) -> u8 {
        match self {
            Pointers::Convert => 0x00,
            Pointers::Config => 0x01,
            Pointers::LowThresh => 0x02,
            Pointers::HighThresh => 0x03,
        }
    }

    /// The register address sent as the pointer byte.
    #[verifier::when_used_as_spec(spec_value)]
    pub fn value(self) -> (r: u8)
        ensures
            r == self.spec_value(),
    {
        match self {
            Pointers::Convert => 0x00,
            Pointers::Config => 0x01,
            Pointers::LowThresh => 0x02,
            Pointers::HighThresh => 0x03,
        }
    }
}

/// Operating modes.
#[derive(Clone, Copy, Debug, PartialEq, Eq, Structural)]
pub enum Modes {
    /// The chip converts continuously.
    Continuous,
    /// The chip converts once per trigger and then powers down.
    Single,
}

impl Modes {
    pub open spec fn spec_value(self) -> u16 {
        match self {
            Modes::Continuous => 0x0000,
            Modes::Single => 0x0100,
        }
    }

    /// The bit pattern in the configuration word.
    #[verifier::when_used_as_spec(spec_value)]
    pub fn value(self) -> (r: u16)
        ensures
            r == self.spec_value(),
    {
        match self {
            Modes::Continuous => 0x0000,
            Modes::Single => 0x0100,
        }
    }
}

/// Input multiplexer selections: four single-ended inputs and four
/// differential pairings.
#[derive(Clone, Copy, Debug, PartialEq, Eq, Structural)]
pub enum Mux {
    /// AIN0 against ground.
    Single0,
    /// AIN1 against ground.
    Single1,
    /// AIN2 against ground.
    Single2,
    /// AIN3 against ground.
    Single3,
    /// AIN0 against AIN1.
    DiffP0N1,
    /// AIN0 against AIN3.
    DiffP0N3,
    /// AIN1 against AIN3.
    DiffP1N3,
    /// AIN2 against AIN3.
    DiffP2N3,
}

impl Mux {
    pub open spec fn spec_value(self) -> u16 {
        match self {
            Mux::Single0 => 0x4000,
            Mux::Single1 => 0x5000,
            Mux::Single2 => 0x6000,
            Mux::Single3 => 0x7000,
            Mux::DiffP0N1 => 0x0000,
            Mux::DiffP0N3 => 0x1000,
            Mux::DiffP1N3 => 0x2000,
            Mux::DiffP2N3 => 0x3000,
        }
    }

    /// The bit pattern in the configuration word.
    #[verifier::when_used_as_spec(spec_value)]
    pub fn value(self) -> (r: u16)
        ensures
            r == self.spec_value(),
    {
        match self {
            Mux::Single0 => 0x4000,
            Mux::Single1 => 0x5000,
            Mux::Single2 => 0x6000,
            Mux::Single3 => 0x7000,
            Mux::DiffP0N1 => 0x0000,
            Mux::DiffP0N3 => 0x1000,
            Mux::DiffP1N3 => 0x2000,
            Mux::DiffP2N3 => 0x3000,
        }
    }
}

/// Sample rates.
#[derive(Clone, Copy, Debug, PartialEq, Eq, Structural)]
pub enum SampleRates {
    S128Hz,
    S250Hz,
    S490Hz,
    S920Hz,
    /// The power-on default.
    S1600Hz,
    S2400Hz,
    S3300Hz,
}

impl SampleRates {
    pub open spec fn spec_value(self) -> u16 {
        match self {
            SampleRates::S128Hz => 0x0000,
            SampleRates::S250Hz => 0x0020,
            SampleRates::S490Hz => 0x0040,
            SampleRates::S920Hz => 0x0060,
            SampleRates::S1600Hz => 0x0080,
            SampleRates::S2400Hz => 0x00A0,
            SampleRates::S3300Hz => 0x00C0,
        }
    }

    /// The bit pattern in the configuration word.
    #[verifier::when_used_as_spec(spec_value)]
    pub fn value(self) -> (r: u16)
        ensures
            r == self.spec_value(),
    {
        match self {
            SampleRates::S128Hz => 0x0000,
            SampleRates::S250Hz => 0x0020,
            SampleRates::S490Hz => 0x0040,
            SampleRates::S920Hz => 0x0060,
            SampleRates::S1600Hz => 0x0080,
            SampleRates::S2400Hz => 0x00A0,
            SampleRates::S3300Hz => 0x00C0,
        }
    }
}

/// Programmable-gain settings, named by gain; `Mask` is the whole field.
#[derive(Clone, Copy, Debug, PartialEq, Eq, Structural)]
pub enum PGA {
    /// All bits of the gain field.
    Mask,
    /// +/- 6.144 V.
    TwoThirds,
    /// +/- 4.096 V.
    One,
    /// +/- 2.048 V (the power-on default).
    Two,
    /// +/- 1.024 V.
    Four,
    /// +/- 0.512 V.
    Eight,
    /// +/- 0.256 V.
    Sixteen,
}

impl PGA {
    pub open spec fn spec_value(self) -> u16 {
        match self {
            PGA::Mask => 0x0E00,
            PGA::TwoThirds => 0x0000,
            PGA::One => 0x0200,
            PGA::Two => 0x0400,
            PGA::Four => 0x0600,
            PGA::Eight => 0x0800,
            PGA::Sixteen => 0x0A00,
        }
    }

    /// The bit pattern in the configuration word.
    #[verifier::when_used_as_spec(spec_value)]
    pub fn value(self) -> (r: u16)
        ensures
            r == self.spec_value(),
    {
        match self {
            PGA::Mask => 0x0E00,
            PGA::TwoThirds => 0x0000,
            PGA::One => 0x0200,
            PGA::Two => 0x0400,
            PGA::Four => 0x0600,
            PGA::Eight => 0x0800,
            PGA::Sixteen => 0x0A00,
        }
    }
}

impl PGA {
    pub open spec fn spec_name(self) -> Seq<char> {
        match self {
            PGA::Mask => "Mask"@,
            PGA::TwoThirds => "TwoThirds"@,
            PGA::One => "One"@,
            PGA::Two => "Two"@,
            PGA::Four => "Four"@,
            PGA::Eight => "Eight"@,
            PGA::Sixteen => "Sixteen"@,
        }
    }

    /// The name of the setting.
    pub fn name(self) -> (r: &'static str)
        ensures
            r@ == self.spec_name(),
    {
        match self {
            PGA::Mask => "Mask",
            PGA::TwoThirds => "TwoThirds",
            PGA::One => "One",
            PGA::Two => "Two",
            PGA::Four => "Four",
            PGA::Eight => "Eight",
            PGA::Sixteen => "Sixteen",
        }
    }
}

/// Comparator mode.
#[derive(Clone, Copy, Debug, PartialEq, Eq, Structural)]
pub enum Cmode {
    /// Traditional comparator with hysteresis.
    Trad,
    /// Window comparator.
    Window,
}

impl Cmode {
    pub open spec fn spec_value(self) -> u16 {
        match self {
            Cmode::Trad => 0x0000,
            Cmode::Window => 0x0010,
        }
    }

    /// The bit pattern in the configuration word.
    #[verifier::when_used_as_spec(spec_value)]
    pub fn value(self) -> (r: u16)
        ensures
            r == self.spec_value(),
    {
        match self {
            Cmode::Trad => 0x0000,
            Cmode::Window => 0x0010,
        }
    }
}

/// Comparator polarity of the ALERT/RDY pin.
#[derive(Clone, Copy, Debug, PartialEq, Eq, Structural)]
pub enum Cpol {
    /// Low when active.
    ActvLow,
    /// High when active.
    ActvHigh,
}

impl Cpol {
    pub open spec fn spec_value(self) -> u16 {
        match self {
            Cpol::ActvLow => 0x0000,
            Cpol::ActvHigh => 0x0008,
        }
    }

    /// The bit pattern in the configuration word.
    #[verifier::when_used_as_spec(spec_value)]
    pub fn value(self) -> (r: u16)
        ensures
            r == self.spec_value(),
    {
        match self {
            Cpol::ActvLow => 0x0000,
            Cpol::ActvHigh => 0x0008,
        }
    }
}

/// Latching of the comparator.
#[derive(Clone, Copy, Debug, PartialEq, Eq, Structural)]
pub enum Clat {
    /// Non-latching comparator.
    NonLat,
    /// Latching comparator.
    Latch,
}

impl Clat {
    pub open spec fn spec_value(self) -> u16 {
        match self {
            Clat::NonLat => 0x0000,
            Clat::Latch => 0x0004,
        }
    }

    /// The bit pattern in the configuration word.
    #[verifier::when_used_as_spec(spec_value)]
    pub fn value(self) -> (r: u16)
        ensures
            r == self.spec_value(),
    {
        match self {
            Clat::NonLat => 0x0000,
            Clat::Latch => 0x0004,
        }
    }
}

/// Comparator queue: after how many conversions the comparator asserts, or
/// that it is disabled.
#[derive(Clone, Copy, Debug, PartialEq, Eq, Structural)]
pub enum Cque {
    OneConv,
    TwoConv,
    FourConv,
    /// Comparator disabled.
    Disable,
}

impl Cque {
    pub open spec fn spec_value(self) -> u16 {
        match self {
            Cque::OneConv => 0x0000,
            Cque::TwoConv => 0x0001,
            Cque::FourConv => 0x0002,
            Cque::Disable => 0x0003,
        }
    }

    /// The bit pattern in the configuration word.
    #[verifier::when_used_as_spec(spec_value)]
    pub fn value(self) -> (r: u16)
        ensures
            r == self.spec_value(),
    {
        match self {
            Cque::OneConv => 0x0000,
            Cque::TwoConv => 0x0001,
            Cque::FourConv => 0x0002,
            Cque::Disable => 0x0003,
        }
    }
}


/// The word with the bits under `mask` replaced by `bits`: the read-modify-write
/// of one field.
pub open spec fn with_field(word: u16, mask: u16, bits: u16) -> u16 {
    (word & !mask) | bits
}

/// Replacing a field whose new pattern lies inside its mask sets exactly that
/// field and keeps every other bit.
pub proof fn lemma_with_field(word: u16, mask: u16, bits: u16)
    requires
        bits & !mask == 0,
    ensures
        with_field(word, mask, bits) & mask == bits,
        with_field(word, mask, bits) & !mask == word & !mask,
{
    assert(((word & !mask) | bits) & mask == bits && ((word & !mask) | bits) & !mask == word
        & !mask) by (bit_vector)
        requires
            bits & !mask == 0,
    ;
}

/// Every gain pattern, `Mask` included, lies inside the gain field.
pub proof fn lemma_gain_in_field(gain: PGA)
    ensures
        gain.spec_value() & !PGA_MASK == 0,
{
    let v = gain.spec_value();
    assert(v & !0x0E00u16 == 0) by (bit_vector)
        requires
            v == 0x0E00u16 || v == 0u16 || v == 0x0200u16 || v == 0x0400u16 || v == 0x0600u16
                || v == 0x0800u16 || v == 0x0A00u16,
    ;
}

/// Every sample-rate pattern lies inside the rate field.
pub proof fn lemma_rate_in_field(rate: SampleRates)
    ensures
        rate.spec_value() & !RATE_MASK == 0,
{
    let v = rate.spec_value();
    assert(v & !0x00E0u16 == 0) by (bit_vector)
        requires
            v == 0u16 || v == 0x0020u16 || v == 0x0040u16 || v == 0x0060u16 || v == 0x0080u16
                || v == 0x00A0u16 || v == 0x00C0u16,
    ;
}

/// Both mode patterns lie inside the mode bit.
pub proof fn lemma_mode_in_field(mode: Modes)
    ensures
        mode.spec_value() & !MODE_MASK == 0,
{
    let v = mode.spec_value();
    assert(v & !0x0100u16 == 0) by (bit_vector)
        requires
            v == 0u16 || v == 0x0100u16,
    ;
}

/// The configuration word with its gain field set to `gain`.
pub fn with_gain(word: u16, gain: PGA) -> (r: u16)
    ensures
        r == with_field(word, PGA_MASK, gain.spec_value()),
        r & PGA_MASK == gain.spec_value(),
        r & !PGA_MASK == word & !PGA_MASK,
{
    proof {
        lemma_gain_in_field(gain);
        lemma_with_field(word, PGA_MASK, gain.spec_value());
    }
    (word & !PGA_MASK) | gain.value()
}

/// The configuration word with its sample-rate field set to `rate`.
pub fn with_sample_rate(word: u16, rate: SampleRates) -> (r: u16)
    ensures
        r == with_field(word, RATE_MASK, rate.spec_value()),
        r & RATE_MASK == rate.spec_value(),
        r & !RATE_MASK == word & !RATE_MASK,
{
    proof {
        lemma_rate_in_field(rate);
        lemma_with_field(word, RATE_MASK, rate.spec_value());
    }
    (word & !RATE_MASK) | rate.value()
}

/// The configuration word with its mode bit set to `mode`.
pub fn with_mode(word: u16, mode: Modes) -> (r: u16)
    ensures
        r == with_field(word, MODE_MASK, mode.spec_value()),
        r & MODE_MASK == mode.spec_value(),
        r & !MODE_MASK == word & !MODE_MASK,
{
    proof {
        lemma_mode_in_field(mode);
        lemma_with_field(word, MODE_MASK, mode.spec_value());
    }
    (word & !MODE_MASK) | mode.value()
}

/// The gain field of a configuration word.
pub fn gain_field(word: u16) -> (r: u16)
    ensures
        r == word & PGA_MASK,
{
    word & PGA_MASK
}

/// The sample-rate field of a configuration word.
pub fn sample_rate_field(word: u16) -> (r: u16)
    ensures
        r == word & RATE_MASK,
{
    word & RATE_MASK
}

/// The comparator fields of the configuration word (mode, polarity, latching
/// and queue).
pub const COMP_MASK: u16 = 0x001F;

/// The fields that a conversion keeps from the configuration register: gain,
/// sample rate and comparator.
pub const KEPT_MASK: u16 = 0x0EFF;

/// The configuration word that starts a conversion from the configuration
/// word `config` the chip holds: start bit set, the given mode and input
/// selection, gain, sample rate and comparator fields kept.
pub open spec fn conversion_word(config: u16, mode: Modes, mux: u16) -> u16 {
    (config & KEPT_MASK) | OS::Single.spec_value() | mode.spec_value() | mux
}

/// What a conversion word holds: the start bit, the mode and the input
/// selection asked for, and the kept fields of the configuration it came from.
pub proof fn lemma_conversion_word(config: u16, mode: Modes, mux: u16)
    requires
        mux & !MUX_MASK == 0,
    ensures
        conversion_word(config, mode, mux) & OS_MASK == OS_MASK,
        conversion_word(config, mode, mux) & MODE_MASK == mode.spec_value(),
        conversion_word(config, mode, mux) & MUX_MASK == mux,
        conversion_word(config, mode, mux) & KEPT_MASK == config & KEPT_MASK,
        conversion_word(config, mode, mux) & PGA_MASK == config & PGA_MASK,
        conversion_word(config, mode, mux) & RATE_MASK == config & RATE_MASK,
        conversion_word(config, mode, mux) & COMP_MASK == config & COMP_MASK,
{
    let m = mode.spec_value();
    assert(((config & 0x0EFFu16) | 0x8000u16 | m | mux) & 0x8000u16 == 0x8000u16
        && ((config & 0x0EFFu16) | 0x8000u16 | m | mux) & 0x0100u16 == m
        && ((config & 0x0EFFu16) | 0x8000u16 | m | mux) & 0x7000u16 == mux
        && ((config & 0x0EFFu16) | 0x8000u16 | m | mux) & 0x0EFFu16 == config & 0x0EFFu16
        && ((config & 0x0EFFu16) | 0x8000u16 | m | mux) & 0x0E00u16 == config & 0x0E00u16
        && ((config & 0x0EFFu16) | 0x8000u16 | m | mux) & 0x00E0u16 == config & 0x00E0u16
        && ((config & 0x0EFFu16) | 0x8000u16 | m | mux) & 0x001Fu16 == config & 0x001Fu16)
        by (bit_vector)
        requires
            m == 0u16 || m == 0x0100u16,
            mux & !0x7000u16 == 0u16,
    ;
}

/// Builds the configuration word that starts a conversion.
pub fn build_conversion_word(config: u16, mode: Modes, mux: u16) -> (r: u16)
    ensures
        r == conversion_word(config, mode, mux),
{
    (config & KEPT_MASK) | OS::Single.value() | mode.value() | mux
}

/// The gain setting that the gain field of a configuration word selects: the
/// three highest patterns all select +/- 0.256 V.
pub open spec fn gain_of_field(word: u16) -> PGA {
    let g = word & PGA_MASK;
    if g == 0x0000 {
        PGA::TwoThirds
    } else if g == 0x0200 {
        PGA::One
    } else if g == 0x0400 {
        PGA::Two
    } else if g == 0x0600 {
        PGA::Four
    } else if g == 0x0800 {
        PGA::Eight
    } else {
        PGA::Sixteen
    }
}

/// Decodes the gain field of a configuration word.
pub fn gain_setting(word: u16) -> (r: PGA)
    ensures
        r == gain_of_field(word),
        r != PGA::Mask,
{
    let g = word & PGA_MASK;
    if g == 0x0000 {
        PGA::TwoThirds
    } else if g == 0x0200 {
        PGA::One
    } else if g == 0x0400 {
        PGA::Two
    } else if g == 0x0600 {
        PGA::Four
    } else if g == 0x0800 {
        PGA::Eight
    } else {
        PGA::Sixteen
    }
}

/// The big-endian 16-bit word made of two bytes.
pub open spec fn word_of(high: u8, low: u8) -> u16 {
    (high as int * 256 + low as int) as u16
}

/// Joins the two bytes read from a register, most significant first.
pub fn word_from_bytes(high: u8, low: u8) -> (r: u16)
    ensures
        r == word_of(high, low),
        r as int == high as int * 256 + low as int,
{
    (high as u16) * 256 + (low as u16)
}

/// Splits a word into the two bytes written to a register, most significant
/// first.
pub fn word_to_bytes(word: u16) -> (r: (u8, u8))
    ensures
        r.0 as int == word as int / 256,
        r.1 as int == word as int % 256,
        word_of(r.0, r.1) == word,
{
    ((word / 256) as u8, (word % 256) as u8)
}

} // verus!
