//! Errors of the driver.

use vstd::prelude::*;
use crate::registers::PGA;
use i2cdev::linux::LinuxI2CError;

verus! {

/// The bus error of the Linux I2C transport, carried through unchanged.
#[verifier::external_type_specification]
#[verifier::external_body]
pub struct ExLinuxI2CError(LinuxI2CError);

/// What can go wrong in a driver operation.
#[derive(Debug)]
pub enum AdcError {
    /// A single-ended channel outside 0..=3.
    InvalidChannel(u8),
    /// A multiplexer code that is not one of the four differential pairings.
    InvalidDifferentialMode(u16),
    /// A comparator threshold outside the signed range of the device model.
    InvalidThreshold(u16),
    /// A gain pattern that is no gain setting (the whole-field `Mask`).
    InvalidGain(PGA),
    /// A voltage was asked for with another gain than the reading was taken with.
    GainMismatch { recorded: PGA, supplied: PGA },
    /// The bus transport failed.
    I2cError(LinuxI2CError),
}


/// The character of a digit in base 16, upper case; decimal digits are the
/// first ten.
pub open spec fn digit_char(d: int) -> char {
    if 0 <= d < 10 {
        ('0' as int + d) as char
    } else {
        ('A' as int + (d - 10)) as char
    }
}

/// Decimal notation of a number, without leading zeros.
pub open spec fn decimal(n: nat) -> Seq<char>
    decreases n,
{
    if n < 10 {
        seq![digit_char(n as int)]
    } else {
        decimal(n / 10) + seq![digit_char((n % 10) as int)]
    }
}

/// Four upper-case hexadecimal digits of a 16-bit word.
pub open spec fn hex4(v: u16) -> Seq<char> {
    let v = v as int;
    seq![digit_char(v / 4096), digit_char((v / 256) % 16), digit_char((v / 16) % 16), digit_char(v % 16)]
}

/// The text of one hexadecimal digit.
fn digit_text(d: u16) -> (r: &'static str)
    requires
        d < 16,
    ensures
        r@ == seq![digit_char(d as int)],
{
    proof {
        reveal_strlit("0");
        reveal_strlit("1");
        reveal_strlit("2");
        reveal_strlit("3");
        reveal_strlit("4");
        reveal_strlit("5");
        reveal_strlit("6");
        reveal_strlit("7");
        reveal_strlit("8");
        reveal_strlit("9");
        reveal_strlit("A");
        reveal_strlit("B");
        reveal_strlit("C");
        reveal_strlit("D");
        reveal_strlit("E");
        reveal_strlit("F");
    }
    let r = match d {
        0 => "0",
        1 => "1",
        2 => "2",
        3 => "3",
        4 => "4",
        5 => "5",
        6 => "6",
        7 => "7",
        8 => "8",
        9 => "9",
        10 => "A",
        11 => "B",
        12 => "C",
        13 => "D",
        14 => "E",
        _ => "F",
    };
    assert(r@ =~= seq![digit_char(d as int)]);
    r
}

/// Appends the decimal notation of a byte.
fn push_decimal(s: &mut String, n: u8)
    ensures
        final(s)@ == old(s)@ + decimal(n as nat),
{
    reveal_with_fuel(decimal, 3);
    let n = n as u16;
    if n >= 100 {
        s.append(digit_text(n / 100));
    }
    if n >= 10 {
        s.append(digit_text((n / 10) % 10));
    }
    s.append(digit_text(n % 10));
    proof {
        let nn = n as nat;
        if nn >= 100 {
            assert(decimal(nn / 10) == decimal(nn / 100) + seq![digit_char(((nn / 10) % 10) as int)]);
        }
    }
    assert(final(s)@ =~= old(s)@ + decimal(n as nat));
}

/// Appends four hexadecimal digits of a word.
fn push_hex4(s: &mut String, v: u16)
    ensures
        final(s)@ == old(s)@ + hex4(v),
{
    s.append(digit_text(v / 4096));
    s.append(digit_text((v / 256) % 16));
    s.append(digit_text((v / 16) % 16));
    s.append(digit_text(v % 16));
    assert(final(s)@ =~= old(s)@ + hex4(v));
}

impl AdcError {
    /// A sentence describing the error.
    pub fn message(&self) -> (r: String)
        ensures
            match self {
                AdcError::InvalidChannel(ch) => r@ == "Invalid channel: "@ + decimal(*ch as nat)
                    + ". Must be 0-3"@,
                AdcError::InvalidDifferentialMode(m) => r@ == "Invalid differential mode: 0x"@
                    + hex4(*m),
                AdcError::InvalidThreshold(t) => r@ == "Invalid threshold: 0x"@ + hex4(*t),
                AdcError::InvalidGain(g) => r@ == "Invalid gain: "@ + g.spec_name(),
                AdcError::GainMismatch { recorded, supplied } => r@ == "Gain mismatch: reading taken with gain "@
                    + recorded.spec_name() + ", voltage asked for gain "@ + supplied.spec_name(),
                AdcError::I2cError(_) => r@.len() >= 11 && r@.subrange(0, 11) == "I2C error: "@,
            },
    {
        match self {
            AdcError::InvalidChannel(ch) => {
                let mut s = String::from_str("Invalid channel: ");
                push_decimal(&mut s, *ch);
                s.append(". Must be 0-3");
                proof {
                    reveal_strlit("Invalid channel: ");
                    reveal_strlit(". Must be 0-3");
                }
                s
            },
            AdcError::InvalidDifferentialMode(m) => {
                let mut s = String::from_str("Invalid differential mode: 0x");
                push_hex4(&mut s, *m);
                s
            },
            AdcError::InvalidThreshold(t) => {
                let mut s = String::from_str("Invalid threshold: 0x");
                push_hex4(&mut s, *t);
                s
            },
            AdcError::InvalidGain(g) => {
                let mut s = String::from_str("Invalid gain: ");
                s.append(g.name());
                s
            },
            AdcError::GainMismatch { recorded, supplied } => {
                let mut s = String::from_str("Gain mismatch: reading taken with gain ");
                s.append(recorded.name());
                s.append(", voltage asked for gain ");
                s.append(supplied.name());
                s
            },
            AdcError::I2cError(e) => {
                proof {
                    reveal_strlit("I2C error: ");
                }
                let mut s = String::from_str("I2C error: ");
                let detail = transport_text(e);
                s.append(detail.as_str());
                assert(s@.subrange(0, 11) =~= "I2C error: "@);
                s
            },
        }
    }
}

/// Relies on the `Display` impl of i2cdev's `LinuxI2CError`, which renders the
/// errno or I/O error; nothing is claimed of its text.
#[verifier::external_body]
fn transport_text(e: &LinuxI2CError) -> String {
    e.to_string()
}

} // verus!
