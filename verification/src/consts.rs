//! Protocol constants: marker bytes, power-state nibbles, fan-speed and
//! mode codes, and the temperature code table with its inverse.

use vstd::prelude::*;

verus! {

/// Marker byte carried in the `flags` position of every command record.
pub const FLAGS_DEF: u8 = 0b10110010;
/// Alternate marker byte observed on some remotes; not produced by `AcCtrl::new`.
pub const FLAGS_TOGGLE: u8 = 0b10110101;

/// Low nibble of `fan_and_state` when the unit is commanded on.
pub const STATE_ON: u8 = 0b1111;
/// Low nibble of `fan_and_state` when the unit is commanded off.
pub const STATE_OFF: u8 = 0b1011;
/// Alternate state nibble observed on some remotes; not produced by `AcCtrl::new`.
pub const STATE_TOGGLE: u8 = 0b0101;

/// Temperature code reserved for "no temperature": used when the unit is
/// off and when the mode is fan-only.
pub const TEMP_CODE_OFF: u8 = 0b1110;

#[derive(Clone, Copy, PartialEq, Eq, Structural, Debug)]
pub enum FanSpeed {
    Auto,
    Low,
    Medium,
    High,
    Off,
}

#[derive(Clone, Copy, PartialEq, Eq, Structural, Debug)]
pub enum Mode {
    Cool,
    Heat,
    Dry,
    Auto,
    /// Fan-only has no code of its own on the wire: it is transmitted as
    /// `Dry` with the temperature pinned to the off sentinel.
    Fan,
}

/// High nibble of `fan_and_state` for each fan speed.
pub open spec fn spec_fan_code(f: FanSpeed) -> u8 {
    match f {
        FanSpeed::Auto => 0b1011,
        FanSpeed::Low => 0b1001,
        FanSpeed::Medium => 0b0101,
        FanSpeed::High => 0b0011,
        FanSpeed::Off => 0b0111,
    }
}

#[verifier::when_used_as_spec(spec_fan_code)]
pub fn fan_code(f: FanSpeed) -> (c: u8)
    ensures
        c == spec_fan_code(f),
{
    match f {
        FanSpeed::Auto => 0b1011,
        FanSpeed::Low => 0b1001,
        FanSpeed::Medium => 0b0101,
        FanSpeed::High => 0b0011,
        FanSpeed::Off => 0b0111,
    }
}

/// Low nibble of `temp_and_mode` for each mode. Fan-only is encoded as
/// `Dry`; the two are told apart on decode by the temperature code.
pub open spec fn spec_mode_code(m: Mode) -> u8 {
    match m {
        Mode::Cool => 0b0000,
        Mode::Heat => 0b1100,
        Mode::Dry => 0b0100,
        Mode::Auto => 0b1000,
        Mode::Fan => 0b0100,
    }
}

#[verifier::when_used_as_spec(spec_mode_code)]
pub fn mode_code(m: Mode) -> (c: u8)
    ensures
        c == spec_mode_code(m),
{
    match m {
        Mode::Cool => 0b0000,
        Mode::Heat => 0b1100,
        Mode::Dry => 0b0100,
        Mode::Auto => 0b1000,
        Mode::Fan => 0b0100,
    }
}

/// The degree values the temperature code table maps: 17..=30 degrees
/// Celsius, plus 0 as the reserved "off" sentinel.
pub open spec fn valid_degrees(deg: u8) -> bool {
    deg == 0 || (17 <= deg <= 30)
}

/// The temperature code table: a fixed bijection between the valid degree
/// values and 4-bit codes. 0 (the off sentinel) maps to `TEMP_CODE_OFF`.
pub open spec fn spec_temp_code(deg: u8) -> u8
    recommends
        valid_degrees(deg),
{
    if deg == 17 {
        0b0000
    } else if deg == 18 {
        0b0001
    } else if deg == 19 {
        0b0011
    } else if deg == 20 {
        0b0010
    } else if deg == 21 {
        0b0110
    } else if deg == 22 {
        0b0111
    } else if deg == 23 {
        0b0101
    } else if deg == 24 {
        0b0100
    } else if deg == 25 {
        0b1100
    } else if deg == 26 {
        0b1101
    } else if deg == 27 {
        0b1001
    } else if deg == 28 {
        0b1000
    } else if deg == 29 {
        0b1010
    } else if deg == 30 {
        0b1011
    } else {
        0b1110
    }
}

#[verifier::when_used_as_spec(spec_temp_code)]
pub fn temp_code(deg: u8) -> (c: u8)
    requires
        valid_degrees(deg),
    ensures
        c == spec_temp_code(deg),
{
    if deg == 17 {
        0b0000
    } else if deg == 18 {
        0b0001
    } else if deg == 19 {
        0b0011
    } else if deg == 20 {
        0b0010
    } else if deg == 21 {
        0b0110
    } else if deg == 22 {
        0b0111
    } else if deg == 23 {
        0b0101
    } else if deg == 24 {
        0b0100
    } else if deg == 25 {
        0b1100
    } else if deg == 26 {
        0b1101
    } else if deg == 27 {
        0b1001
    } else if deg == 28 {
        0b1000
    } else if deg == 29 {
        0b1010
    } else if deg == 30 {
        0b1011
    } else {
        0b1110
    }
}

/// Inverse of the temperature code table: the degree value a 4-bit code
/// stands for (`Some(0)` for the off sentinel), or `None` for a code the
/// table never produces.
pub open spec fn spec_degrees_of_code(c: u8) -> Option<u8> {
    if c == 0b0000 {
        Some(17)
    } else if c == 0b0001 {
        Some(18)
    } else if c == 0b0011 {
        Some(19)
    } else if c == 0b0010 {
        Some(20)
    } else if c == 0b0110 {
        Some(21)
    } else if c == 0b0111 {
        Some(22)
    } else if c == 0b0101 {
        Some(23)
    } else if c == 0b0100 {
        Some(24)
    } else if c == 0b1100 {
        Some(25)
    } else if c == 0b1101 {
        Some(26)
    } else if c == 0b1001 {
        Some(27)
    } else if c == 0b1000 {
        Some(28)
    } else if c == 0b1010 {
        Some(29)
    } else if c == 0b1011 {
        Some(30)
    } else if c == 0b1110 {
        Some(0)
    } else {
        None
    }
}

#[verifier::when_used_as_spec(spec_degrees_of_code)]
pub fn degrees_of_code(c: u8) -> (deg: Option<u8>)
    ensures
        deg == spec_degrees_of_code(c),
{
    if c == 0b0000 {
        Some(17)
    } else if c == 0b0001 {
        Some(18)
    } else if c == 0b0011 {
        Some(19)
    } else if c == 0b0010 {
        Some(20)
    } else if c == 0b0110 {
        Some(21)
    } else if c == 0b0111 {
        Some(22)
    } else if c == 0b0101 {
        Some(23)
    } else if c == 0b0100 {
        Some(24)
    } else if c == 0b1100 {
        Some(25)
    } else if c == 0b1101 {
        Some(26)
    } else if c == 0b1001 {
        Some(27)
    } else if c == 0b1000 {
        Some(28)
    } else if c == 0b1010 {
        Some(29)
    } else if c == 0b1011 {
        Some(30)
    } else if c == 0b1110 {
        Some(0)
    } else {
        None
    }
}

/// The temperature code table is a bijection: distinct valid degree values
/// (the off sentinel included) always receive distinct codes.
pub proof fn lemma_temp_code_injective(a: u8, b: u8)
    requires
        valid_degrees(a),
        valid_degrees(b),
        a != b,
    ensures
        spec_temp_code(a) != spec_temp_code(b),
{
}

/// The inverse table really inverts the temperature code table: looking up
/// the code of any valid degree value gives that degree value back.
pub proof fn lemma_temp_code_roundtrip(deg: u8)
    requires
        valid_degrees(deg),
    ensures
        spec_degrees_of_code(spec_temp_code(deg)) == Some(deg),
{
}

} // verus!
