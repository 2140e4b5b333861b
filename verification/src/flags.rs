//! The two 8-bit flag sets of the system-status payload. Every byte value is
//! a valid flag set; union and intersection are bitwise.

use vstd::prelude::*;

verus! {

/// The switch-setting flags reported by the tracking unit.
#[derive(Clone, Copy, Debug, PartialEq, Eq, Structural)]
pub struct SwitchSettingFlags {
    bits: u8,
}

/// The LED-indicator flags reported by the tracking unit.
#[derive(Clone, Copy, Debug, PartialEq, Eq, Structural)]
pub struct LEDFlags {
    bits: u8,
}

impl View for SwitchSettingFlags {
    type V = u8;

    closed spec fn view(&self) -> u8 {
        self.bits
    }
}

impl View for LEDFlags {
    type V = u8;

    closed spec fn view(&self) -> u8 {
        self.bits
    }
}

impl SwitchSettingFlags {
    pub const S5_HEX_00: u8 = 0x01;

    pub const S5_HEX_01: u8 = 0x02;

    pub const S5_HEX_02: u8 = 0x04;

    pub const S5_HEX_03: u8 = 0x08;

    pub const S2_LEFT: u8 = 0x00;

    pub const S2_RIGHT: u8 = 0x00;

    pub const S4_CLOSED: u8 = 0x00;

    pub const IS_S3_RIGHT: u8 = 0x80;

    /// The flag set holding exactly the given bits; total, since every byte
    /// is a valid switch-setting pattern.
    pub closed spec fn spec_from_bits(bits: u8) -> SwitchSettingFlags {
        SwitchSettingFlags { bits }
    }

    /// Builds the flag set with exactly the given bits.
    pub fn from_bits(bits: u8) -> (r: Self)
        ensures
            r == SwitchSettingFlags::spec_from_bits(bits),
            r@ == bits,
    {
        SwitchSettingFlags { bits }
    }

    /// The raw byte of this flag set.
    pub fn bits(&self) -> (r: u8)
        ensures
            r == self@,
    {
        self.bits
    }

    /// Bitwise union of two flag sets.
    pub fn union(self, other: Self) -> (r: Self)
        ensures
            r@ == self@ | other@,
    {
        SwitchSettingFlags { bits: self.bits | other.bits }
    }

    /// Bitwise intersection of two flag sets.
    pub fn intersection(self, other: Self) -> (r: Self)
        ensures
            r@ == self@ & other@,
    {
        SwitchSettingFlags { bits: self.bits & other.bits }
    }
}

impl LEDFlags {
    pub const VIDEO_PRESENT: u8 = 0x01;

    pub const VIDEO_OK: u8 = 0x02;

    pub const SERIAL_PRESENT: u8 = 0x04;

    pub const DATA_FREEZE: u8 = 0x08;

    pub const TOO_FEW_TARGETS: u8 = 0x10;

    pub const RMS_ERROR_HIGH: u8 = 0x20;

    pub const DSP_ALERT: u8 = 0x40;

    pub const FAULT: u8 = 0x80;

    /// The flag set holding exactly the given bits; total, since every byte
    /// is a valid LED pattern.
    pub closed spec fn spec_from_bits(bits: u8) -> LEDFlags {
        LEDFlags { bits }
    }

    /// Builds the flag set with exactly the given bits.
    pub fn from_bits(bits: u8) -> (r: Self)
        ensures
            r == LEDFlags::spec_from_bits(bits),
            r@ == bits,
    {
        LEDFlags { bits }
    }

    /// The raw byte of this flag set.
    pub fn bits(&self) -> (r: u8)
        ensures
            r == self@,
    {
        self.bits
    }

    /// Bitwise union of two flag sets.
    pub fn union(self, other: Self) -> (r: Self)
        ensures
            r@ == self@ | other@,
    {
        LEDFlags { bits: self.bits | other.bits }
    }

    /// Bitwise intersection of two flag sets.
    pub fn intersection(self, other: Self) -> (r: Self)
        ensures
            r@ == self@ & other@,
    {
        LEDFlags { bits: self.bits & other.bits }
    }
}

impl Default for SwitchSettingFlags {
    /// The empty flag set.
    fn default() -> (r: Self)
        ensures
            r == SwitchSettingFlags::spec_from_bits(0),
            r@ == 0,
    {
        SwitchSettingFlags { bits: 0 }
    }
}

impl Default for LEDFlags {
    /// The empty flag set.
    fn default() -> (r: Self)
        ensures
            r == LEDFlags::spec_from_bits(0),
            r@ == 0,
    {
        LEDFlags { bits: 0 }
    }
}

/// A flag set whose bits are `b` is exactly `spec_from_bits(b)`.
pub proof fn lemma_switch_from_bits_eq(b: u8, f: SwitchSettingFlags)
    requires
        f@ == b,
    ensures
        SwitchSettingFlags::spec_from_bits(b) == f,
{
}

/// A flag set whose bits are `b` is exactly `spec_from_bits(b)`.
pub proof fn lemma_led_from_bits_eq(b: u8, f: LEDFlags)
    requires
        f@ == b,
    ensures
        LEDFlags::spec_from_bits(b) == f,
{
}

/// Two switch-setting flag sets holding the same bits are the same value.
pub proof fn lemma_switch_flags_eq(a: SwitchSettingFlags, b: SwitchSettingFlags)
    requires
        a@ == b@,
    ensures
        a == b,
{
}

/// Two LED flag sets holding the same bits are the same value.
pub proof fn lemma_led_flags_eq(a: LEDFlags, b: LEDFlags)
    requires
        a@ == b@,
    ensures
        a == b,
{
}

} // verus!
