//! Status and configuration flags of the Mask/Enable register.
//!
//! The register holds fourteen meaningful bits: alert-status bits that the
//! chip sets and clears, and enable/control bits that the caller writes. The
//! flags are kept together as one named bit set backed by the raw 16-bit
//! word, so encoding and decoding stay symmetric.

use vstd::prelude::*;

verus! {

/// Status and configuration flags for alerts, backed by the raw value of the
/// Mask/Enable register.
#[derive(Debug, Clone, Copy, PartialEq, Eq, Structural)]
pub struct MaskEnableFlags {
    bits: u16,
}

impl View for MaskEnableFlags {
    type V = u16;

    closed spec fn view(&self) -> u16 {
        self.bits
    }
}

impl MaskEnableFlags {
    /// Wraps a raw Mask/Enable register word.
    pub fn from_bits(bits: u16) -> (flags: MaskEnableFlags)
        ensures
            flags@ == bits,
    {
        MaskEnableFlags { bits }
    }

    /// Returns the raw register word backing the flag set.
    pub fn bits(&self) -> (bits: u16)
        ensures
            bits == self@,
    {
        self.bits
    }

    /// Returns whether no flag at all is set.
    pub fn is_empty(&self) -> (r: bool)
        ensures
            r == (self@ == 0),
    {
        self.bits == 0
    }

    /// Returns whether every flag of `other` is set in `self`.
    pub fn contains(&self, other: &MaskEnableFlags) -> (r: bool)
        ensures
            r == (self@ & other@ == other@),
    {
        self.bits & other.bits == other.bits
    }

    /// The last measurement has been completed and the data is ready to be
    /// read (bit 0).
    pub fn conversion_ready(&self) -> (r: bool)
        ensures
            r == (self@ & 0x0001 != 0),
    {
        self.bits & 0x0001 != 0
    }

    /// Corresponds to the TimingControl pin, can be manually asserted by
    /// software (bit 1).
    pub fn timing_control_alert(&self) -> (r: bool)
        ensures
            r == (self@ & 0x0002 != 0),
    {
        self.bits & 0x0002 != 0
    }

    /// Corresponds to the PowerValid pin, can be manually asserted by
    /// software (bit 2).
    pub fn power_valid_alert(&self) -> (r: bool)
        ensures
            r == (self@ & 0x0004 != 0),
    {
        self.bits & 0x0004 != 0
    }

    /// Channel 1 has exceeded the warning alert limit (bit 3).
    pub fn warning_alert_1(&self) -> (r: bool)
        ensures
            r == (self@ & 0x0008 != 0),
    {
        self.bits & 0x0008 != 0
    }

    /// Channel 2 has exceeded the warning alert limit (bit 4).
    pub fn warning_alert_2(&self) -> (r: bool)
        ensures
            r == (self@ & 0x0010 != 0),
    {
        self.bits & 0x0010 != 0
    }

    /// Channel 3 has exceeded the warning alert limit (bit 5).
    pub fn warning_alert_3(&self) -> (r: bool)
        ensures
            r == (self@ & 0x0020 != 0),
    {
        self.bits & 0x0020 != 0
    }

    /// The sum of the shunt voltages has exceeded the summation alert limit
    /// (bit 6).
    pub fn summation_alert(&self) -> (r: bool)
        ensures
            r == (self@ & 0x0040 != 0),
    {
        self.bits & 0x0040 != 0
    }

    /// Channel 1 has exceeded the critical alert limit (bit 7).
    pub fn critical_alert_1(&self) -> (r: bool)
        ensures
            r == (self@ & 0x0080 != 0),
    {
        self.bits & 0x0080 != 0
    }

    /// Channel 2 has exceeded the critical alert limit (bit 8).
    pub fn critical_alert_2(&self) -> (r: bool)
        ensures
            r == (self@ & 0x0100 != 0),
    {
        self.bits & 0x0100 != 0
    }

    /// Channel 3 has exceeded the critical alert limit (bit 9).
    pub fn critical_alert_3(&self) -> (r: bool)
        ensures
            r == (self@ & 0x0200 != 0),
    {
        self.bits & 0x0200 != 0
    }

    /// Critical alert latch enable: if set, the corresponding critical alert
    /// pin is latched (bit 10).
    pub fn critical_alert_latch(&self) -> (r: bool)
        ensures
            r == (self@ & 0x0400 != 0),
    {
        self.bits & 0x0400 != 0
    }

    /// Warning alert latch enable: if set, the corresponding warning alert
    /// pin is latched (bit 11).
    pub fn warning_alert_latch(&self) -> (r: bool)
        ensures
            r == (self@ & 0x0800 != 0),
    {
        self.bits & 0x0800 != 0
    }

    /// Include channel 1 in the summation calculation (bit 12).
    pub fn summation_control_1(&self) -> (r: bool)
        ensures
            r == (self@ & 0x1000 != 0),
    {
        self.bits & 0x1000 != 0
    }

    /// Include channel 2 in the summation calculation (bit 13).
    pub fn summation_control_2(&self) -> (r: bool)
        ensures
            r == (self@ & 0x2000 != 0),
    {
        self.bits & 0x2000 != 0
    }

    /// Include channel 3 in the summation calculation (bit 14).
    pub fn summation_control_3(&self) -> (r: bool)
        ensures
            r == (self@ & 0x4000 != 0),
    {
        self.bits & 0x4000 != 0
    }
}

} // verus!
