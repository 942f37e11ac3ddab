//! The operating-mode field of the Configuration register.
//!
//! The low 3 bits of the Configuration register select whether the chip is
//! powered down, takes a single triggered measurement, or measures
//! continuously. Several codes map to the same mode; writing a mode always
//! uses its canonical code and preserves every other configuration bit.

use vstd::prelude::*;

verus! {

/// The operating mode of the INA3221.
#[derive(Debug, Clone, Copy, PartialEq, Eq, Structural)]
pub enum OperatingMode {
    /// Power save mode, no measurements are performed.
    PowerDown,
    /// Shunt and bus voltage measurements are performed once.
    Triggered,
    /// Shunt and bus voltage measurements are performed continuously.
    Continuous,
}

impl OperatingMode {
    /// The canonical mode code written into the low 3 bits of the
    /// Configuration register.
    pub open spec fn spec_code(self) -> u16 {
        match self {
            OperatingMode::PowerDown => 0x0,
            OperatingMode::Triggered => 0x3,
            OperatingMode::Continuous => 0x7,
        }
    }

    /// Returns the canonical mode code of this mode.
    pub fn code(self) -> (code: u16)
        ensures
            code == self.spec_code(),
    {
        match self {
            OperatingMode::PowerDown => 0x0,
            OperatingMode::Triggered => 0x3,
            OperatingMode::Continuous => 0x7,
        }
    }
}

/// The operating mode selected by a Configuration register value: codes 1, 2
/// and 3 mean triggered, codes 5, 6 and 7 mean continuous, and codes 0 and 4
/// mean power-down.
pub open spec fn spec_mode_of_config(config: u16) -> OperatingMode {
    let code = config & 0x7;
    if code == 0x1 || code == 0x2 || code == 0x3 {
        OperatingMode::Triggered
    } else if code == 0x5 || code == 0x6 || code == 0x7 {
        OperatingMode::Continuous
    } else {
        OperatingMode::PowerDown
    }
}

/// Decodes the operating-mode field of a Configuration register value.
pub fn mode_of_config(config: u16) -> (mode: OperatingMode)
    ensures
        mode == spec_mode_of_config(config),
{
    match config & 0x7 {
        0x01 => OperatingMode::Triggered,
        0x02 => OperatingMode::Triggered,
        0x03 => OperatingMode::Triggered,
        0x05 => OperatingMode::Continuous,
        0x06 => OperatingMode::Continuous,
        0x07 => OperatingMode::Continuous,
        _ => OperatingMode::PowerDown,
    }
}

/// A Configuration register value with its mode field replaced: the low 3
/// bits are cleared and the canonical code of the mode is set, while every
/// other bit is preserved.
pub open spec fn spec_config_with_mode(config: u16, mode: OperatingMode) -> u16 {
    (config & 0xFFF8) | mode.spec_code()
}

/// Replaces the operating-mode field of a Configuration register value,
/// preserving every other bit.
pub fn config_with_mode(config: u16, mode: OperatingMode) -> (updated: u16)
    ensures
        updated == spec_config_with_mode(config, mode),
{
    (config & 0xFFF8) | mode.code()
}

} // verus!
