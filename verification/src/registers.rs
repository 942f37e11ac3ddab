//! The register map of the INA3221.
//!
//! Each register is a 16-bit word selected by a one-byte address. The address
//! space is fixed: 0x00 through 0x11 for configuration, measurements, limits
//! and status, plus 0xFE/0xFF for identification.

use vstd::prelude::*;

verus! {

/// A register on the INA3221, identified by its one-byte address.
#[derive(Debug, Clone, Copy, PartialEq, Eq, Structural)]
pub enum Register {
    Configuration,
    ShuntVoltage1,
    BusVoltage1,
    ShuntVoltage2,
    BusVoltage2,
    ShuntVoltage3,
    BusVoltage3,
    CriticalAlertLimit1,
    WarningAlertLimit1,
    CriticalAlertLimit2,
    WarningAlertLimit2,
    CriticalAlertLimit3,
    WarningAlertLimit3,
    ShuntVoltageSum,
    ShuntVoltageSumLimit,
    MaskEnable,
    PowerValidUpperLimit,
    PowerValidLowerLimit,
    ManufacturerId,
    DieId,
}

impl Register {
    /// The one-byte bus address of the register.
    pub open spec fn spec_address(self) -> u8 {
        match self {
            Register::Configuration => 0x00,
            Register::ShuntVoltage1 => 0x01,
            Register::BusVoltage1 => 0x02,
            Register::ShuntVoltage2 => 0x03,
            Register::BusVoltage2 => 0x04,
            Register::ShuntVoltage3 => 0x05,
            Register::BusVoltage3 => 0x06,
            Register::CriticalAlertLimit1 => 0x07,
            Register::WarningAlertLimit1 => 0x08,
            Register::CriticalAlertLimit2 => 0x09,
            Register::WarningAlertLimit2 => 0x0A,
            Register::CriticalAlertLimit3 => 0x0B,
            Register::WarningAlertLimit3 => 0x0C,
            Register::ShuntVoltageSum => 0x0D,
            Register::ShuntVoltageSumLimit => 0x0E,
            Register::MaskEnable => 0x0F,
            Register::PowerValidUpperLimit => 0x10,
            Register::PowerValidLowerLimit => 0x11,
            Register::ManufacturerId => 0xFE,
            Register::DieId => 0xFF,
        }
    }

    /// Returns the one-byte bus address of the register.
    pub fn address(self) -> (addr: u8)
        ensures
            addr == self.spec_address(),
    {
        match self {
            Register::Configuration => 0x00,
            Register::ShuntVoltage1 => 0x01,
            Register::BusVoltage1 => 0x02,
            Register::ShuntVoltage2 => 0x03,
            Register::BusVoltage2 => 0x04,
            Register::ShuntVoltage3 => 0x05,
            Register::BusVoltage3 => 0x06,
            Register::CriticalAlertLimit1 => 0x07,
            Register::WarningAlertLimit1 => 0x08,
            Register::CriticalAlertLimit2 => 0x09,
            Register::WarningAlertLimit2 => 0x0A,
            Register::CriticalAlertLimit3 => 0x0B,
            Register::WarningAlertLimit3 => 0x0C,
            Register::ShuntVoltageSum => 0x0D,
            Register::ShuntVoltageSumLimit => 0x0E,
            Register::MaskEnable => 0x0F,
            Register::PowerValidUpperLimit => 0x10,
            Register::PowerValidLowerLimit => 0x11,
            Register::ManufacturerId => 0xFE,
            Register::DieId => 0xFF,
        }
    }
}

} // verus!
