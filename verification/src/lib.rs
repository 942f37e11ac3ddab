//! Driver core for the INA3221 triple-channel current and power monitor.
//!
//! The chip is reached over a blocking two-wire serial bus. This crate holds
//! the verified logic of the driver: the byte-exact register transaction
//! framing, the signed fixed-point codec for the measurement registers, the
//! bitfield views of the configuration and mask/enable registers, and the
//! microvolt-resolution [`Voltage`] value type. The bus itself is reached
//! through the [`bus::I2cBus`] trait, which the surrounding platform code
//! implements for its own peripheral.

pub mod bus;
pub mod driver;
pub mod flags;
pub mod helpers;
pub mod mode;
pub mod registers;
pub mod sim;
pub mod voltage;

pub use driver::INA3221;
pub use flags::MaskEnableFlags;
pub use helpers::convert_from_12bit_signed;
pub use helpers::convert_to_12bit_signed;
pub use mode::OperatingMode;
pub use registers::Register;
pub use voltage::Voltage;
