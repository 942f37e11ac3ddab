//! The INA3221 driver facade.
//!
//! Composes the transport framing, the signed codec, the bitfield views and
//! the [`Voltage`] value type into per-channel measurement reads, alert-limit
//! accessors, mode and channel-enable control, identification reads and
//! reset. Every operation borrows the driver exclusively: each one performs
//! bus transactions, so no method is read-only in effect.
//!
//! Channel indices are zero-based. Following the chip driver's long-standing
//! behaviour, an index outside `{0, 1}` resolves to the third channel rather
//! than failing.

use vstd::prelude::*;

verus! {

use crate::bus::{read_word_ops, select_op, word_lsb, word_msb, write_word_op, BusOp, I2cBus};
use crate::helpers;
use crate::helpers::{decoded_count, encoded_word, spec_div_toward_zero};
use vstd::arithmetic::div_mod::lemma_mod_multiples_basic;
use crate::mode::{config_with_mode, mode_of_config, spec_config_with_mode, spec_mode_of_config};
use crate::mode::OperatingMode;
use crate::registers::Register;
use crate::voltage::Voltage;

/// Bit 15 of the Configuration register: self-clearing reset request.
pub const RESET_FLAG: u16 = 0x8000;

/// Bit 14 of the Configuration register: channel 1 enable.
pub const CHANNEL_1_FLAG: u16 = 0x4000;

/// Bit 13 of the Configuration register: channel 2 enable.
pub const CHANNEL_2_FLAG: u16 = 0x2000;

/// Bit 12 of the Configuration register: channel 3 enable.
pub const CHANNEL_3_FLAG: u16 = 0x1000;

/// Physical value of one shunt-voltage count: 40 µV per LSB.
pub const SHUNT_VOLTAGE_SCALE_FACTOR: i32 = 40;

/// Physical value of one bus-voltage count: 8 mV (8000 µV) per LSB.
pub const BUS_VOLTAGE_SCALE_FACTOR: i32 = 8000;

/// The Configuration-register enable bit for a channel: channel N uses bit
/// 14 − N; an index past the second channel resolves to the third.
pub open spec fn spec_channel_flag(channel: u8) -> u16 {
    if channel == 0 {
        0x4000
    } else if channel == 1 {
        0x2000
    } else {
        0x1000
    }
}

/// Whether a Configuration register value has the enable bit of the given
/// channel set.
pub open spec fn spec_channel_enabled(config: u16, channel: u8) -> bool {
    config & spec_channel_flag(channel) != 0
}

/// A Configuration register value with one channel-enable bit set or
/// cleared, every other bit preserved.
pub open spec fn spec_config_with_channel(config: u16, channel: u8, enabled: bool) -> u16 {
    if enabled {
        config | spec_channel_flag(channel)
    } else {
        config & !spec_channel_flag(channel)
    }
}

/// A Configuration register value rebuilt for a batch channel-enable write:
/// the low 3 bits are cleared, the three enable bits are ORed in as asked,
/// and the remaining bits are preserved.
pub open spec fn spec_config_with_channels(
    config: u16,
    enabled_1: bool,
    enabled_2: bool,
    enabled_3: bool,
) -> u16 {
    (config & 0xFFF8) | (if enabled_1 {
        0x4000u16
    } else {
        0u16
    }) | (if enabled_2 {
        0x2000u16
    } else {
        0u16
    }) | (if enabled_3 {
        0x1000u16
    } else {
        0u16
    })
}

/// Setting one channel's enable bit changes exactly that channel's status:
/// reading it back gives the value just written, and the status of every
/// other channel is untouched.
pub proof fn lemma_channel_enable_round_trip(config: u16, channel: u8, enabled: bool)
    requires
        channel < 3,
    ensures
        spec_channel_enabled(spec_config_with_channel(config, channel, enabled), channel)
            == enabled,
        forall|other: u8|
            other < 3 && other != channel ==> spec_channel_enabled(
                spec_config_with_channel(config, channel, enabled),
                other,
            ) == spec_channel_enabled(config, other),
{
    assert(spec_channel_enabled(spec_config_with_channel(config, channel, enabled), channel)
        == enabled) by (bit_vector)
        requires
            channel < 3,
    ;
    assert(forall|other: u8|
        other < 3 && other != channel ==> spec_channel_enabled(
            spec_config_with_channel(config, channel, enabled),
            other,
        ) == spec_channel_enabled(config, other)) by (bit_vector)
        requires
            channel < 3,
    ;
}

/// The shunt-voltage register of a channel.
pub open spec fn spec_shunt_voltage_register(channel: u8) -> Register {
    if channel == 0 {
        Register::ShuntVoltage1
    } else if channel == 1 {
        Register::ShuntVoltage2
    } else {
        Register::ShuntVoltage3
    }
}

/// The bus-voltage register of a channel.
pub open spec fn spec_bus_voltage_register(channel: u8) -> Register {
    if channel == 0 {
        Register::BusVoltage1
    } else if channel == 1 {
        Register::BusVoltage2
    } else {
        Register::BusVoltage3
    }
}

/// The critical-alert-limit register of a channel.
pub open spec fn spec_critical_limit_register(channel: u8) -> Register {
    if channel == 0 {
        Register::CriticalAlertLimit1
    } else if channel == 1 {
        Register::CriticalAlertLimit2
    } else {
        Register::CriticalAlertLimit3
    }
}

/// The warning-alert-limit register of a channel.
pub open spec fn spec_warning_limit_register(channel: u8) -> Register {
    if channel == 0 {
        Register::WarningAlertLimit1
    } else if channel == 1 {
        Register::WarningAlertLimit2
    } else {
        Register::WarningAlertLimit3
    }
}

/// Device driver for the INA3221 triple-channel shunt and bus voltage
/// monitor.
///
/// The driver owns its bus handle exclusively; nothing is cached, so every
/// getter re-reads the device. The last measurements are retained in the
/// device's registers even for a disabled channel.
pub struct INA3221<I2C> {
    i2c: I2C,
    /// The 7-bit bus address of the device, fixed per instance.
    pub address: u8,
}

impl<I2C: I2cBus> INA3221<I2C> {
    /// The transactions this driver has performed on its bus, oldest first.
    pub closed spec fn log(&self) -> Seq<BusOp> {
        self.i2c.log()
    }

    /// The device address the driver was created with.
    pub closed spec fn device_address(&self) -> u8 {
        self.address
    }

    /// Creates a driver instance from a bus peripheral and a device address
    /// (typically 0x40, 0x41 or 0x42, depending on the address pin strap).
    pub fn new(i2c: I2C, address: u8) -> (driver: INA3221<I2C>)
        ensures
            driver.device_address() == address,
            driver.log() == i2c.log(),
    {
        INA3221 { i2c, address }
    }

    /// Issues the select phase: a one-byte write of the register address.
    fn select_register(&mut self, register: Register) -> (result: Result<(), I2C::BusError>)
        ensures
            final(self).device_address() == old(self).device_address(),
            result is Ok ==> final(self).log() == old(self).log().push(
                select_op(old(self).device_address(), register.spec_address()),
            ),
    {
        let buffer: [u8; 1] = [register.address()];
        let result = self.i2c.write_bytes(self.address, buffer.as_slice());
        proof {
            assert(buffer@ =~= seq![register.spec_address()]);
        }
        result
    }

    /// Reads a 16-bit register word: select, then a two-byte big-endian
    /// read, assembled MSB first.
    fn read_register(&mut self, register: Register) -> (result: Result<u16, I2C::BusError>)
        ensures
            final(self).device_address() == old(self).device_address(),
            result matches Ok(word) ==> final(self).log() == old(self).log() + read_word_ops(
                old(self).device_address(),
                register.spec_address(),
                word,
            ),
    {
        match self.select_register(register) {
            Ok(_) => (),
            Err(e) => {
                return Err(e);
            },
        }
        let bytes = match self.i2c.read_two_bytes(self.address) {
            Ok(b) => b,
            Err(e) => {
                return Err(e);
            },
        };
        let byte0 = bytes[0];
        let byte1 = bytes[1];
        let word: u16 = ((byte0 as u16) << 8) | (byte1 as u16);
        proof {
            assert(word_msb(((byte0 as u16) << 8) | (byte1 as u16)) == byte0) by (bit_vector);
            assert(word_lsb(((byte0 as u16) << 8) | (byte1 as u16)) == byte1) by (bit_vector);
            assert(bytes@ =~= seq![word_msb(word), word_lsb(word)]);
            assert(self.log() =~= old(self).log() + read_word_ops(
                old(self).device_address(),
                register.spec_address(),
                word,
            ));
        }
        Ok(word)
    }

    /// Writes a 16-bit register word: one three-byte write of the register
    /// address followed by the word, MSB first.
    fn write_register(&mut self, register: Register, value: u16) -> (result: Result<
        (),
        I2C::BusError,
    >)
        ensures
            final(self).device_address() == old(self).device_address(),
            result is Ok ==> final(self).log() == old(self).log().push(
                write_word_op(old(self).device_address(), register.spec_address(), value),
            ),
    {
        let msb: u8 = ((value >> 8) & 0xFF) as u8;
        let lsb: u8 = (value & 0xFF) as u8;
        proof {
            assert(((value >> 8) & 0xFF) as u8 == word_msb(value) && (value & 0xFF) as u8
                == word_lsb(value)) by (bit_vector);
        }
        let buffer: [u8; 3] = [register.address(), msb, lsb];
        let result = self.i2c.write_bytes(self.address, buffer.as_slice());
        proof {
            assert(buffer@ =~= seq![register.spec_address(), word_msb(value), word_lsb(value)]);
        }
        result
    }

    /// Reads the active configuration word from the Configuration register.
    pub fn get_configuration(&mut self) -> (result: Result<u16, I2C::BusError>)
        ensures
            final(self).device_address() == old(self).device_address(),
            result matches Ok(config) ==> final(self).log() == old(self).log() + read_word_ops(
                old(self).device_address(),
                0x00,
                config,
            ),
    {
        self.read_register(Register::Configuration)
    }

    /// Reads the operating mode from the mode field of the Configuration
    /// register.
    pub fn get_mode(&mut self) -> (result: Result<OperatingMode, I2C::BusError>)
        ensures
            final(self).device_address() == old(self).device_address(),
            result matches Ok(mode) ==> exists|config: u16|
                #![auto]
                final(self).log() == old(self).log() + read_word_ops(
                    old(self).device_address(),
                    0x00,
                    config,
                ) && mode == spec_mode_of_config(config),
    {
        let config = match self.get_configuration() {
            Ok(c) => c,
            Err(e) => {
                return Err(e);
            },
        };
        Ok(mode_of_config(config))
    }

    /// Sets the operating mode by a read-modify-write of the Configuration
    /// register, preserving every bit outside the mode field.
    ///
    /// Setting `OperatingMode::Triggered` triggers a measurement cycle.
    pub fn set_mode(&mut self, mode: OperatingMode) -> (result: Result<(), I2C::BusError>)
        ensures
            final(self).device_address() == old(self).device_address(),
            result is Ok ==> exists|config: u16|
                #![auto]
                final(self).log() == (old(self).log() + read_word_ops(
                    old(self).device_address(),
                    0x00,
                    config,
                )).push(
                    write_word_op(
                        old(self).device_address(),
                        0x00,
                        spec_config_with_mode(config, mode),
                    ),
                ),
    {
        let config = match self.get_configuration() {
            Ok(c) => c,
            Err(e) => {
                return Err(e);
            },
        };
        let new_config = config_with_mode(config, mode);
        self.write_register(Register::Configuration, new_config)
    }

    /// Reads the enabled status of all three channels at once, storing them
    /// in the array, channel 1 first. On a bus error the array is untouched.
    pub fn get_channels_enabled(&mut self, statuses: &mut [bool; 3]) -> (result: Result<
        (),
        I2C::BusError,
    >)
        ensures
            final(self).device_address() == old(self).device_address(),
            result is Ok ==> exists|config: u16|
                #![auto]
                final(self).log() == old(self).log() + read_word_ops(
                    old(self).device_address(),
                    0x00,
                    config,
                ) && final(statuses)@ == seq![
                    spec_channel_enabled(config, 0),
                    spec_channel_enabled(config, 1),
                    spec_channel_enabled(config, 2),
                ],
            result is Err ==> *final(statuses) == *old(statuses),
    {
        let config = match self.get_configuration() {
            Ok(c) => c,
            Err(e) => {
                return Err(e);
            },
        };
        statuses[0] = config & CHANNEL_1_FLAG > 0;
        statuses[1] = config & CHANNEL_2_FLAG > 0;
        statuses[2] = config & CHANNEL_3_FLAG > 0;
        proof {
            assert(statuses@ =~= seq![
                spec_channel_enabled(config, 0),
                spec_channel_enabled(config, 1),
                spec_channel_enabled(config, 2),
            ]);
        }
        Ok(())
    }

    /// Sets the enabled status of all three channels at once, channel 1
    /// first, by a read-modify-write of the Configuration register.
    ///
    /// Disabling a channel stops it from being measured; its last
    /// measurement can still be read.
    pub fn set_channels_enabled(&mut self, enabled: &[bool]) -> (result: Result<
        (),
        I2C::BusError,
    >)
        requires
            enabled@.len() >= 3,
        ensures
            final(self).device_address() == old(self).device_address(),
            result is Ok ==> exists|config: u16|
                #![auto]
                final(self).log() == (old(self).log() + read_word_ops(
                    old(self).device_address(),
                    0x00,
                    config,
                )).push(
                    write_word_op(
                        old(self).device_address(),
                        0x00,
                        spec_config_with_channels(config, enabled@[0], enabled@[1], enabled@[2]),
                    ),
                ),
    {
        let config = match self.get_configuration() {
            Ok(c) => c,
            Err(e) => {
                return Err(e);
            },
        };
        let flag_1: u16 = if enabled[0] {
            CHANNEL_1_FLAG
        } else {
            0
        };
        let flag_2: u16 = if enabled[1] {
            CHANNEL_2_FLAG
        } else {
            0
        };
        let flag_3: u16 = if enabled[2] {
            CHANNEL_3_FLAG
        } else {
            0
        };
        let new_config: u16 = (config & 0xFFF8) | flag_1 | flag_2 | flag_3;
        self.write_register(Register::Configuration, new_config)
    }

    /// Checks whether a monitoring channel is enabled.
    ///
    /// A disabled channel can still be read, but is not measured until it is
    /// re-enabled.
    pub fn is_channel_enabled(&mut self, channel: u8) -> (result: Result<bool, I2C::BusError>)
        ensures
            final(self).device_address() == old(self).device_address(),
            result matches Ok(enabled) ==> exists|config: u16|
                #![auto]
                final(self).log() == old(self).log() + read_word_ops(
                    old(self).device_address(),
                    0x00,
                    config,
                ) && enabled == spec_channel_enabled(config, channel),
    {
        let flag = channel_flag(channel);
        let config = match self.get_configuration() {
            Ok(c) => c,
            Err(e) => {
                return Err(e);
            },
        };
        let enabled = config & flag > 0;
        proof {
            assert((config & flag > 0) == (config & flag != 0)) by (bit_vector);
            assert(self.log() == old(self).log() + read_word_ops(
                old(self).device_address(),
                0x00,
                config,
            ) && enabled == spec_channel_enabled(config, channel));
        }
        Ok(enabled)
    }

    /// Enables or disables a monitoring channel by a read-modify-write of
    /// the Configuration register.
    pub fn set_channel_enabled(&mut self, channel: u8, enabled: bool) -> (result: Result<
        (),
        I2C::BusError,
    >)
        ensures
            final(self).device_address() == old(self).device_address(),
            result is Ok ==> exists|config: u16|
                #![auto]
                final(self).log() == (old(self).log() + read_word_ops(
                    old(self).device_address(),
                    0x00,
                    config,
                )).push(
                    write_word_op(
                        old(self).device_address(),
                        0x00,
                        spec_config_with_channel(config, channel, enabled),
                    ),
                ),
    {
        let flag = channel_flag(channel);
        let config = match self.get_configuration() {
            Ok(c) => c,
            Err(e) => {
                return Err(e);
            },
        };
        let result = if enabled {
            self.write_register(Register::Configuration, config | flag)
        } else {
            self.write_register(Register::Configuration, config & !flag)
        };
        proof {
            if result is Ok {
                assert(self.log() == (old(self).log() + read_word_ops(
                    old(self).device_address(),
                    0x00,
                    config,
                )).push(
                    write_word_op(
                        old(self).device_address(),
                        0x00,
                        spec_config_with_channel(config, channel, enabled),
                    ),
                ));
            }
        }
        result
    }

    /// Reads the shunt voltage of a monitoring channel; one count of the
    /// register is 40 µV. The decoded count carries no sign, so the value is
    /// a whole non-negative number of 40 µV steps.
    pub fn get_shunt_voltage(&mut self, channel: u8) -> (result: Result<Voltage, I2C::BusError>)
        ensures
            final(self).device_address() == old(self).device_address(),
            result matches Ok(voltage) ==> exists|raw: u16|
                #![auto]
                final(self).log() == old(self).log() + read_word_ops(
                    old(self).device_address(),
                    spec_shunt_voltage_register(channel).spec_address(),
                    raw,
                ) && voltage@ == decoded_count(raw) * 40,
            result matches Ok(voltage) ==> 0 <= voltage@ <= 4096 * 40 && voltage@ % 40 == 0,
    {
        let register = shunt_voltage_register(channel);
        let raw_value = match self.read_register(register) {
            Ok(w) => w,
            Err(e) => {
                return Err(e);
            },
        };
        let count = helpers::convert_from_12bit_signed(raw_value);
        let microvolts = count * SHUNT_VOLTAGE_SCALE_FACTOR;
        proof {
            lemma_mod_multiples_basic(decoded_count(raw_value), 40);
        }
        Ok(Voltage::from_microvolts(microvolts))
    }

    /// Reads the bus voltage of a monitoring channel; one count of the
    /// register is 8 mV (8000 µV). The decoded count carries no sign, so the
    /// value is a whole non-negative number of 8 mV steps.
    pub fn get_bus_voltage(&mut self, channel: u8) -> (result: Result<Voltage, I2C::BusError>)
        ensures
            final(self).device_address() == old(self).device_address(),
            result matches Ok(voltage) ==> exists|raw: u16|
                #![auto]
                final(self).log() == old(self).log() + read_word_ops(
                    old(self).device_address(),
                    spec_bus_voltage_register(channel).spec_address(),
                    raw,
                ) && voltage@ == decoded_count(raw) * 8000,
            result matches Ok(voltage) ==> 0 <= voltage@ <= 4096 * 8000 && voltage@ % 8000 == 0,
    {
        let register = bus_voltage_register(channel);
        let raw_value = match self.read_register(register) {
            Ok(w) => w,
            Err(e) => {
                return Err(e);
            },
        };
        let count = helpers::convert_from_12bit_signed(raw_value);
        let microvolts = count * BUS_VOLTAGE_SCALE_FACTOR;
        proof {
            lemma_mod_multiples_basic(decoded_count(raw_value), 8000);
        }
        Ok(Voltage::from_microvolts(microvolts))
    }

    /// Reads the shunt voltage limit that raises a critical alert on a
    /// channel; one count is 40 µV, as for the shunt voltage itself.
    pub fn get_critical_alert_limit(&mut self, channel: u8) -> (result: Result<
        Voltage,
        I2C::BusError,
    >)
        ensures
            final(self).device_address() == old(self).device_address(),
            result matches Ok(voltage) ==> exists|raw: u16|
                #![auto]
                final(self).log() == old(self).log() + read_word_ops(
                    old(self).device_address(),
                    spec_critical_limit_register(channel).spec_address(),
                    raw,
                ) && voltage@ == decoded_count(raw) * 40,
            result matches Ok(voltage) ==> 0 <= voltage@ <= 4096 * 40 && voltage@ % 40 == 0,
    {
        let register = critical_limit_register(channel);
        let raw_value = match self.read_register(register) {
            Ok(w) => w,
            Err(e) => {
                return Err(e);
            },
        };
        let count = helpers::convert_from_12bit_signed(raw_value);
        let microvolts = count * SHUNT_VOLTAGE_SCALE_FACTOR;
        proof {
            lemma_mod_multiples_basic(decoded_count(raw_value), 40);
        }
        Ok(Voltage::from_microvolts(microvolts))
    }

    /// Sets the shunt voltage limit that raises a critical alert on a
    /// channel. The microvolt value is divided by the 40 µV scale, rounding
    /// toward zero, and encoded into the register format.
    pub fn set_critical_alert_limit(&mut self, channel: u8, voltage_limit: Voltage) -> (result:
        Result<(), I2C::BusError>)
        ensures
            final(self).device_address() == old(self).device_address(),
            result is Ok ==> final(self).log() == old(self).log().push(
                write_word_op(
                    old(self).device_address(),
                    spec_critical_limit_register(channel).spec_address(),
                    encoded_word(spec_div_toward_zero(voltage_limit@, 40)),
                ),
            ),
    {
        let register = critical_limit_register(channel);
        let raw_value = helpers::div_toward_zero(
            voltage_limit.to_microvolts(),
            SHUNT_VOLTAGE_SCALE_FACTOR,
        );
        self.write_register(register, helpers::convert_to_12bit_signed(raw_value))
    }

    /// Reads the shunt voltage limit that raises a warning alert on a
    /// channel; one count is 40 µV, as for the shunt voltage itself.
    pub fn get_warning_alert_limit(&mut self, channel: u8) -> (result: Result<
        Voltage,
        I2C::BusError,
    >)
        ensures
            final(self).device_address() == old(self).device_address(),
            result matches Ok(voltage) ==> exists|raw: u16|
                #![auto]
                final(self).log() == old(self).log() + read_word_ops(
                    old(self).device_address(),
                    spec_warning_limit_register(channel).spec_address(),
                    raw,
                ) && voltage@ == decoded_count(raw) * 40,
            result matches Ok(voltage) ==> 0 <= voltage@ <= 4096 * 40 && voltage@ % 40 == 0,
    {
        let register = warning_limit_register(channel);
        let raw_value = match self.read_register(register) {
            Ok(w) => w,
            Err(e) => {
                return Err(e);
            },
        };
        let count = helpers::convert_from_12bit_signed(raw_value);
        let microvolts = count * SHUNT_VOLTAGE_SCALE_FACTOR;
        proof {
            lemma_mod_multiples_basic(decoded_count(raw_value), 40);
        }
        Ok(Voltage::from_microvolts(microvolts))
    }

    /// Sets the shunt voltage limit that raises a warning alert on a
    /// channel. The microvolt value is divided by the 40 µV scale, rounding
    /// toward zero, and encoded into the register format.
    pub fn set_warning_alert_limit(&mut self, channel: u8, voltage_limit: Voltage) -> (result:
        Result<(), I2C::BusError>)
        ensures
            final(self).device_address() == old(self).device_address(),
            result is Ok ==> final(self).log() == old(self).log().push(
                write_word_op(
                    old(self).device_address(),
                    spec_warning_limit_register(channel).spec_address(),
                    encoded_word(spec_div_toward_zero(voltage_limit@, 40)),
                ),
            ),
    {
        let register = warning_limit_register(channel);
        let raw_value = helpers::div_toward_zero(
            voltage_limit.to_microvolts(),
            SHUNT_VOLTAGE_SCALE_FACTOR,
        );
        self.write_register(register, helpers::convert_to_12bit_signed(raw_value))
    }

    /// Reads the device-wide power-valid limits for the bus voltage, lower
    /// limit first; one count is 8 mV.
    pub fn get_power_valid_limits(&mut self) -> (result: Result<
        (Voltage, Voltage),
        I2C::BusError,
    >)
        ensures
            final(self).device_address() == old(self).device_address(),
            result matches Ok(limits) ==> exists|lower_raw: u16, upper_raw: u16|
                #![auto]
                final(self).log() == old(self).log() + read_word_ops(
                    old(self).device_address(),
                    0x11,
                    lower_raw,
                ) + read_word_ops(old(self).device_address(), 0x10, upper_raw) && limits.0@
                    == decoded_count(lower_raw) * 8000 && limits.1@ == decoded_count(upper_raw)
                    * 8000,
    {
        let lower_raw_value = match self.read_register(Register::PowerValidLowerLimit) {
            Ok(w) => w,
            Err(e) => {
                return Err(e);
            },
        };
        let upper_raw_value = match self.read_register(Register::PowerValidUpperLimit) {
            Ok(w) => w,
            Err(e) => {
                return Err(e);
            },
        };
        let lower_microvolts = helpers::convert_from_12bit_signed(lower_raw_value)
            * BUS_VOLTAGE_SCALE_FACTOR;
        let upper_microvolts = helpers::convert_from_12bit_signed(upper_raw_value)
            * BUS_VOLTAGE_SCALE_FACTOR;
        Ok(
            (
                Voltage::from_microvolts(lower_microvolts),
                Voltage::from_microvolts(upper_microvolts),
            ),
        )
    }

    /// Sets the device-wide power-valid limits for the bus voltage, lower
    /// limit first. Each microvolt value is divided by the 8 mV scale,
    /// rounding toward zero, and encoded; the lower limit is written first.
    pub fn set_power_valid_limits(&mut self, lower_limit: Voltage, upper_limit: Voltage) -> (result:
        Result<(), I2C::BusError>)
        ensures
            final(self).device_address() == old(self).device_address(),
            result is Ok ==> final(self).log() == old(self).log().push(
                write_word_op(
                    old(self).device_address(),
                    0x11,
                    encoded_word(spec_div_toward_zero(lower_limit@, 8000)),
                ),
            ).push(
                write_word_op(
                    old(self).device_address(),
                    0x10,
                    encoded_word(spec_div_toward_zero(upper_limit@, 8000)),
                ),
            ),
    {
        let lower_raw_value = helpers::div_toward_zero(
            lower_limit.to_microvolts(),
            BUS_VOLTAGE_SCALE_FACTOR,
        );
        let upper_raw_value = helpers::div_toward_zero(
            upper_limit.to_microvolts(),
            BUS_VOLTAGE_SCALE_FACTOR,
        );
        match self.write_register(
            Register::PowerValidLowerLimit,
            helpers::convert_to_12bit_signed(lower_raw_value),
        ) {
            Ok(_) => (),
            Err(e) => {
                return Err(e);
            },
        }
        match self.write_register(
            Register::PowerValidUpperLimit,
            helpers::convert_to_12bit_signed(upper_raw_value),
        ) {
            Ok(_) => (),
            Err(e) => {
                return Err(e);
            },
        }
        Ok(())
    }

    /// Reads the raw Mask/Enable register word. The physical read clears the
    /// alert-status bits in hardware, so this is a mutating operation even
    /// though it returns a value; wrap the word in
    /// [`crate::MaskEnableFlags`] to name the individual bits.
    pub fn read_alert_flags(&mut self) -> (result: Result<u16, I2C::BusError>)
        ensures
            final(self).device_address() == old(self).device_address(),
            result matches Ok(word) ==> final(self).log() == old(self).log() + read_word_ops(
                old(self).device_address(),
                0x0F,
                word,
            ),
    {
        self.read_register(Register::MaskEnable)
    }

    /// Reads the manufacturer ID; a genuine device reports 0x5449.
    pub fn get_manufacturer_id(&mut self) -> (result: Result<u16, I2C::BusError>)
        ensures
            final(self).device_address() == old(self).device_address(),
            result matches Ok(word) ==> final(self).log() == old(self).log() + read_word_ops(
                old(self).device_address(),
                0xFE,
                word,
            ),
    {
        self.read_register(Register::ManufacturerId)
    }

    /// Reads the die ID; a genuine device reports 0x3220.
    pub fn get_die_id(&mut self) -> (result: Result<u16, I2C::BusError>)
        ensures
            final(self).device_address() == old(self).device_address(),
            result matches Ok(word) ==> final(self).log() == old(self).log() + read_word_ops(
                old(self).device_address(),
                0xFF,
                word,
            ),
    {
        self.read_register(Register::DieId)
    }

    /// Resets the device by setting bit 15 of the Configuration register in
    /// a read-modify-write; the chip then returns to its default state.
    pub fn reset(&mut self) -> (result: Result<(), I2C::BusError>)
        ensures
            final(self).device_address() == old(self).device_address(),
            result is Ok ==> exists|config: u16|
                #![auto]
                final(self).log() == (old(self).log() + read_word_ops(
                    old(self).device_address(),
                    0x00,
                    config,
                )).push(write_word_op(old(self).device_address(), 0x00, config | RESET_FLAG)),
    {
        let config = match self.read_register(Register::Configuration) {
            Ok(c) => c,
            Err(e) => {
                return Err(e);
            },
        };
        self.write_register(Register::Configuration, config | RESET_FLAG)
    }
}

/// Returns the shunt-voltage register of a channel.
fn shunt_voltage_register(channel: u8) -> (register: Register)
    ensures
        register == spec_shunt_voltage_register(channel),
{
    match channel {
        0 => Register::ShuntVoltage1,
        1 => Register::ShuntVoltage2,
        _ => Register::ShuntVoltage3,
    }
}

/// Returns the bus-voltage register of a channel.
fn bus_voltage_register(channel: u8) -> (register: Register)
    ensures
        register == spec_bus_voltage_register(channel),
{
    match channel {
        0 => Register::BusVoltage1,
        1 => Register::BusVoltage2,
        _ => Register::BusVoltage3,
    }
}

/// Returns the critical-alert-limit register of a channel.
fn critical_limit_register(channel: u8) -> (register: Register)
    ensures
        register == spec_critical_limit_register(channel),
{
    match channel {
        0 => Register::CriticalAlertLimit1,
        1 => Register::CriticalAlertLimit2,
        _ => Register::CriticalAlertLimit3,
    }
}

/// Returns the warning-alert-limit register of a channel.
fn warning_limit_register(channel: u8) -> (register: Register)
    ensures
        register == spec_warning_limit_register(channel),
{
    match channel {
        0 => Register::WarningAlertLimit1,
        1 => Register::WarningAlertLimit2,
        _ => Register::WarningAlertLimit3,
    }
}

/// Returns the Configuration-register enable bit of a channel.
fn channel_flag(channel: u8) -> (flag: u16)
    ensures
        flag == spec_channel_flag(channel),
{
    match channel {
        0 => CHANNEL_1_FLAG,
        1 => CHANNEL_2_FLAG,
        _ => CHANNEL_3_FLAG,
    }
}

} // verus!
