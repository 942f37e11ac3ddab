use ina3221::mode::{config_with_mode, mode_of_config};
use ina3221::sim::SimBus;
use ina3221::{OperatingMode, Voltage, INA3221};

#[test]
fn new_keeps_the_device_address() {
    let driver = INA3221::new(SimBus::new(), 0x40);
    assert_eq!(driver.address, 0x40);
}

#[test]
fn mode_decode_table() {
    assert_eq!(mode_of_config(0x00), OperatingMode::PowerDown);
    assert_eq!(mode_of_config(0x01), OperatingMode::Triggered);
    assert_eq!(mode_of_config(0x02), OperatingMode::Triggered);
    assert_eq!(mode_of_config(0x03), OperatingMode::Triggered);
    assert_eq!(mode_of_config(0x04), OperatingMode::PowerDown);
    assert_eq!(mode_of_config(0x05), OperatingMode::Continuous);
    assert_eq!(mode_of_config(0x06), OperatingMode::Continuous);
    assert_eq!(mode_of_config(0x07), OperatingMode::Continuous);
    // Only the low 3 bits matter.
    assert_eq!(mode_of_config(0xFFF9), OperatingMode::Triggered);
}

#[test]
fn mode_encode_preserves_the_other_bits() {
    assert_eq!(config_with_mode(0xF127, OperatingMode::Triggered), 0xF123);
    assert_eq!(config_with_mode(0xF127, OperatingMode::PowerDown), 0xF120);
    assert_eq!(config_with_mode(0xF120, OperatingMode::Continuous), 0xF127);
}

#[test]
fn set_mode_rewrites_only_the_mode_field() {
    let mut bus = SimBus::new();
    bus.registers[0x00] = 0x7127;
    let mut driver = INA3221::new(bus, 0x40);

    driver.set_mode(OperatingMode::PowerDown).unwrap();
    assert_eq!(driver.get_mode().unwrap(), OperatingMode::PowerDown);
    driver.set_mode(OperatingMode::Triggered).unwrap();
    assert_eq!(driver.get_mode().unwrap(), OperatingMode::Triggered);
    driver.set_mode(OperatingMode::Continuous).unwrap();
    assert_eq!(driver.get_mode().unwrap(), OperatingMode::Continuous);
    assert_eq!(driver.get_configuration().unwrap(), 0x7127);
}

#[test]
fn channel_enable_round_trip() {
    let mut bus = SimBus::new();
    // Channels 2 and 3 enabled, channel 1 not.
    bus.registers[0x00] = 0x3000;
    let mut driver = INA3221::new(bus, 0x40);

    assert!(!driver.is_channel_enabled(0).unwrap());
    driver.set_channel_enabled(0, true).unwrap();
    assert!(driver.is_channel_enabled(0).unwrap());

    // The single change shows up in the batch read without perturbing the
    // other two channels.
    let mut statuses = [false; 3];
    driver.get_channels_enabled(&mut statuses).unwrap();
    assert_eq!(statuses, [true, true, true]);

    driver.set_channel_enabled(1, false).unwrap();
    driver.get_channels_enabled(&mut statuses).unwrap();
    assert_eq!(statuses, [true, false, true]);
}

#[test]
fn batch_channel_enable_clears_the_mode_bits() {
    let mut bus = SimBus::new();
    bus.registers[0x00] = 0x0007;
    let mut driver = INA3221::new(bus, 0x40);

    driver.set_channels_enabled(&[true, false, true]).unwrap();
    assert_eq!(driver.get_configuration().unwrap(), 0x5000);
}

#[test]
fn shunt_voltage_scales_by_40_microvolts() {
    let mut bus = SimBus::new();
    bus.registers[0x01] = 0x00C8;
    let mut driver = INA3221::new(bus, 0x40);

    // Raw 200 decodes to 25 counts of 40 µV: 1 mV.
    assert_eq!(driver.get_shunt_voltage(0).unwrap().to_microvolts(), 1000);
}

#[test]
fn bus_voltage_scales_by_8000_microvolts() {
    let mut bus = SimBus::new();
    bus.registers[0x02] = 0x00C8;
    let mut driver = INA3221::new(bus, 0x40);

    // Raw 200 decodes to 25 counts of 8 mV: 0.2 V.
    assert_eq!(driver.get_bus_voltage(0).unwrap().to_microvolts(), 200_000);
}

#[test]
fn end_to_end_current_from_shunt_reading() {
    let mut bus = SimBus::new();
    bus.registers[0x01] = 0x0028;
    let mut driver = INA3221::new(bus, 0x40);

    let shunt = driver.get_shunt_voltage(0).unwrap();
    assert_eq!(shunt.to_microvolts(), 200);

    // With a 0.1 Ω shunt resistor the caller computes the current draw:
    // 200 µV / 0.1 Ω = 2000 µA = 2 mA.
    let current_microamps = shunt.to_microvolts() as f32 / 0.1f32;
    assert!((current_microamps - 2000.0f32).abs() < 1e-3);
}

#[test]
fn channel_index_past_two_resolves_to_channel_three() {
    let mut bus = SimBus::new();
    bus.registers[0x05] = 0x0028;
    let mut driver = INA3221::new(bus, 0x40);

    assert_eq!(driver.get_shunt_voltage(2).unwrap().to_microvolts(), 200);
    assert_eq!(driver.get_shunt_voltage(7).unwrap().to_microvolts(), 200);
}

#[test]
fn critical_alert_limit_round_trip() {
    let mut driver = INA3221::new(SimBus::new(), 0x40);

    driver.set_critical_alert_limit(0, Voltage::from_microvolts(1000)).unwrap();
    assert_eq!(driver.get_critical_alert_limit(0).unwrap().to_microvolts(), 1000);

    // The raw register holds the encoded count: 1000 µV / 40 µV = 25 → 200.
    driver.set_critical_alert_limit(1, Voltage::from_microvolts(1000)).unwrap();
    let mut check = INA3221::new(SimBus::new(), 0x40);
    check.set_critical_alert_limit(2, Voltage::from_microvolts(99)).unwrap();
    // 99 µV truncates toward zero to 2 counts: 80 µV come back.
    assert_eq!(check.get_critical_alert_limit(2).unwrap().to_microvolts(), 80);
}

#[test]
fn warning_alert_limit_round_trip() {
    let mut driver = INA3221::new(SimBus::new(), 0x40);

    driver.set_warning_alert_limit(1, Voltage::from_microvolts(4000)).unwrap();
    assert_eq!(driver.get_warning_alert_limit(1).unwrap().to_microvolts(), 4000);
    // The other channels' limits are untouched.
    assert_eq!(driver.get_warning_alert_limit(0).unwrap().to_microvolts(), 0);
    assert_eq!(driver.get_warning_alert_limit(2).unwrap().to_microvolts(), 0);
}

#[test]
fn power_valid_limits_round_trip() {
    let mut driver = INA3221::new(SimBus::new(), 0x40);

    driver
        .set_power_valid_limits(
            Voltage::from_microvolts(8_000_000),
            Voltage::from_microvolts(16_000_000),
        )
        .unwrap();
    let (lower, upper) = driver.get_power_valid_limits().unwrap();
    assert_eq!(lower.to_microvolts(), 8_000_000);
    assert_eq!(upper.to_microvolts(), 16_000_000);
}

#[test]
fn identification_reads_pass_through() {
    let mut bus = SimBus::new();
    bus.registers[0xFE] = 0x5449;
    bus.registers[0xFF] = 0x3220;
    let mut driver = INA3221::new(bus, 0x40);

    assert_eq!(driver.get_manufacturer_id().unwrap(), 0x5449);
    assert_eq!(driver.get_die_id().unwrap(), 0x3220);
}

#[test]
fn read_alert_flags_returns_the_mask_enable_word() {
    let mut bus = SimBus::new();
    bus.registers[0x0F] = 0x0180;
    let mut driver = INA3221::new(bus, 0x40);

    let flags = ina3221::MaskEnableFlags::from_bits(driver.read_alert_flags().unwrap());
    assert!(flags.critical_alert_1());
    assert!(flags.critical_alert_2());
    assert!(!flags.critical_alert_3());
}

#[test]
fn reset_sets_bit_fifteen_of_the_configuration() {
    let mut bus = SimBus::new();
    bus.registers[0x00] = 0x7127;
    let mut driver = INA3221::new(bus, 0x40);

    driver.reset().unwrap();
    assert_eq!(driver.get_configuration().unwrap(), 0xF127);
}

#[test]
fn bus_errors_propagate() {
    let mut bus = SimBus::new();
    bus.fail = true;
    let mut driver = INA3221::new(bus, 0x40);
    assert_eq!(driver.get_configuration(), Err(()));
    assert_eq!(driver.get_mode(), Err(()));
    assert_eq!(driver.set_mode(OperatingMode::Triggered), Err(()));
    assert_eq!(driver.get_shunt_voltage(0).map(|v| v.to_microvolts()), Err(()));
    assert_eq!(driver.set_critical_alert_limit(0, Voltage::from_microvolts(0)), Err(()));
    assert_eq!(driver.reset(), Err(()));

    let mut statuses = [true, false, true];
    assert_eq!(driver.get_channels_enabled(&mut statuses), Err(()));
    // On a failed read the statuses are untouched.
    assert_eq!(statuses, [true, false, true]);
}
