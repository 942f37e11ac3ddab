use ina3221::{MaskEnableFlags, Register};

#[test]
fn flags_round_trip_the_raw_word() {
    assert_eq!(MaskEnableFlags::from_bits(0x7FFF).bits(), 0x7FFF);
    assert_eq!(MaskEnableFlags::from_bits(0).bits(), 0);
    assert!(MaskEnableFlags::from_bits(0).is_empty());
    assert!(!MaskEnableFlags::from_bits(0x0001).is_empty());
}

#[test]
fn each_flag_reads_its_own_bit() {
    let all = MaskEnableFlags::from_bits(0x7FFF);
    assert!(all.conversion_ready());
    assert!(all.timing_control_alert());
    assert!(all.power_valid_alert());
    assert!(all.warning_alert_1());
    assert!(all.warning_alert_2());
    assert!(all.warning_alert_3());
    assert!(all.summation_alert());
    assert!(all.critical_alert_1());
    assert!(all.critical_alert_2());
    assert!(all.critical_alert_3());
    assert!(all.critical_alert_latch());
    assert!(all.warning_alert_latch());
    assert!(all.summation_control_1());
    assert!(all.summation_control_2());
    assert!(all.summation_control_3());

    assert!(MaskEnableFlags::from_bits(0x0001).conversion_ready());
    assert!(MaskEnableFlags::from_bits(0x0002).timing_control_alert());
    assert!(MaskEnableFlags::from_bits(0x0004).power_valid_alert());
    assert!(MaskEnableFlags::from_bits(0x0008).warning_alert_1());
    assert!(MaskEnableFlags::from_bits(0x0010).warning_alert_2());
    assert!(MaskEnableFlags::from_bits(0x0020).warning_alert_3());
    assert!(MaskEnableFlags::from_bits(0x0040).summation_alert());
    assert!(MaskEnableFlags::from_bits(0x0080).critical_alert_1());
    assert!(MaskEnableFlags::from_bits(0x0100).critical_alert_2());
    assert!(MaskEnableFlags::from_bits(0x0200).critical_alert_3());
    assert!(MaskEnableFlags::from_bits(0x0400).critical_alert_latch());
    assert!(MaskEnableFlags::from_bits(0x0800).warning_alert_latch());
    assert!(MaskEnableFlags::from_bits(0x1000).summation_control_1());
    assert!(MaskEnableFlags::from_bits(0x2000).summation_control_2());
    assert!(MaskEnableFlags::from_bits(0x4000).summation_control_3());

    let none = MaskEnableFlags::from_bits(0);
    assert!(!none.conversion_ready());
    assert!(!none.critical_alert_3());
    assert!(!none.summation_control_3());
}

#[test]
fn contains_checks_the_whole_subset() {
    let set = MaskEnableFlags::from_bits(0x0180);
    assert!(set.contains(&MaskEnableFlags::from_bits(0x0080)));
    assert!(set.contains(&MaskEnableFlags::from_bits(0x0100)));
    assert!(set.contains(&MaskEnableFlags::from_bits(0x0180)));
    assert!(!set.contains(&MaskEnableFlags::from_bits(0x0200)));
    assert!(!set.contains(&MaskEnableFlags::from_bits(0x0280)));
}

#[test]
fn register_addresses_match_the_map() {
    assert_eq!(Register::Configuration.address(), 0x00);
    assert_eq!(Register::ShuntVoltage1.address(), 0x01);
    assert_eq!(Register::BusVoltage1.address(), 0x02);
    assert_eq!(Register::ShuntVoltage2.address(), 0x03);
    assert_eq!(Register::BusVoltage2.address(), 0x04);
    assert_eq!(Register::ShuntVoltage3.address(), 0x05);
    assert_eq!(Register::BusVoltage3.address(), 0x06);
    assert_eq!(Register::CriticalAlertLimit1.address(), 0x07);
    assert_eq!(Register::WarningAlertLimit1.address(), 0x08);
    assert_eq!(Register::CriticalAlertLimit2.address(), 0x09);
    assert_eq!(Register::WarningAlertLimit2.address(), 0x0A);
    assert_eq!(Register::CriticalAlertLimit3.address(), 0x0B);
    assert_eq!(Register::WarningAlertLimit3.address(), 0x0C);
    assert_eq!(Register::ShuntVoltageSum.address(), 0x0D);
    assert_eq!(Register::ShuntVoltageSumLimit.address(), 0x0E);
    assert_eq!(Register::MaskEnable.address(), 0x0F);
    assert_eq!(Register::PowerValidUpperLimit.address(), 0x10);
    assert_eq!(Register::PowerValidLowerLimit.address(), 0x11);
    assert_eq!(Register::ManufacturerId.address(), 0xFE);
    assert_eq!(Register::DieId.address(), 0xFF);
}
