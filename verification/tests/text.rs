use dongle_ctl::error::DongleError;
use dongle_ctl::text::{bool_string, decimal_string, hex4_string};
use dongle_ctl::udev::{udev_rule, udev_rules};

#[test]
fn decimals() {
    assert_eq!(decimal_string(0), "0");
    assert_eq!(decimal_string(9), "9");
    assert_eq!(decimal_string(10), "10");
    assert_eq!(decimal_string(1234567890), "1234567890");
    assert_eq!(decimal_string(-7), "-7");
    for n in [i64::MAX, i64::MIN, i64::MIN + 1, 99, 100, 101, -100] {
        assert_eq!(decimal_string(n), n.to_string());
    }
}

#[test]
fn four_hexadecimal_digits() {
    assert_eq!(hex4_string(0), "0000");
    assert_eq!(hex4_string(0x0424), "0424");
    assert_eq!(hex4_string(0xfedc), "fedc");
    assert_eq!(hex4_string(0x00ab), "00ab");
    assert_eq!(hex4_string(u16::MAX), "ffff");
}

#[test]
fn booleans() {
    assert_eq!(bool_string(true), "true");
    assert_eq!(bool_string(false), "false");
}

#[test]
fn udev_rules_name_bridge_and_adapter() {
    assert_eq!(
        udev_rules(),
        vec![
            r#"SUBSYSTEMS=="usb", ATTRS{idVendor}=="0424", ATTRS{idProduct}=="2530", TAG+="uaccess", GROUP="plugdev", MODE="0660""#.to_string(),
            r#"SUBSYSTEMS=="usb", ATTRS{idVendor}=="0403", ATTRS{idProduct}=="6015", TAG+="uaccess", GROUP="plugdev", MODE="0660""#.to_string(),
        ]
    );
}

#[test]
fn udev_rule_pads_with_zeros() {
    assert_eq!(
        udev_rule(1, 0xbeef),
        r#"SUBSYSTEMS=="usb", ATTRS{idVendor}=="0001", ATTRS{idProduct}=="beef", TAG+="uaccess", GROUP="plugdev", MODE="0660""#
    );
}

#[test]
fn error_messages() {
    let s = || "abc".to_string();
    assert_eq!(
        DongleError::NoDongleMathcingUSBTree(s()).message(),
        "No dongle matching usb tree abc"
    );
    assert_eq!(
        DongleError::NoDongleMathcingSerial(s()).message(),
        "No dongle mathcing serial number abc"
    );
    assert_eq!(DongleError::NoDevicesFound.message(), "No devices found");
    assert_eq!(
        DongleError::SerialNotUnique(s()).message(),
        "Serial abc matches more than one device"
    );
    assert_eq!(DongleError::NoMatchForSerial(s()).message(), "No match for serial abc");
    assert_eq!(DongleError::NoMatchForUSBTree(s()).message(), "No match for USB tree 0");
    assert_eq!(DongleError::DeviceNotSpecified.message(), "Device not specified");
    assert_eq!(DongleError::DeviceOpenFail.message(), "Device open failed");
    assert_eq!(
        DongleError::ForceSDPNotSupported.message(),
        "ForceSDP not supported on PCB Rev A or B"
    );
    assert_eq!(
        DongleError::AttachDetachNotSupported.message(),
        "Attch/Detach not supported on PCB Rev A or B"
    );
    assert_eq!(
        DongleError::GPIONotSupported.message(),
        "GPIO not supported on PCB Rev A or B"
    );
}
