use dongle_ctl::device::{
    accept_arg, from_arg_usbpath, DeviceInfo, USBDevice, USBDeviceAPI, USBDeviceError,
};

fn device(bus_id: &str, port_chain: &[u8]) -> USBDevice {
    USBDevice {
        device_info: DeviceInfo {
            handle: 4,
            bus_id: bus_id.to_string(),
            port_chain: port_chain.to_vec(),
            vendor_id: 0x0424,
            product_id: 0x2530,
            product_string: Some("Bridge".to_string()),
            serial_number: Some("B-1".to_string()),
        },
        serial: "DL001".to_string(),
        product_string: "USB4604".to_string(),
    }
}

#[test]
fn getters_show_the_bridge() {
    let d = device("2", &[1, 4]);
    assert_eq!(d.device().handle, 4);
    assert_eq!(d.bus_id(), "2");
    assert_eq!(d.port_chain(), &[1u8, 4][..]);
    assert_eq!(d.vendor(), 0x0424);
    assert_eq!(d.product(), 0x2530);
    assert_eq!(d.product_string(), Some("Bridge".to_string()));
    assert_eq!(d.serial_number(), Some("B-1".to_string()));
}

#[test]
fn clone_keeps_everything() {
    let d = device("2", &[1, 4]).clone();
    assert_eq!(d.serial, "DL001");
    assert_eq!(d.product_string, "USB4604");
    assert_eq!(d.device_info.port_chain, vec![1u8, 4]);
    assert_eq!(d.device_info.serial_number, Some("B-1".to_string()));
}

#[test]
fn usb_path_joins_bus_and_ports() {
    assert_eq!(device("1", &[2, 3]).usb_path(), "1:2,3");
    assert_eq!(device("001", &[2, 3, 4]).usb_path(), "1:2,3,4");
    assert_eq!(device("003", &[1, 4]).usb_path(), "3:1,4");
    assert_eq!(device("1a", &[7]).usb_path(), "26:7");
    assert_eq!(device("usb bus", &[7, 1]).usb_path(), "usb bus:7,1");
    assert_eq!(device("3", &[]).usb_path(), "3:");
    assert_eq!(device("3", &[12, 0, 255]).usb_path(), "3:12,0,255");
}

#[test]
fn usbpath_match_wants_the_whole_path() {
    let d = device("0A", &[2, 3]);
    assert!(d.usbpath_match("10:2,3"));
    assert!(!d.usbpath_match("0A:2,3"));
    assert!(!d.usbpath_match("10:2"));
    assert!(!d.usbpath_match("10:23"));
    assert!(!d.usbpath_match("10:2,3,"));
    assert!(!d.usbpath_match(""));
}

#[test]
fn every_device_matches_its_own_path() {
    for bus in ["1", "ff", "PCI", ""] {
        let d = device(bus, &[1, 8]);
        assert!(d.usbpath_match(&d.usb_path()));
    }
}

#[test]
fn paths_tell_chains_apart() {
    assert_eq!(device("1", &[1, 14]).usb_path(), "1:1,14");
    assert_eq!(device("1", &[11, 4]).usb_path(), "1:11,4");
    assert!(!device("1", &[3, 4]).usbpath_match(&device("1", &[34]).usb_path()));
    assert!(!device("1", &[3, 4]).usbpath_match(&device("2", &[3, 4]).usb_path()));
    assert!(device("01", &[3, 4]).usbpath_match(&device("1", &[3, 4]).usb_path()));
}

#[test]
fn serial_match_wants_the_exact_serial_of_the_bridge() {
    let mut d = device("1", &[1]);
    assert!(d.serial_match("B-1"));
    assert!(!d.serial_match("B"));
    assert!(!d.serial_match("DL001"));
    d.device_info.serial_number = None;
    assert!(!d.serial_match("B-1"));
    assert!(!d.serial_match(""));
}

#[test]
fn sanitize_turns_hexadecimal_into_decimal() {
    assert_eq!(USBDevice::sanitize_usbpath("10"), "16");
    assert_eq!(USBDevice::sanitize_usbpath("0A"), "10");
    assert_eq!(USBDevice::sanitize_usbpath("fF"), "255");
    assert_eq!(USBDevice::sanitize_usbpath("000"), "0");
    assert_eq!(USBDevice::sanitize_usbpath("+1f"), "31");
    assert_eq!(USBDevice::sanitize_usbpath("-a"), "-10");
    assert_eq!(USBDevice::sanitize_usbpath("-0"), "0");
}

#[test]
fn sanitize_keeps_what_is_no_number() {
    for bus in ["", "+", "-", "xyz", "1_0", " 1", "1 ", "0x10", "--1", "1-", "\u{661}"] {
        assert_eq!(USBDevice::sanitize_usbpath(bus), bus);
    }
}

#[test]
fn sanitize_stops_at_64_bits() {
    assert_eq!(USBDevice::sanitize_usbpath("7fffffffffffffff"), "9223372036854775807");
    assert_eq!(USBDevice::sanitize_usbpath("-8000000000000000"), "-9223372036854775808");
    assert_eq!(USBDevice::sanitize_usbpath("8000000000000000"), "8000000000000000");
    assert_eq!(USBDevice::sanitize_usbpath("-8000000000000001"), "-8000000000000001");
    assert_eq!(USBDevice::sanitize_usbpath("00000000000000000000001"), "1");
}

#[test]
fn equal_bus_numbers_look_alike() {
    assert_eq!(USBDevice::sanitize_usbpath("00a"), USBDevice::sanitize_usbpath("A"));
    assert_ne!(USBDevice::sanitize_usbpath("a"), USBDevice::sanitize_usbpath("b"));
}

#[test]
fn from_arg_takes_paths() {
    for path in ["1:2", "1:8", "3:1,4", "bus_1:123", "_:1", "see 1:2, please", "x:1y", ":1:1"] {
        assert_eq!(USBDevice::from_arg(path), Ok(path.to_string()));
    }
}

#[test]
fn from_arg_rejects_the_rest() {
    for path in ["", ":", "1", "1:", ":1", "1:9", "1:0", "1;2", "-:1", " :1", "1: 2", "1::2"] {
        assert_eq!(USBDevice::from_arg(path), Err(USBDeviceError));
    }
}

#[test]
fn from_arg_knows_word_characters_of_other_scripts() {
    assert_eq!(USBDevice::from_arg("\u{e9}:1"), Ok("\u{e9}:1".to_string()));
    assert_eq!(USBDevice::from_arg("\u{65e5}:3"), Ok("\u{65e5}:3".to_string()));
    assert_eq!(USBDevice::from_arg("\u{2603}:1"), Err(USBDeviceError));
    assert_eq!(USBDevice::from_arg("1:\u{661}"), Err(USBDeviceError));
}

#[test]
fn from_arg_usbpath_explains() {
    assert_eq!(from_arg_usbpath("2:14"), Ok("2:14".to_string()));
    assert_eq!(from_arg_usbpath("2-14"), Err("unknown value: '2-14'.".to_string()));
    assert_eq!(from_arg_usbpath(""), Err("unknown value: ''.".to_string()));
}

#[test]
fn accept_arg_goes_by_the_search() {
    assert_eq!(accept_arg("anything", true), Ok("anything".to_string()));
    assert_eq!(accept_arg("1:2", false), Err(USBDeviceError));
}

#[test]
fn listed_paths_are_accepted() {
    assert!(USBDevice::from_arg(&device("1", &[2, 3]).usb_path()).is_ok());
    assert!(USBDevice::from_arg(&device("0x1", &[8]).usb_path()).is_ok());
    assert!(USBDevice::from_arg(&device("a", &[12]).usb_path()).is_ok());
    assert!(USBDevice::from_arg(&device("1", &[9]).usb_path()).is_err());
    assert!(USBDevice::from_arg(&device("1", &[]).usb_path()).is_err());
    assert!(USBDevice::from_arg(&device("bus#", &[1]).usb_path()).is_err());
    assert!(USBDevice::from_arg(&device("x:1#", &[9]).usb_path()).is_ok());
}
