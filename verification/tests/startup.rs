use dongle_ctl::command::Commands;
use dongle_ctl::device::{DeviceInfo, USBDevice};
use dongle_ctl::discovery::{can_find_dongles, find_dongles};
use dongle_ctl::error::DongleError;
use dongle_ctl::selection::select_device;
use dongle_ctl::startup::{open_failure, start_command, Next, OpenErrorKind};

fn info(handle: usize, vendor_id: u16, product_id: u16, port_chain: &[u8]) -> DeviceInfo {
    DeviceInfo {
        handle,
        bus_id: "1".to_string(),
        port_chain: port_chain.to_vec(),
        vendor_id,
        product_id,
        product_string: None,
        serial_number: None,
    }
}

fn bridge(handle: usize, port_chain: &[u8]) -> DeviceInfo {
    info(handle, 0x0424, 0x2530, port_chain)
}

fn adapter(handle: usize, port_chain: &[u8], serial: &str) -> DeviceInfo {
    let mut d = info(handle, 0x0403, 0x6015, port_chain);
    d.serial_number = Some(serial.to_string());
    d
}

fn hub(handle: usize, port_chain: &[u8], product: &str) -> DeviceInfo {
    let mut d = info(handle, 0x0424, 0x4502, port_chain);
    d.product_string = Some(product.to_string());
    d
}

fn dongle(serial: &str, bus_id: &str, port_chain: &[u8]) -> USBDevice {
    let mut device_info = bridge(0, port_chain);
    device_info.bus_id = bus_id.to_string();
    USBDevice {
        device_info,
        serial: serial.to_string(),
        product_string: String::new(),
    }
}

fn two() -> Vec<USBDevice> {
    vec![dongle("DL100", "1", &[1, 2]), dongle("DL200", "2", &[3, 4])]
}

fn some(s: &str) -> Option<String> {
    Some(s.to_string())
}

#[test]
fn dongles_are_found_with_their_parts() {
    let all = vec![
        info(0, 0x1d6b, 0x0002, &[]),
        hub(1, &[2], "relay hub"),
        adapter(2, &[2, 1], "DL100"),
        bridge(3, &[2, 5]),
        bridge(4, &[3, 5]),
        adapter(5, &[3, 1], "DL200"),
    ];
    let found = find_dongles(&all);
    assert_eq!(found.len(), 2);
    assert_eq!(found[0].device_info.handle, 3);
    assert_eq!(found[0].serial, "DL100");
    assert_eq!(found[0].product_string, "relay hub");
    assert_eq!(found[1].device_info.handle, 4);
    assert_eq!(found[1].serial, "DL200");
    assert_eq!(found[1].product_string, "");
}

#[test]
fn the_first_part_on_the_hub_counts() {
    let all = vec![
        adapter(0, &[1, 4, 2], "deep"),
        adapter(1, &[1, 1], "shallow"),
        adapter(2, &[2, 1], "elsewhere"),
        bridge(3, &[1, 5]),
    ];
    let found = find_dongles(&all);
    assert_eq!(found.len(), 1);
    assert_eq!(found[0].serial, "deep");
}

#[test]
fn a_part_without_a_string_hides_later_parts() {
    let mut silent = adapter(0, &[1, 1], "");
    silent.serial_number = None;
    let all = vec![silent, adapter(1, &[1, 2], "late"), bridge(2, &[1, 5])];
    assert_eq!(find_dongles(&all)[0].serial, "");
}

#[test]
fn a_bridge_at_a_root_port_sees_every_device() {
    let all = vec![adapter(0, &[7, 7], "far"), bridge(1, &[5])];
    assert_eq!(find_dongles(&all)[0].serial, "far");
}

#[test]
fn other_devices_are_no_dongles() {
    let all = vec![
        info(0, 0x0424, 0x2531, &[1]),
        info(1, 0x0425, 0x2530, &[1]),
        hub(2, &[1], "hub"),
        adapter(3, &[1, 1], "DL100"),
    ];
    assert!(find_dongles(&all).is_empty());
    assert!(find_dongles(&Vec::new()).is_empty());
}

#[test]
fn a_bridge_needs_a_port() {
    assert!(can_find_dongles(&Vec::new()));
    assert!(can_find_dongles(&vec![info(0, 0x1d6b, 0x0002, &[]), bridge(1, &[1])]));
    assert!(!can_find_dongles(&vec![bridge(0, &[1]), bridge(1, &[])]));
}

#[test]
fn nothing_connected() {
    let none = Vec::new();
    assert!(matches!(
        select_device(&none, some("DL1"), None),
        Err(DongleError::NoDevicesFound)
    ));
    assert!(matches!(select_device(&none, None, None), Err(DongleError::NoDevicesFound)));
}

#[test]
fn a_unique_part_of_a_serial_is_enough() {
    let devices = two();
    assert!(matches!(select_device(&devices, some("DL200"), None), Ok(1)));
    assert!(matches!(select_device(&devices, some("1"), None), Ok(0)));
    assert!(matches!(select_device(&devices, some("L2"), None), Ok(1)));
}

#[test]
fn a_serial_in_several_dongles_is_refused() {
    match select_device(&two(), some("DL"), None) {
        Err(DongleError::SerialNotUnique(serial)) => assert_eq!(serial, "DL"),
        _ => panic!(),
    }
    match select_device(&two(), some(""), None) {
        Err(DongleError::SerialNotUnique(serial)) => assert_eq!(serial, ""),
        _ => panic!(),
    }
}

#[test]
fn a_serial_in_no_dongle_is_refused() {
    match select_device(&two(), some("dl1"), None) {
        Err(DongleError::NoMatchForSerial(serial)) => assert_eq!(serial, "dl1"),
        _ => panic!(),
    }
    match select_device(&two(), some("DL1000"), None) {
        Err(DongleError::NoMatchForSerial(serial)) => assert_eq!(serial, "DL1000"),
        _ => panic!(),
    }
}

#[test]
fn a_serial_is_asked_for_even_of_a_lone_dongle() {
    let devices = vec![dongle("DL100", "1", &[1])];
    assert!(matches!(select_device(&devices, some("100"), None), Ok(0)));
    assert!(matches!(
        select_device(&devices, some("7"), None),
        Err(DongleError::NoMatchForSerial(_))
    ));
    assert!(matches!(select_device(&devices, None, None), Ok(0)));
}

#[test]
fn a_path_selects_the_first_with_it() {
    let mut devices = two();
    devices.push(dongle("DL300", "02", &[3, 4]));
    devices.push(dongle("DL400", "2", &[34]));
    assert!(matches!(select_device(&devices, None, some("1:1,2")), Ok(0)));
    assert!(matches!(select_device(&devices, None, some("2:3,4")), Ok(1)));
    assert!(matches!(select_device(&devices, None, some("2:34")), Ok(3)));
    match select_device(&devices, None, some("2:3")) {
        Err(DongleError::NoMatchForUSBTree(path)) => assert_eq!(path, "2:3"),
        _ => panic!(),
    }
}

#[test]
fn a_serial_goes_before_a_path() {
    assert!(matches!(select_device(&two(), some("100"), some("2:3,4")), Ok(0)));
    assert!(matches!(
        select_device(&two(), some("x"), some("2:3,4")),
        Err(DongleError::NoMatchForSerial(_))
    ));
}

#[test]
fn several_dongles_need_a_choice() {
    assert!(matches!(
        select_device(&two(), None, None),
        Err(DongleError::DeviceNotSpecified)
    ));
}

#[test]
fn list_prints_serials_and_paths() {
    let start = start_command(Commands::List, &two(), some("x"), None);
    assert_eq!(start.lines, vec!["Connected device list:", "DL100 1:1,2", "DL200 2:3,4"]);
    assert!(matches!(start.next, Next::Finished));
    let start = start_command(Commands::List, &Vec::new(), None, None);
    assert_eq!(start.lines, vec!["Connected device list:"]);
    assert!(matches!(start.next, Next::Finished));
}

#[test]
fn udev_needs_no_dongle() {
    let start = start_command(Commands::Udev, &Vec::new(), None, None);
    assert_eq!(start.lines.len(), 2);
    assert!(matches!(start.next, Next::Finished));
}

#[test]
fn a_choice_prints_nothing() {
    let start = start_command(Commands::Status, &two(), None, some("2:3,4"));
    assert!(start.lines.is_empty());
    assert!(matches!(start.next, Next::Chosen(1)));
}

#[test]
fn failures_are_explained() {
    let start = start_command(Commands::On, &Vec::new(), None, None);
    assert_eq!(start.lines, vec!["No devices found"]);
    assert!(matches!(start.next, Next::Failed(DongleError::NoDevicesFound)));

    let start = start_command(Commands::On, &two(), some("DL"), None);
    assert_eq!(
        start.lines,
        vec!["Devices found, but serial provided matches more than one device"]
    );
    assert!(matches!(start.next, Next::Failed(DongleError::SerialNotUnique(_))));

    let start = start_command(Commands::On, &two(), some("x"), None);
    assert_eq!(
        start.lines,
        vec![
            "Devices found, but serial provided does not match any of them, device serials:",
            "DL100",
            "DL200",
        ]
    );
    assert!(matches!(start.next, Next::Failed(DongleError::NoMatchForSerial(_))));

    let start = start_command(Commands::On, &two(), None, some("9:1"));
    assert_eq!(
        start.lines,
        vec![
            "Devices found, but usb path provided does not match any of them:",
            "1:1,2",
            "2:3,4",
        ]
    );
    assert!(matches!(start.next, Next::Failed(DongleError::NoMatchForUSBTree(_))));

    let start = start_command(Commands::On, &two(), None, None);
    assert_eq!(
        start.lines,
        vec![
            "Several devices connected, please provide serial or usb path to select one of them",
            "DL100 1:1,2",
            "DL200 2:3,4",
        ]
    );
    assert!(matches!(start.next, Next::Failed(DongleError::DeviceNotSpecified)));
}

#[test]
fn open_failures_hint_at_rules() {
    let hint = "You are probably missing an udev rule, run 'mchp_gpio_ctl --help' to see how to install it";
    let end = open_failure("denied", OpenErrorKind::PermissionDenied, None, true);
    assert_eq!(end.lines, vec!["Failed to open device: denied", hint]);
    assert!(matches!(end.next, Next::Failed(DongleError::DeviceOpenFail)));
    let end = open_failure("odd", OpenErrorKind::Other, Some(13), true);
    assert_eq!(end.lines, vec!["Failed to open device: odd", hint]);
    let end = open_failure("busy", OpenErrorKind::Busy, Some(16), true);
    assert_eq!(end.lines, vec!["Failed to open device: busy"]);
    let end = open_failure("denied", OpenErrorKind::PermissionDenied, Some(13), false);
    assert_eq!(end.lines, vec!["Failed to open device: denied"]);
}
