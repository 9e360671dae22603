//! What can go wrong while a command runs.

use vstd::prelude::*;

verus! {

/// Enum defining the errors of the library
#[derive(Debug)]
pub enum DongleError {
    /// No device matching usb tree
    NoDongleMathcingUSBTree(String),
    /// No device matching serial
    NoDongleMathcingSerial(String),
    /// No devices/dongles found
    NoDevicesFound,
    /// Serial matches more than one device
    SerialNotUnique(String),
    /// Serial does not match device(s)
    NoMatchForSerial(String),
    /// USB tree does not match device(s)
    NoMatchForUSBTree(String),
    /// Several devices detected, need to specify which
    DeviceNotSpecified,
    /// Device open failed
    DeviceOpenFail,
    /// Force SDP not supported on Rev A or B
    ForceSDPNotSupported,
    /// Attach/Detach not supported on Rev A or B
    AttachDetachNotSupported,
    /// GPIO not supported on Rev A or B
    GPIONotSupported,
}

/// A [`DongleError`] with its text as a sequence of characters.
pub enum DongleErrorView {
    NoDongleMathcingUSBTree(Seq<char>),
    NoDongleMathcingSerial(Seq<char>),
    NoDevicesFound,
    SerialNotUnique(Seq<char>),
    NoMatchForSerial(Seq<char>),
    NoMatchForUSBTree(Seq<char>),
    DeviceNotSpecified,
    DeviceOpenFail,
    ForceSDPNotSupported,
    AttachDetachNotSupported,
    GPIONotSupported,
}

impl View for DongleError {
    type V = DongleErrorView;

    open spec fn view(&self) -> DongleErrorView {
        match self {
            DongleError::NoDongleMathcingUSBTree(tree) => {
                DongleErrorView::NoDongleMathcingUSBTree(tree@)
            },
            DongleError::NoDongleMathcingSerial(serial) => {
                DongleErrorView::NoDongleMathcingSerial(serial@)
            },
            DongleError::NoDevicesFound => DongleErrorView::NoDevicesFound,
            DongleError::SerialNotUnique(serial) => DongleErrorView::SerialNotUnique(serial@),
            DongleError::NoMatchForSerial(serial) => DongleErrorView::NoMatchForSerial(serial@),
            DongleError::NoMatchForUSBTree(tree) => DongleErrorView::NoMatchForUSBTree(tree@),
            DongleError::DeviceNotSpecified => DongleErrorView::DeviceNotSpecified,
            DongleError::DeviceOpenFail => DongleErrorView::DeviceOpenFail,
            DongleError::ForceSDPNotSupported => DongleErrorView::ForceSDPNotSupported,
            DongleError::AttachDetachNotSupported => DongleErrorView::AttachDetachNotSupported,
            DongleError::GPIONotSupported => DongleErrorView::GPIONotSupported,
        }
    }
}

/// The message of an error.
pub open spec fn error_text(error: DongleErrorView) -> Seq<char> {
    match error {
        DongleErrorView::NoDongleMathcingUSBTree(tree) => "No dongle matching usb tree "@ + tree,
        DongleErrorView::NoDongleMathcingSerial(serial) => {
            "No dongle mathcing serial number "@ + serial
        },
        DongleErrorView::NoDevicesFound => "No devices found"@,
        DongleErrorView::SerialNotUnique(serial) => {
            "Serial "@ + serial + " matches more than one device"@
        },
        DongleErrorView::NoMatchForSerial(serial) => "No match for serial "@ + serial,
        DongleErrorView::NoMatchForUSBTree(_) => "No match for USB tree 0"@,
        DongleErrorView::DeviceNotSpecified => "Device not specified"@,
        DongleErrorView::DeviceOpenFail => "Device open failed"@,
        DongleErrorView::ForceSDPNotSupported => "ForceSDP not supported on PCB Rev A or B"@,
        DongleErrorView::AttachDetachNotSupported => {
            "Attch/Detach not supported on PCB Rev A or B"@
        },
        DongleErrorView::GPIONotSupported => "GPIO not supported on PCB Rev A or B"@,
    }
}

impl DongleError {
    /// The message of the error. The message for a USB tree that matches
    /// nothing ends in a zero and does not name the tree.
    pub fn message(&self) -> (text: String)
        ensures
            text@ == error_text(self@),
    {
        match self {
            DongleError::NoDongleMathcingUSBTree(tree) => {
                let mut text = "No dongle matching usb tree ".to_string();
                text.append(tree.as_str());
                text
            },
            DongleError::NoDongleMathcingSerial(serial) => {
                let mut text = "No dongle mathcing serial number ".to_string();
                text.append(serial.as_str());
                text
            },
            DongleError::NoDevicesFound => "No devices found".to_string(),
            DongleError::SerialNotUnique(serial) => {
                let mut text = "Serial ".to_string();
                text.append(serial.as_str());
                text.append(" matches more than one device");
                text
            },
            DongleError::NoMatchForSerial(serial) => {
                let mut text = "No match for serial ".to_string();
                text.append(serial.as_str());
                text
            },
            DongleError::NoMatchForUSBTree(_) => "No match for USB tree 0".to_string(),
            DongleError::DeviceNotSpecified => "Device not specified".to_string(),
            DongleError::DeviceOpenFail => "Device open failed".to_string(),
            DongleError::ForceSDPNotSupported => {
                "ForceSDP not supported on PCB Rev A or B".to_string()
            },
            DongleError::AttachDetachNotSupported => {
                "Attch/Detach not supported on PCB Rev A or B".to_string()
            },
            DongleError::GPIONotSupported => "GPIO not supported on PCB Rev A or B".to_string(),
        }
    }
}

} // verus!
