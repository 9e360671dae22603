//! USB devices and the dongles among them: identity, USB path, serial.

use vstd::prelude::*;

use crate::pattern;
use crate::pattern::{regex_is_match, USBPATH_PATTERN};
use crate::text;
use crate::text::{decimal_string, parse_i64};

verus! {

/// Vendor of the USB hub and of the bridge inside it.
pub const VENDOR_SMSC: u16 = 0x0424;

/// The bridge through which a dongle is driven.
pub const PRODUCT_BRIDGE_DEV: u16 = 0x2530;

/// The hub of a dongle.
pub const PRODUCT_USB4604_HUB: u16 = 0x4502;

/// Vendor of the serial adapter.
pub const VENDOR_FTDI: u16 = 0x0403;

/// The serial adapter of a dongle.
pub const PRODUCT_FT234: u16 = 0x6015;

/// What an enumeration of the USB devices tells about one of them.
#[derive(Debug)]
pub struct DeviceInfo {
    /// The place of the device in the enumeration, by which the device is found
    /// again when it is to be opened.
    pub handle: usize,
    pub bus_id: String,
    pub port_chain: Vec<u8>,
    pub vendor_id: u16,
    pub product_id: u16,
    pub product_string: Option<String>,
    pub serial_number: Option<String>,
}

/// A [`DeviceInfo`] as mathematical values.
pub struct DeviceInfoView {
    pub handle: usize,
    pub bus_id: Seq<char>,
    pub port_chain: Seq<u8>,
    pub vendor_id: u16,
    pub product_id: u16,
    pub product_string: Option<Seq<char>>,
    pub serial_number: Option<Seq<char>>,
}

/// The text of a string that may be absent.
pub open spec fn optional_text(s: Option<String>) -> Option<Seq<char>> {
    match s {
        Some(s) => Some(s@),
        None => None,
    }
}

impl View for DeviceInfo {
    type V = DeviceInfoView;

    open spec fn view(&self) -> DeviceInfoView {
        DeviceInfoView {
            handle: self.handle,
            bus_id: self.bus_id@,
            port_chain: self.port_chain@,
            vendor_id: self.vendor_id,
            product_id: self.product_id,
            product_string: optional_text(self.product_string),
            serial_number: optional_text(self.serial_number),
        }
    }
}

/// A copy of a string that may be absent.
fn optional_clone(s: &Option<String>) -> (copy: Option<String>)
    ensures
        optional_text(copy) == optional_text(*s),
{
    match s {
        Some(s) => Some(s.clone()),
        None => None,
    }
}

impl Clone for DeviceInfo {
    fn clone(&self) -> (copy: Self)
        ensures
            copy@ == self@,
    {
        let port_chain = self.port_chain.clone();
        assert(port_chain@ == self.port_chain@);
        DeviceInfo {
            handle: self.handle,
            bus_id: self.bus_id.clone(),
            port_chain,
            vendor_id: self.vendor_id,
            product_id: self.product_id,
            product_string: optional_clone(&self.product_string),
            serial_number: optional_clone(&self.serial_number),
        }
    }
}

/// A dongle: its bridge, with the serial of its serial adapter and the product
/// string of its hub.
#[derive(Debug)]
pub struct USBDevice {
    pub device_info: DeviceInfo,
    pub serial: String,
    pub product_string: String,
}

/// A [`USBDevice`] as mathematical values.
pub struct USBDeviceView {
    pub device_info: DeviceInfoView,
    pub serial: Seq<char>,
    pub product_string: Seq<char>,
}

impl View for USBDevice {
    type V = USBDeviceView;

    open spec fn view(&self) -> USBDeviceView {
        USBDeviceView {
            device_info: self.device_info@,
            serial: self.serial@,
            product_string: self.product_string@,
        }
    }
}

impl Clone for USBDevice {
    fn clone(&self) -> (copy: Self)
        ensures
            copy@ == self@,
    {
        USBDevice {
            device_info: self.device_info.clone(),
            serial: self.serial.clone(),
            product_string: self.product_string.clone(),
        }
    }
}

/// A text that is no USB path.
#[derive(Debug, PartialEq, Eq, Structural)]
pub struct USBDeviceError;

/// A bus id in the form that USB paths use: a hexadecimal number in decimal,
/// anything else as it is.
pub open spec fn sanitized(bus_id: Seq<char>) -> Seq<char> {
    match text::i64_value(bus_id, 16) {
        Some(number) => text::decimal(number as int),
        None => bus_id,
    }
}

/// The ports of a chain in decimal, separated by commas.
pub open spec fn port_text(chain: Seq<u8>) -> Seq<char>
    decreases chain.len(),
{
    if chain.len() == 0 {
        Seq::empty()
    } else if chain.len() == 1 {
        text::decimal(chain.last() as int)
    } else {
        port_text(chain.drop_last()) + ","@ + text::decimal(chain.last() as int)
    }
}

/// The USB path of a device: its bus, a colon, its ports separated by commas.
pub open spec fn path_of(device: DeviceInfoView) -> Seq<char> {
    sanitized(device.bus_id) + ":"@ + port_text(device.port_chain)
}

pub trait USBDeviceAPI {
    /// The enumerated device.
    spec fn info(&self) -> DeviceInfoView;

    /// DeviceInfo
    fn device(&self) -> (device: &DeviceInfo)
        ensures
            device@ == self.info(),
    ;

    /// Bus id as string
    fn bus_id(&self) -> (bus_id: &str)
        ensures
            bus_id@ == self.info().bus_id,
    ;

    /// Port chain as vector of u8's
    fn port_chain(&self) -> (chain: &[u8])
        ensures
            chain@ == self.info().port_chain,
    ;

    /// usb vendor id
    fn vendor(&self) -> (id: u16)
        ensures
            id == self.info().vendor_id,
    ;

    /// usb product id
    fn product(&self) -> (id: u16)
        ensures
            id == self.info().product_id,
    ;

    /// product string if available (exposed)
    fn product_string(&self) -> (string: Option<String>)
        ensures
            optional_text(string) == self.info().product_string,
    ;

    /// serial number if available (exposed)
    fn serial_number(&self) -> (serial: Option<String>)
        ensures
            optional_text(serial) == self.info().serial_number,
    ;

    /// usb bus and port_chain as bus:p0,p1,...
    fn usb_path(&self) -> (path: String)
        ensures
            path@ == path_of(self.info()),
    ;

    /// Compare usbpath to device bus_id and port_chain for match
    fn usbpath_match(&self, s: &str) -> (matched: bool)
        ensures
            matched == (path_of(self.info()) == s@),
    ;

    /// Compare serial to device serial for match
    fn serial_match(&self, s: &str) -> (matched: bool)
        ensures
            matched == (self.info().serial_number == Some(s@)),
    ;

    /// from argument to usb_path if possible
    fn from_arg(s: &str) -> (path: Result<String, USBDeviceError>)
        ensures
            path is Ok <==> pattern::holds_usbpath(s@),
            path matches Ok(path) ==> path@ == s@,
    ;

    /// bus id representation sanitizing
    fn sanitize_usbpath(s: &str) -> (bus: String)
        ensures
            bus@ == sanitized(s@),
    ;
}

impl USBDeviceAPI for USBDevice {
    open spec fn info(&self) -> DeviceInfoView {
        self.device_info@
    }

    fn device(&self) -> (device: &DeviceInfo)
        ensures
            *device == self.device_info,
    {
        &self.device_info
    }

    fn bus_id(&self) -> &str {
        self.device_info.bus_id.as_str()
    }

    fn port_chain(&self) -> &[u8] {
        self.device_info.port_chain.as_slice()
    }

    fn vendor(&self) -> u16 {
        self.device_info.vendor_id
    }

    fn product(&self) -> u16 {
        self.device_info.product_id
    }

    fn product_string(&self) -> Option<String> {
        optional_clone(&self.device_info.product_string)
    }

    fn serial_number(&self) -> Option<String> {
        optional_clone(&self.device_info.serial_number)
    }

    fn usb_path(&self) -> String {
        let mut path = Self::sanitize_usbpath(self.bus_id());
        path.append(":");
        let ghost start = path@;
        let ports = self.port_chain();
        let mut i: usize = 0;
        assert(ports@.take(0) == Seq::<u8>::empty());
        while i < ports.len()
            invariant
                i <= ports@.len(),
                path@ == start + port_text(ports@.take(i as int)),
            decreases ports@.len() - i,
        {
            if i > 0 {
                path.append(",");
            }
            path.append(decimal_string(ports[i] as i64).as_str());
            assert(ports@.take(i + 1).drop_last() == ports@.take(i as int));
            i = i + 1;
        }
        assert(ports@.take(i as int) == ports@);
        path
    }

    fn usbpath_match(&self, s: &str) -> bool {
        self.usb_path() == s.to_string()
    }

    fn serial_match(&self, s: &str) -> bool {
        match self.serial_number() {
            None => false,
            Some(serial) => serial == s.to_string(),
        }
    }

    fn from_arg(s: &str) -> Result<String, USBDeviceError> {
        let found = match regex_is_match(USBPATH_PATTERN, s) {
            Some(found) => found,
            None => false,
        };
        accept_arg(s, found)
    }

    fn sanitize_usbpath(s: &str) -> String {
        match parse_i64(s, 16) {
            None => s.to_string(),
            Some(number) => decimal_string(number),
        }
    }
}

/// An argument that is to be a USB path, given whether the pattern of USB paths
/// was found in it.
pub fn accept_arg(s: &str, found: bool) -> (path: Result<String, USBDeviceError>)
    ensures
        path is Ok <==> found,
        path matches Ok(path) ==> path@ == s@,
{
    if found {
        Ok(s.to_string())
    } else {
        Err(USBDeviceError)
    }
}

/// An argument that is to be a USB path, or the message that rejects it.
pub fn from_arg_usbpath(s: &str) -> (path: Result<String, String>)
    ensures
        path is Ok <==> pattern::holds_usbpath(s@),
        path matches Ok(path) ==> path@ == s@,
        path matches Err(message) ==> message@ == "unknown value: '"@ + s@ + "'."@,
{
    match <USBDevice as USBDeviceAPI>::from_arg(s) {
        Ok(path) => Ok(path),
        Err(_) => {
            let mut message = "unknown value: '".to_string();
            message.append(s);
            message.append("'.");
            Err(message)
        },
    }
}

} // verus!
