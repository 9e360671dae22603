//! What a command does before a dongle is open: print lists and rules, choose
//! the dongle, and explain why there is none.

use vstd::prelude::*;

use crate::command::Commands;
use crate::device;
use crate::device::{USBDevice, USBDeviceAPI, USBDeviceView};
use crate::discovery;
use crate::error::{DongleError, DongleErrorView};
use crate::selection;
use crate::selection::select_device;
use crate::text;
use crate::udev;
use crate::udev::udev_rules;

verus! {

/// What a line about a dongle shows.
#[derive(Clone, Copy, PartialEq, Eq, Debug, Structural)]
pub enum Shown {
    Serial,
    Path,
    SerialAndPath,
}

/// A line about a dongle.
pub open spec fn device_line(d: USBDeviceView, shown: Shown) -> Seq<char> {
    match shown {
        Shown::Serial => d.serial,
        Shown::Path => device::path_of(d.device_info),
        Shown::SerialAndPath => d.serial + " "@ + device::path_of(d.device_info),
    }
}

/// A headline, then a line for each dongle.
pub open spec fn listing(
    headline: Seq<char>,
    devices: Seq<USBDeviceView>,
    shown: Shown,
) -> Seq<Seq<char>> {
    seq![headline] + devices.map_values(|d: USBDeviceView| device_line(d, shown))
}

/// The explanation of why no dongle was chosen.
pub open spec fn explanation(devices: Seq<USBDeviceView>, error: DongleErrorView) -> Seq<
    Seq<char>,
> {
    match error {
        DongleErrorView::NoDevicesFound => seq!["No devices found"@],
        DongleErrorView::SerialNotUnique(_) => seq![
            "Devices found, but serial provided matches more than one device"@,
        ],
        DongleErrorView::NoMatchForSerial(_) => listing(
            "Devices found, but serial provided does not match any of them, device serials:"@,
            devices,
            Shown::Serial,
        ),
        DongleErrorView::NoMatchForUSBTree(_) => listing(
            "Devices found, but usb path provided does not match any of them:"@,
            devices,
            Shown::Path,
        ),
        DongleErrorView::DeviceNotSpecified => listing(
            "Several devices connected, please provide serial or usb path to select one of them"@,
            devices,
            Shown::SerialAndPath,
        ),
        _ => Seq::empty(),
    }
}

/// How a command goes on after its start.
#[derive(Debug)]
pub enum Next {
    /// The command is done.
    Finished,
    /// The command has failed.
    Failed(DongleError),
    /// The command is for the dongle at this place.
    Chosen(usize),
}

/// The start of a command: lines to print, then how it goes on.
#[derive(Debug)]
pub struct Start {
    pub lines: Vec<String>,
    pub next: Next,
}

/// Whether a command starts with `lines` and goes on with `next`: a list or
/// the rules where it asks for them, else a choice, with an explanation where
/// that fails.
pub open spec fn starts(
    command: Commands,
    devices: Seq<USBDeviceView>,
    serial: Option<Seq<char>>,
    usbpath: Option<Seq<char>>,
    lines: Seq<Seq<char>>,
    next: Next,
) -> bool {
    match command {
        Commands::List => {
            &&& lines == listing("Connected device list:"@, devices, Shown::SerialAndPath)
            &&& next is Finished
        },
        Commands::Udev => {
            &&& lines == udev::rules()
            &&& next is Finished
        },
        _ => match next {
            Next::Finished => false,
            Next::Failed(error) => {
                &&& selection::selects(devices, serial, usbpath, Err(error@))
                &&& lines == explanation(devices, error@)
            },
            Next::Chosen(i) => {
                &&& selection::selects(devices, serial, usbpath, Ok(i as int))
                &&& lines == Seq::<Seq<char>>::empty()
            },
        },
    }
}

/// A headline, then a line for each dongle.
fn listing_lines(headline: &str, devices: &Vec<USBDevice>, shown: Shown) -> (lines: Vec<String>)
    ensures
        text::texts(lines@) == listing(headline@, discovery::device_views(devices@), shown),
{
    let ghost views = discovery::device_views(devices@);
    let ghost to_line = |d: USBDeviceView| device_line(d, shown);
    let mut lines: Vec<String> = Vec::new();
    lines.push(headline.to_string());
    let mut i: usize = 0;
    assert(text::texts(lines@) =~= seq![headline@] + views.take(0).map_values(to_line));
    while i < devices.len()
        invariant
            i <= devices@.len(),
            views == discovery::device_views(devices@),
            to_line == (|d: USBDeviceView| device_line(d, shown)),
            text::texts(lines@) == seq![headline@] + views.take(i as int).map_values(to_line),
        decreases devices@.len() - i,
    {
        let ghost before = lines@;
        let d = &devices[i];
        let line = match shown {
            Shown::Serial => d.serial.clone(),
            Shown::Path => d.usb_path(),
            Shown::SerialAndPath => {
                let mut line = d.serial.clone();
                line.append(" ");
                line.append(d.usb_path().as_str());
                line
            },
        };
        assert(views[i as int] == d@);
        assert(line@ == to_line(d@));
        lines.push(line);
        assert(text::texts(lines@) =~= text::texts(before).push(line@));
        assert(views.take(i + 1).map_values(to_line) =~= views.take(i as int).map_values(
            to_line,
        ).push(line@));
        i = i + 1;
    }
    assert(views.take(i as int) == views);
    lines
}

/// The explanation of why no dongle was chosen.
fn explanation_lines(devices: &Vec<USBDevice>, error: &DongleError) -> (lines: Vec<String>)
    ensures
        text::texts(lines@) == explanation(discovery::device_views(devices@), error@),
{
    match error {
        DongleError::NoDevicesFound => {
            let mut lines: Vec<String> = Vec::new();
            lines.push("No devices found".to_string());
            lines
        },
        DongleError::SerialNotUnique(_) => {
            let mut lines: Vec<String> = Vec::new();
            lines.push(
                "Devices found, but serial provided matches more than one device".to_string(),
            );
            lines
        },
        DongleError::NoMatchForSerial(_) => listing_lines(
            "Devices found, but serial provided does not match any of them, device serials:",
            devices,
            Shown::Serial,
        ),
        DongleError::NoMatchForUSBTree(_) => listing_lines(
            "Devices found, but usb path provided does not match any of them:",
            devices,
            Shown::Path,
        ),
        DongleError::DeviceNotSpecified => listing_lines(
            "Several devices connected, please provide serial or usb path to select one of them",
            devices,
            Shown::SerialAndPath,
        ),
        _ => Vec::new(),
    }
}

/// The start of a command, given the dongles that are connected and the serial
/// or USB path that was asked for.
pub fn start_command(
    command: Commands,
    devices: &Vec<USBDevice>,
    serial: Option<String>,
    usbpath: Option<String>,
) -> (start: Start)
    ensures
        starts(
            command,
            discovery::device_views(devices@),
            device::optional_text(serial),
            device::optional_text(usbpath),
            text::texts(start.lines@),
            start.next,
        ),
{
    match command {
        Commands::List => Start {
            lines: listing_lines("Connected device list:", devices, Shown::SerialAndPath),
            next: Next::Finished,
        },
        Commands::Udev => Start { lines: udev_rules(), next: Next::Finished },
        _ => match select_device(devices, serial, usbpath) {
            Ok(i) => {
                let lines: Vec<String> = Vec::new();
                assert(text::texts(lines@) =~= Seq::<Seq<char>>::empty());
                Start { lines, next: Next::Chosen(i) }
            },
            Err(error) => {
                let lines = explanation_lines(devices, &error);
                Start { lines, next: Next::Failed(error) }
            },
        },
    }
}

/// Why a device could not be opened.
#[derive(Clone, Copy, PartialEq, Eq, Debug, Structural)]
pub enum OpenErrorKind {
    Disconnected,
    Busy,
    PermissionDenied,
    NotFound,
    Unsupported,
    Other,
}

/// The error number with which an operating system refuses access.
pub const ACCESS_DENIED: u32 = 13;

/// The lines for a device that could not be opened: what the system says, and
/// on a host with udev, where access was refused, a hint at the missing rule.
pub open spec fn open_failure_text(
    reason: Seq<char>,
    kind: OpenErrorKind,
    os_error: Option<u32>,
    host_has_udev: bool,
) -> Seq<Seq<char>> {
    let report = seq!["Failed to open device: "@ + reason];
    if host_has_udev && (kind == OpenErrorKind::PermissionDenied || os_error == Some(
        ACCESS_DENIED,
    )) {
        report.push(
            "You are probably missing an udev rule, run 'mchp_gpio_ctl --help' to see how to install it"@,
        )
    } else {
        report
    }
}

/// The end of a command whose dongle could not be opened.
pub fn open_failure(
    reason: &str,
    kind: OpenErrorKind,
    os_error: Option<u32>,
    host_has_udev: bool,
) -> (start: Start)
    ensures
        text::texts(start.lines@) == open_failure_text(reason@, kind, os_error, host_has_udev),
        start.next == Next::Failed(DongleError::DeviceOpenFail),
{
    let mut report = "Failed to open device: ".to_string();
    report.append(reason);
    let mut lines: Vec<String> = Vec::new();
    lines.push(report);
    let denied = match os_error {
        Some(number) => number == ACCESS_DENIED,
        None => false,
    };
    if host_has_udev && (kind == OpenErrorKind::PermissionDenied || denied) {
        lines.push(
            "You are probably missing an udev rule, run 'mchp_gpio_ctl --help' to see how to install it".to_string(),
        );
    }
    Start { lines, next: Next::Failed(DongleError::DeviceOpenFail) }
}

/// What a listing shows: its headline, then a line for each dongle in turn.
proof fn listing_in_turn(headline: Seq<char>, devices: Seq<USBDeviceView>, shown: Shown)
    ensures
        listing(headline, devices, shown).len() == devices.len() + 1,
        listing(headline, devices, shown)[0] == headline,
        forall|i: int|
            0 <= i < devices.len() ==> listing(headline, devices, shown)[i + 1] == device_line(
                #[trigger] devices[i],
                shown,
            ),
{
}

/// The `list` command prints a headline, then serial and USB path of each
/// dongle, with a space between them, one line for each and in order. It is then
/// done, whatever was asked for beside it.
pub proof fn list_shows_every_dongle(
    devices: Seq<USBDeviceView>,
    serial: Option<Seq<char>>,
    usbpath: Option<Seq<char>>,
    lines: Seq<Seq<char>>,
    next: Next,
)
    requires
        starts(Commands::List, devices, serial, usbpath, lines, next),
    ensures
        next is Finished,
        lines.len() == devices.len() + 1,
        lines[0] == "Connected device list:"@,
        forall|i: int|
            0 <= i < devices.len() ==> lines[i + 1] == (#[trigger] devices[i]).serial + seq![' ']
                + device::path_of(devices[i].device_info),
{
    reveal_strlit(" ");
    assert(" "@ =~= seq![' ']);
    listing_in_turn("Connected device list:"@, devices, Shown::SerialAndPath);
}

/// The `udev` command prints the rules and is then done, whatever is connected.
pub proof fn udev_shows_the_rules(
    devices: Seq<USBDeviceView>,
    serial: Option<Seq<char>>,
    usbpath: Option<Seq<char>>,
    lines: Seq<Seq<char>>,
    next: Next,
)
    requires
        starts(Commands::Udev, devices, serial, usbpath, lines, next),
    ensures
        next is Finished,
        lines == udev::rules(),
{
}

/// Any other command goes on with the dongle that is chosen, and prints nothing
/// first; where none is chosen it fails with the reason, which it explains. All
/// of these commands start alike.
pub proof fn other_commands_choose(
    command: Commands,
    other: Commands,
    devices: Seq<USBDeviceView>,
    serial: Option<Seq<char>>,
    usbpath: Option<Seq<char>>,
    lines: Seq<Seq<char>>,
    next: Next,
)
    requires
        !(command is List || command is Udev),
        !(other is List || other is Udev),
        starts(command, devices, serial, usbpath, lines, next),
    ensures
        starts(other, devices, serial, usbpath, lines, next),
        match next {
            Next::Finished => false,
            Next::Chosen(i) => selection::selects(devices, serial, usbpath, Ok(i as int))
                && lines.len() == 0,
            Next::Failed(error) => selection::selects(devices, serial, usbpath, Err(error@)),
        },
{
}

/// Why no dongle was chosen is explained in a line of its own. Where dongles were
/// found, and the one that was asked for is not among them or none was asked
/// for, a line for each dongle follows, in order, with what it could have been
/// asked for by.
pub proof fn failures_are_explained(
    command: Commands,
    devices: Seq<USBDeviceView>,
    serial: Option<Seq<char>>,
    usbpath: Option<Seq<char>>,
    lines: Seq<Seq<char>>,
    error: DongleError,
)
    requires
        !(command is List || command is Udev),
        starts(command, devices, serial, usbpath, lines, Next::Failed(error)),
    ensures
        match error {
            DongleError::NoDevicesFound => lines.len() == 1 && lines[0] == "No devices found"@,
            DongleError::SerialNotUnique(_) => lines.len() == 1 && lines[0]
                == "Devices found, but serial provided matches more than one device"@,
            DongleError::NoMatchForSerial(_) => {
                &&& lines.len() == devices.len() + 1
                &&& lines[0]
                    == "Devices found, but serial provided does not match any of them, device serials:"@
                &&& forall|i: int|
                    0 <= i < devices.len() ==> lines[i + 1] == (#[trigger] devices[i]).serial
            },
            DongleError::NoMatchForUSBTree(_) => {
                &&& lines.len() == devices.len() + 1
                &&& lines[0]
                    == "Devices found, but usb path provided does not match any of them:"@
                &&& forall|i: int|
                    0 <= i < devices.len() ==> lines[i + 1] == device::path_of(
                        (#[trigger] devices[i]).device_info,
                    )
            },
            DongleError::DeviceNotSpecified => {
                &&& lines.len() == devices.len() + 1
                &&& lines[0]
                    == "Several devices connected, please provide serial or usb path to select one of them"@
                &&& forall|i: int|
                    0 <= i < devices.len() ==> lines[i + 1] == (#[trigger] devices[i]).serial
                        + seq![' '] + device::path_of(devices[i].device_info)
            },
            _ => false,
        },
{
    reveal_strlit(" ");
    assert(" "@ =~= seq![' ']);
    listing_in_turn(
        "Devices found, but serial provided does not match any of them, device serials:"@,
        devices,
        Shown::Serial,
    );
    listing_in_turn(
        "Devices found, but usb path provided does not match any of them:"@,
        devices,
        Shown::Path,
    );
    listing_in_turn(
        "Several devices connected, please provide serial or usb path to select one of them"@,
        devices,
        Shown::SerialAndPath,
    );
}

/// A device that could not be opened is reported with the reason. A hint follows
/// exactly on a host with udev where access was refused, by the kind of the
/// error or by its number, which is thirteen.
pub proof fn open_failures_are_reported(
    reason: Seq<char>,
    kind: OpenErrorKind,
    os_error: Option<u32>,
    host_has_udev: bool,
)
    ensures
        ({
            let lines = open_failure_text(reason, kind, os_error, host_has_udev);
            let hint = host_has_udev && (kind is PermissionDenied || os_error == Some(13u32));
            &&& lines.len() == (if hint {
                2int
            } else {
                1
            })
            &&& lines[0] == "Failed to open device: "@ + reason
            &&& hint ==> lines[1]
                == "You are probably missing an udev rule, run 'mchp_gpio_ctl --help' to see how to install it"@
        }),
{
}

} // verus!
