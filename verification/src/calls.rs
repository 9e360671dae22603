//! How the answers of several calls on one dongle fit together.

use vstd::prelude::*;

use crate::command::Commands;
use crate::conduct;
use crate::device::{
    accept_arg, from_arg_usbpath, DeviceInfo, USBDevice, USBDeviceAPI, USBDeviceError,
};
use crate::discovery;
use crate::discovery::{can_find_dongles, find_dongles};
use crate::error::DongleError;
use crate::hardware::{HeaderPin, PinState, Readings};
use crate::message::Message;
use crate::paths;
use crate::pattern;
use crate::script::{script_actions, Action};
use crate::selection;
use crate::selection::select_device;
use crate::session::Session;
use crate::startup;
use crate::startup::{open_failure, start_command, Next, OpenErrorKind, Start};
use crate::text;
use crate::text::{decimal_string, hex4_string};
use crate::wording;

verus! {

/// A dongle matches a text as its USB path exactly where that is the USB path
/// that it gives.
pub proof fn own_path_matches(d: USBDevice, path: String, asked: &str, matched: bool)
    requires
        call_ensures(<USBDevice as USBDeviceAPI>::usb_path, (&d,), path),
        call_ensures(<USBDevice as USBDeviceAPI>::usbpath_match, (&d, asked), matched),
    ensures
        matched <==> asked@ == path@,
{
}

/// A dongle matches a text as the serial of its bridge exactly where the bridge
/// has a serial and it is that text, letter by letter.
pub proof fn own_serial_matches(
    d: USBDevice,
    serial: Option<String>,
    asked: &str,
    matched: bool,
)
    requires
        call_ensures(<USBDevice as USBDeviceAPI>::serial_number, (&d,), serial),
        call_ensures(<USBDevice as USBDeviceAPI>::serial_match, (&d, asked), matched),
    ensures
        matched <==> (serial is Some && serial->0@ == asked@),
        serial is Some <==> d.device_info.serial_number is Some,
        serial is Some ==> serial->0@ == d.device_info.serial_number->0@,
{
}

/// An argument that is a USB path is accepted as it is. Any other is named in the
/// message that rejects it.
pub proof fn arguments_are_kept_or_named(
    asked: &str,
    path: Result<String, USBDeviceError>,
    checked: Result<String, String>,
)
    requires
        call_ensures(<USBDevice as USBDeviceAPI>::from_arg, (asked,), path),
        call_ensures(from_arg_usbpath, (asked,), checked),
    ensures
        path is Ok <==> checked is Ok,
        path is Ok <==> pattern::holds_usbpath(asked@),
        path is Ok ==> path->Ok_0@ == asked@ && checked->Ok_0@ == asked@,
        checked is Err ==> checked->Err_0@ == "unknown value: '"@ + asked@ + "'."@,
{
}

/// An argument is accepted as it is exactly where the pattern of USB paths was
/// found in it.
pub proof fn arguments_are_accepted_where_the_pattern_is_found(
    asked: &str,
    found: bool,
    path: Result<String, USBDeviceError>,
)
    requires
        call_ensures(accept_arg, (asked, found), path),
    ensures
        found <==> path is Ok,
        found ==> path->Ok_0@ == asked@,
{
}

/// A dongle tells of its bridge what the enumeration told.
pub proof fn dongles_tell_of_their_bridge(
    d: USBDevice,
    vendor: u16,
    product: u16,
    product_string: Option<String>,
    info: &DeviceInfo,
)
    requires
        call_ensures(<USBDevice as USBDeviceAPI>::vendor, (&d,), vendor),
        call_ensures(<USBDevice as USBDeviceAPI>::product, (&d,), product),
        call_ensures(<USBDevice as USBDeviceAPI>::product_string, (&d,), product_string),
        call_ensures(<USBDevice as USBDeviceAPI>::device, (&d,), info),
    ensures
        vendor == d.device_info.vendor_id,
        product == d.device_info.product_id,
        product_string is Some <==> d.device_info.product_string is Some,
        product_string is Some ==> product_string->0@ == d.device_info.product_string->0@,
        *info == d.device_info,
{
}

/// A dongle that is found has the serial of a serial adapter that is reached
/// through every port that leads to its hub, or none at all.
pub proof fn found_serials_come_through_the_hub(
    all: Vec<DeviceInfo>,
    can: bool,
    found: Vec<USBDevice>,
    k: int,
)
    requires
        call_ensures(can_find_dongles, (&all,), can),
        can,
        call_ensures(find_dongles, (&all,), found),
        0 <= k < found@.len(),
        found@[k].serial@.len() > 0,
    ensures
        exists|i: int|
            #![trigger all@[i]]
            {
                let ports = found@[k].device_info.port_chain@;
                &&& 0 <= i < all@.len()
                &&& all@[i].vendor_id == 0x0403
                &&& all@[i].product_id == 0x6015
                &&& all@[i].serial_number is Some
                &&& all@[i].serial_number->0@ == found@[k].serial@
                &&& all@[i].port_chain@.len() >= ports.len() - 1
                &&& forall|j: int|
                    0 <= j < ports.len() - 1 ==> all@[i].port_chain@[j] == #[trigger] ports[j]
            },
{
    let views = discovery::info_views(all@);
    assert(discovery::device_views(found@)[k] == found@[k]@);
    let places = discovery::dongles_keep_the_order_of_the_bridges(views);
    assert(discovery::is_bridge(views[places[k]]));
    discovery::serial_comes_through_the_ports_of_the_bridge(views, k);
    let i = choose|i: int|
        #![trigger views[i]]
        {
            let ports = discovery::dongles(views)[k].device_info.port_chain;
            &&& 0 <= i < views.len()
            &&& views[i].vendor_id == 0x0403
            &&& views[i].product_id == 0x6015
            &&& views[i].serial_number == Some(discovery::dongles(views)[k].serial)
            &&& views[i].port_chain.len() >= ports.len() - 1
            &&& forall|j: int| 0 <= j < ports.len() - 1 ==> views[i].port_chain[j] == #[trigger] ports[j]
        };
    assert(views[i] == all@[i]@);
}

/// A dongle that is chosen by a serial is the only one whose serial holds it.
pub proof fn chosen_serial_is_the_only_one(
    devices: Vec<USBDevice>,
    serial: String,
    usbpath: Option<String>,
    chosen: Result<usize, DongleError>,
)
    requires
        call_ensures(select_device, (&devices, Some(serial), usbpath), chosen),
    ensures
        match chosen {
            Ok(i) => i < devices@.len() && forall|j: int|
                0 <= j < devices@.len() ==> (text::occurs_in(
                    serial@,
                    (#[trigger] devices@[j]).serial@,
                ) <==> j == i),
            Err(DongleError::NoDevicesFound) => devices@.len() == 0,
            Err(DongleError::NoMatchForSerial(asked)) => asked@ == serial@ && devices@.len() > 0
                && forall|j: int|
                0 <= j < devices@.len() ==> !text::occurs_in(
                    serial@,
                    (#[trigger] devices@[j]).serial@,
                ),
            Err(DongleError::SerialNotUnique(asked)) => asked@ == serial@ && exists|i: int, j: int|
                0 <= i < j < devices@.len() && text::occurs_in(
                    serial@,
                    (#[trigger] devices@[i]).serial@,
                ) && text::occurs_in(serial@, (#[trigger] devices@[j]).serial@),
            Err(_) => false,
        },
{
    let views = discovery::device_views(devices@);
    let path = crate::device::optional_text(usbpath);
    selection::serial_is_looked_for_in_serials(views, serial@, path);
    assert forall|j: int| 0 <= j < devices@.len() implies (text::occurs_in(
        serial@,
        (#[trigger] devices@[j]).serial@,
    ) <==> selection::in_serial(views, j, serial@)) by {
        assert(views[j] == devices@[j]@);
        selection::serial_hit_is_in_serial(views, j, serial@);
    }
    match chosen {
        Ok(i) => {
            assert(selection::selects(views, Some(serial@), path, Ok(i as int)));
        },
        Err(DongleError::SerialNotUnique(_)) => {
            let (i, j) = choose|i: int, j: int|
                0 <= i < j < views.len() && #[trigger] selection::in_serial(views, i, serial@)
                    && #[trigger] selection::in_serial(views, j, serial@);
            assert(text::occurs_in(serial@, devices@[i].serial@));
            assert(text::occurs_in(serial@, devices@[j].serial@));
        },
        _ => {},
    }
}

/// Two lists of dongles with the same serials in the same order give the same
/// choice for a serial, wherever the dongles are attached.
pub proof fn attachment_does_not_matter_for_serials(
    here: Vec<USBDevice>,
    there: Vec<USBDevice>,
    serial: String,
    path_here: Option<String>,
    path_there: Option<String>,
    chosen_here: Result<usize, DongleError>,
    chosen_there: Result<usize, DongleError>,
)
    requires
        here@.len() == there@.len(),
        forall|i: int|
            0 <= i < here@.len() ==> (#[trigger] here@[i]).serial@ == (
            #[trigger] there@[i]).serial@,
        call_ensures(select_device, (&here, Some(serial), path_here), chosen_here),
        call_ensures(select_device, (&there, Some(serial), path_there), chosen_there),
    ensures
        selection::choice_view(chosen_here) == selection::choice_view(chosen_there),
{
    let (a, b) = (discovery::device_views(here@), discovery::device_views(there@));
    assert forall|i: int| 0 <= i < a.len() implies #[trigger] a[i].serial
        == #[trigger] b[i].serial by {
        assert(here@[i].serial@ == there@[i].serial@);
    }
    let (p, q) = (
        crate::device::optional_text(path_here),
        crate::device::optional_text(path_there),
    );
    selection::serial_choice_depends_on_serials(
        a,
        b,
        serial@,
        p,
        q,
        selection::choice_view(chosen_here),
    );
    selection::choice_is_determined(
        b,
        Some(serial@),
        q,
        selection::choice_view(chosen_here),
        selection::choice_view(chosen_there),
    );
}

/// What is performed for a command is what is called for, in order, with a wait
/// after each number of seconds.
pub proof fn performed_actions_are_a_run(
    command: Commands,
    relay: bool,
    r: Readings,
    actions: Vec<Action>,
)
    requires
        call_ensures(script_actions, (command, relay, &r), actions),
    ensures
        conduct::is_run(actions@, command, relay, r),
{
    conduct::scripts_are_the_only_runs(command, relay, r, actions@);
}

/// The level of a header pin is printed as `High` or as `Low`, whichever it is.
pub proof fn printed_levels_are_the_levels(
    pin: HeaderPin,
    state: PinState,
    serial: &str,
    printed: String,
)
    requires
        call_ensures(Message::text, (&Message::PinLevel(pin, state), serial), printed),
    ensures
        wording::ends_in(printed@, "High"@) <==> state == PinState::High,
        wording::ends_in(printed@, "Low"@) <==> state == PinState::Low,
{
    wording::pin_level_ends_in_its_level(pin, state, serial@);
}

/// A command whose dongle could not be opened fails for that reason.
pub proof fn open_failures_fail(
    reason: &str,
    kind: OpenErrorKind,
    os_error: Option<u32>,
    host_has_udev: bool,
    start: Start,
)
    requires
        call_ensures(open_failure, (reason, kind, os_error, host_has_udev), start),
    ensures
        start.next == Next::Failed(DongleError::DeviceOpenFail),
        start.lines@.len() > 0,
        start.lines@[0]@ == "Failed to open device: "@ + reason@,
        start.lines@.len() > 1 <==> host_has_udev && (kind is PermissionDenied || os_error == Some(
            13u32,
        )),
{
    startup::open_failures_are_reported(reason@, kind, os_error, host_has_udev);
    assert(text::texts(start.lines@)[0] == start.lines@[0]@);
}

/// A command that is for a dongle starts with the choice of that dongle, made in
/// the same way whatever the command.
pub proof fn commands_start_with_the_choice(
    command: Commands,
    devices: Vec<USBDevice>,
    serial: Option<String>,
    usbpath: Option<String>,
    start: Start,
    chosen: Result<usize, DongleError>,
)
    requires
        !(command is List || command is Udev),
        call_ensures(start_command, (command, &devices, serial, usbpath), start),
        call_ensures(select_device, (&devices, serial, usbpath), chosen),
    ensures
        match chosen {
            Ok(i) => start.next == Next::Chosen(i) && start.lines@.len() == 0,
            Err(error) => (start.next matches Next::Failed(reason) && reason@ == error@)
                && start.lines@.len() > 0,
        },
{
    let views = discovery::device_views(devices@);
    let (s, p) = (
        crate::device::optional_text(serial),
        crate::device::optional_text(usbpath),
    );
    let lines = text::texts(start.lines@);
    match start.next {
        Next::Chosen(i) => {
            selection::choice_is_determined(
                views,
                s,
                p,
                Ok(i as int),
                selection::choice_view(chosen),
            );
        },
        Next::Failed(error) => {
            selection::choice_is_determined(
                views,
                s,
                p,
                Err(error@),
                selection::choice_view(chosen),
            );
            startup::failures_are_explained(command, views, s, p, lines, error);
        },
        Next::Finished => {},
    }
}

/// A number that is written in decimal is read back as that number.
pub proof fn decimal_numbers_read_back(n: i64, written: String)
    requires
        call_ensures(decimal_string, (n,), written),
    ensures
        text::integer_value(written@, 10) == Some(n as int),
{
    paths::decimal_reads_back(n as int);
}

/// Two numbers that are written in four hexadecimal digits are written alike
/// only where they are equal.
pub proof fn hexadecimal_numbers_are_told_apart(m: u16, n: u16, first: String, second: String)
    requires
        call_ensures(hex4_string, (m,), first),
        call_ensures(hex4_string, (n,), second),
    ensures
        first@ == second@ <==> m == n,
        first@.len() == 4,
{
    text::hex4_makes_up_the_number(m);
    text::hex4_makes_up_the_number(n);
}

/// A run on a dongle tells the serial of that dongle, and starts by reading
/// power.
pub proof fn runs_are_about_their_dongle(
    command: Commands,
    device: USBDevice,
    session: Session,
    serial: &str,
    action: Action,
)
    requires
        call_ensures(Session::new, (command, &device), session),
        call_ensures(Session::serial, (&session,), serial),
        call_ensures(Session::pending, (&session,), action),
    ensures
        serial@ == device.serial@,
        action == Action::ReadPower,
{
}

} // verus!
