//! Choosing the dongle that a command is for.

use vstd::prelude::*;

use crate::device;
use crate::device::{USBDevice, USBDeviceAPI, USBDeviceView};
use crate::discovery;
use crate::error::{DongleError, DongleErrorView};
use crate::paths;
use crate::text;
use crate::text::str_contains;

verus! {

/// Whether a dongle has a serial that holds `serial`.
pub open spec fn serial_hit(d: USBDeviceView, serial: Seq<char>) -> bool {
    text::occurs_in(serial, d.serial)
}

/// Whether a dongle has the USB path `path`.
pub open spec fn path_hit(d: USBDeviceView, path: Seq<char>) -> bool {
    device::path_of(d.device_info) == path
}

/// How many dongles have a serial that holds `serial`.
pub open spec fn serial_hits(devices: Seq<USBDeviceView>, serial: Seq<char>) -> nat {
    devices.filter(|d: USBDeviceView| serial_hit(d, serial)).len()
}

/// Whether `i` is the place of the first dongle of which `hit` holds.
pub open spec fn is_first(
    devices: Seq<USBDeviceView>,
    hit: spec_fn(USBDeviceView) -> bool,
    i: int,
) -> bool {
    &&& 0 <= i < devices.len()
    &&& hit(devices[i])
    &&& forall|j: int| 0 <= j < i ==> !hit(#[trigger] devices[j])
}

/// The dongle that is meant, by its place: the only one where none is asked
/// for, the only one whose serial holds the serial asked for, or the first one
/// with the USB path asked for. A serial goes before a path.
pub open spec fn selects(
    devices: Seq<USBDeviceView>,
    serial: Option<Seq<char>>,
    usbpath: Option<Seq<char>>,
    chosen: Result<int, DongleErrorView>,
) -> bool {
    if devices.len() == 0 {
        chosen == Err::<int, DongleErrorView>(DongleErrorView::NoDevicesFound)
    } else if let Some(serial) = serial {
        let hits = serial_hits(devices, serial);
        if hits == 0 {
            chosen == Err::<int, DongleErrorView>(DongleErrorView::NoMatchForSerial(serial))
        } else if hits == 1 {
            chosen is Ok && is_first(
                devices,
                |d: USBDeviceView| serial_hit(d, serial),
                chosen->Ok_0,
            )
        } else {
            chosen == Err::<int, DongleErrorView>(DongleErrorView::SerialNotUnique(serial))
        }
    } else if let Some(path) = usbpath {
        if exists|i: int| 0 <= i < devices.len() && path_hit(#[trigger] devices[i], path) {
            chosen is Ok && is_first(
                devices,
                |d: USBDeviceView| path_hit(d, path),
                chosen->Ok_0,
            )
        } else {
            chosen == Err::<int, DongleErrorView>(DongleErrorView::NoMatchForUSBTree(path))
        }
    } else if devices.len() == 1 {
        chosen == Ok::<int, DongleErrorView>(0)
    } else {
        chosen == Err::<int, DongleErrorView>(DongleErrorView::DeviceNotSpecified)
    }
}

/// A choice as mathematical values.
pub open spec fn choice_view(chosen: Result<usize, DongleError>) -> Result<int, DongleErrorView> {
    match chosen {
        Ok(i) => Ok(i as int),
        Err(error) => Err(error@),
    }
}

/// The first dongle whose serial holds `serial`, and how many there are.
fn find_serial(devices: &Vec<USBDevice>, serial: &str) -> (found: (usize, usize))
    ensures
        found.1 == serial_hits(discovery::device_views(devices@), serial@),
        found.1 > 0 ==> is_first(
            discovery::device_views(devices@),
            |d: USBDeviceView| serial_hit(d, serial@),
            found.0 as int,
        ),
{
    let ghost views = discovery::device_views(devices@);
    let ghost hit = |d: USBDeviceView| serial_hit(d, serial@);
    let mut first: usize = 0;
    let mut hits: usize = 0;
    let mut i: usize = 0;
    proof {
        reveal(Seq::filter);
    }
    while i < devices.len()
        invariant
            i <= devices@.len(),
            hits <= i,
            views == discovery::device_views(devices@),
            hit == (|d: USBDeviceView| serial_hit(d, serial@)),
            hits == views.take(i as int).filter(hit).len(),
            hits > 0 ==> is_first(views, hit, first as int) && first < i,
            hits == 0 ==> forall|j: int| 0 <= j < i ==> !hit(#[trigger] views[j]),
        decreases devices@.len() - i,
    {
        proof {
            reveal(Seq::filter);
            assert(views[i as int] == devices@[i as int]@);
            assert(views.take(i + 1).drop_last() == views.take(i as int));
            assert(views.take(i + 1).last() == views[i as int]);
        }
        if str_contains(devices[i].serial.as_str(), serial) {
            if hits == 0 {
                first = i;
            }
            hits = hits + 1;
        }
        i = i + 1;
    }
    assert(views.take(i as int) == views);
    (first, hits)
}

/// The first dongle with a USB path.
fn find_path(devices: &Vec<USBDevice>, path: &str) -> (found: Option<usize>)
    ensures
        match found {
            Some(i) => is_first(
                discovery::device_views(devices@),
                |d: USBDeviceView| path_hit(d, path@),
                i as int,
            ),
            None => forall|j: int|
                0 <= j < devices@.len() ==> !path_hit(
                    #[trigger] discovery::device_views(devices@)[j],
                    path@,
                ),
        },
{
    let ghost views = discovery::device_views(devices@);
    let mut i: usize = 0;
    while i < devices.len()
        invariant
            i <= devices@.len(),
            views == discovery::device_views(devices@),
            forall|j: int| 0 <= j < i ==> !path_hit(#[trigger] views[j], path@),
        decreases devices@.len() - i,
    {
        assert(views[i as int] == devices@[i as int]@);
        if devices[i].usbpath_match(path) {
            return Some(i);
        }
        i = i + 1;
    }
    None
}

/// The dongle that is meant, by its place in `devices`.
pub fn select_device(
    devices: &Vec<USBDevice>,
    serial: Option<String>,
    usbpath: Option<String>,
) -> (chosen: Result<usize, DongleError>)
    ensures
        selects(
            discovery::device_views(devices@),
            device::optional_text(serial),
            device::optional_text(usbpath),
            choice_view(chosen),
        ),
{
    if devices.len() == 0 {
        return Err(DongleError::NoDevicesFound);
    }
    match serial {
        Some(serial) => {
            let (first, hits) = find_serial(devices, serial.as_str());
            if hits == 0 {
                Err(DongleError::NoMatchForSerial(serial))
            } else if hits == 1 {
                Ok(first)
            } else {
                Err(DongleError::SerialNotUnique(serial))
            }
        },
        None => match usbpath {
            Some(path) => match find_path(devices, path.as_str()) {
                Some(i) => Ok(i),
                None => Err(DongleError::NoMatchForUSBTree(path)),
            },
            None => if devices.len() == 1 {
                Ok(0)
            } else {
                Err(DongleError::DeviceNotSpecified)
            },
        },
    }
}

/// Whether `i` is the place of the only dongle of which `hit` holds.
pub open spec fn is_only(
    devices: Seq<USBDeviceView>,
    hit: spec_fn(USBDeviceView) -> bool,
    i: int,
) -> bool {
    &&& 0 <= i < devices.len()
    &&& hit(devices[i])
    &&& forall|j: int| 0 <= j < devices.len() && j != i ==> !hit(#[trigger] devices[j])
}

/// Counting hits tells none, one and several apart.
proof fn hits_counted(devices: Seq<USBDeviceView>, hit: spec_fn(USBDeviceView) -> bool)
    ensures
        devices.filter(hit).len() == 0 <==> forall|j: int|
            0 <= j < devices.len() ==> !hit(#[trigger] devices[j]),
        devices.filter(hit).len() == 1 <==> exists|i: int| is_only(devices, hit, i),
    decreases devices.len(),
{
    reveal(Seq::filter);
    if devices.len() > 0 {
        let rest = devices.drop_last();
        let last = devices.len() - 1;
        hits_counted(rest, hit);
        assert(forall|j: int|
            #![trigger rest[j]]
            #![trigger devices[j]]
            0 <= j < last ==> rest[j] == devices[j]);
        if hit(devices.last()) {
            if devices.filter(hit).len() == 1 {
                assert(is_only(devices, hit, last));
            }
            if exists|i: int| is_only(devices, hit, i) {
                let i = choose|i: int| is_only(devices, hit, i);
                assert(i == last);
            }
        } else {
            if devices.filter(hit).len() == 1 {
                let i = choose|i: int| is_only(rest, hit, i);
                assert(is_only(devices, hit, i));
            }
            if exists|i: int| is_only(devices, hit, i) {
                let i = choose|i: int| is_only(devices, hit, i);
                assert(is_only(rest, hit, i));
            }
        }
    }
}

/// A serial, or a part of one, selects a dongle exactly where that dongle is the
/// only one whose serial holds it.
pub proof fn serial_selects_its_only_match(
    devices: Seq<USBDeviceView>,
    serial: Seq<char>,
    usbpath: Option<Seq<char>>,
    i: int,
)
    ensures
        selects(devices, Some(serial), usbpath, Ok(i)) <==> is_only(
            devices,
            |d: USBDeviceView| serial_hit(d, serial),
            i,
        ),
{
    let hit = |d: USBDeviceView| serial_hit(d, serial);
    hits_counted(devices, hit);
    if is_only(devices, hit, i) {
        assert(exists|k: int| is_only(devices, hit, k));
    }
    if serial_hits(devices, serial) == 1 {
        let k = choose|k: int| is_only(devices, hit, k);
        assert(is_only(devices, hit, k));
        assert(hit(devices[k]));
        if is_first(devices, hit, i) {
            assert(hit(devices[i]));
            assert(i == k);
        }
    }
}

/// There is one choice and no other.
pub proof fn choice_is_determined(
    devices: Seq<USBDeviceView>,
    serial: Option<Seq<char>>,
    usbpath: Option<Seq<char>>,
    a: Result<int, DongleErrorView>,
    b: Result<int, DongleErrorView>,
)
    requires
        selects(devices, serial, usbpath, a),
        selects(devices, serial, usbpath, b),
    ensures
        a == b,
{
    if a is Ok && b is Ok {
        let (i, j) = (a->Ok_0, b->Ok_0);
        if i < j {
            assert(devices[i] == devices[i]);
        }
    }
}

/// The USB path of a dongle, as it is listed, selects the first dongle with that
/// path: the dongle itself where no other before it has the same.
pub proof fn listed_path_selects(devices: Seq<USBDeviceView>, i: int)
    requires
        0 <= i < devices.len(),
    ensures
        ({
            let path = device::path_of(devices[i].device_info);
            &&& exists|j: int|
                0 <= j <= i && path_hit(devices[j], path) && #[trigger] selects(
                    devices,
                    None,
                    Some(path),
                    Ok(j),
                )
            &&& (forall|j: int| 0 <= j < i ==> !path_hit(#[trigger] devices[j], path))
                ==> selects(devices, None, Some(path), Ok(i))
        }),
{
    let path = device::path_of(devices[i].device_info);
    let hit = |d: USBDeviceView| path_hit(d, path);
    assert(path_hit(devices[i], path));
    let j = first_place(devices, hit, i);
    assert(is_first(devices, hit, j));
    assert(selects(devices, None, Some(path), Ok(j)));
}

/// The USB path of a dongle, as it is listed, selects that dongle, where no
/// other before it is on the same bus behind the same ports.
pub proof fn listed_path_selects_its_dongle(devices: Seq<USBDeviceView>, i: int)
    requires
        0 <= i < devices.len(),
        forall|j: int|
            0 <= j < i ==> device::sanitized(#[trigger] devices[j].device_info.bus_id)
                != device::sanitized(devices[i].device_info.bus_id)
                || devices[j].device_info.port_chain != devices[i].device_info.port_chain,
    ensures
        selects(devices, None, Some(device::path_of(devices[i].device_info)), Ok(i)),
{
    let path = device::path_of(devices[i].device_info);
    listed_path_selects(devices, i);
    assert forall|j: int| 0 <= j < i implies !path_hit(#[trigger] devices[j], path) by {
        paths::path_names_bus_and_ports(devices[j].device_info, devices[i].device_info);
    }
}

/// Where a hit is at `i`, there is a first one, and not after `i`.
proof fn first_place(
    devices: Seq<USBDeviceView>,
    hit: spec_fn(USBDeviceView) -> bool,
    i: int,
) -> (j: int)
    requires
        0 <= i < devices.len(),
        hit(devices[i]),
    ensures
        0 <= j <= i,
        is_first(devices, hit, j),
    decreases i,
{
    if forall|j: int| 0 <= j < i ==> !hit(#[trigger] devices[j]) {
        i
    } else {
        let j = choose|j: int| 0 <= j < i && hit(#[trigger] devices[j]);
        first_place(devices, hit, j)
    }
}

/// Whether a text is a run of consecutive characters of the serial of the dongle
/// at a place.
pub open spec fn in_serial(devices: Seq<USBDeviceView>, i: int, part: Seq<char>) -> bool {
    exists|k: int|
        0 <= k && k + part.len() <= devices[i].serial.len() && part
            == #[trigger] devices[i].serial.subrange(k, k + part.len())
}

/// The serial of a dongle holds a text exactly where the text is a run of its
/// consecutive characters.
pub proof fn serial_hit_is_in_serial(devices: Seq<USBDeviceView>, i: int, part: Seq<char>)
    ensures
        serial_hit(devices[i], part) <==> in_serial(devices, i, part),
{
    let whole = devices[i].serial;
    text::occurring_is_being_a_part(part, whole);
    if serial_hit(devices[i], part) {
        let (a, b) = choose|a: Seq<char>, b: Seq<char>| whole == #[trigger] (a + part + b);
        assert(part =~= whole.subrange(a.len() as int, (a.len() + part.len()) as int));
    }
    if in_serial(devices, i, part) {
        let k = choose|k: int|
            0 <= k && k + part.len() <= whole.len() && part == #[trigger] whole.subrange(
                k,
                k + part.len(),
            );
        assert(whole =~= whole.take(k) + part + whole.skip(k + part.len()));
    }
}

/// A serial that is asked for selects a dongle exactly where it is a run of
/// characters of that dongle's serial and of no other's. Where it is one of no
/// dongle's serial, it matches none; where it is one of the serials of two
/// dongles, it is not unique. There must be dongles at all. The USB paths of the
/// dongles, and a path that is asked for beside the serial, play no part.
pub proof fn serial_is_looked_for_in_serials(
    devices: Seq<USBDeviceView>,
    serial: Seq<char>,
    usbpath: Option<Seq<char>>,
)
    ensures
        forall|i: int|
            #[trigger] selects(devices, Some(serial), usbpath, Ok(i)) <==> {
                &&& 0 <= i < devices.len()
                &&& in_serial(devices, i, serial)
                &&& forall|j: int|
                    0 <= j < devices.len() && j != i ==> !#[trigger] in_serial(devices, j, serial)
            },
        selects(devices, Some(serial), usbpath, Err(DongleErrorView::NoMatchForSerial(serial)))
            <==> {
            &&& devices.len() > 0
            &&& forall|j: int|
                0 <= j < devices.len() ==> !#[trigger] in_serial(devices, j, serial)
        },
        selects(devices, Some(serial), usbpath, Err(DongleErrorView::SerialNotUnique(serial)))
            <==> exists|i: int, j: int|
            0 <= i < j < devices.len() && #[trigger] in_serial(devices, i, serial)
                && #[trigger] in_serial(devices, j, serial),
{
    let hit = |d: USBDeviceView| serial_hit(d, serial);
    assert forall|j: int| hit(#[trigger] devices[j]) <==> in_serial(devices, j, serial) by {
        serial_hit_is_in_serial(devices, j, serial);
    }
    assert forall|j: int| hit(devices[j]) <==> #[trigger] in_serial(devices, j, serial) by {
        serial_hit_is_in_serial(devices, j, serial);
    }
    hits_counted(devices, hit);
    assert forall|i: int| #[trigger] selects(devices, Some(serial), usbpath, Ok(i)) <==> {
        &&& 0 <= i < devices.len()
        &&& in_serial(devices, i, serial)
        &&& forall|j: int|
            0 <= j < devices.len() && j != i ==> !#[trigger] in_serial(devices, j, serial)
    } by {
        serial_selects_its_only_match(devices, serial, usbpath, i);
    }
    if exists|i: int, j: int|
        0 <= i < j < devices.len() && #[trigger] in_serial(devices, i, serial)
            && #[trigger] in_serial(devices, j, serial) {
        let (i, j) = choose|i: int, j: int|
            0 <= i < j < devices.len() && #[trigger] in_serial(devices, i, serial)
                && #[trigger] in_serial(devices, j, serial);
        assert(hit(devices[i]) && hit(devices[j]));
        if exists|k: int| is_only(devices, hit, k) {
            let k = choose|k: int| is_only(devices, hit, k);
            assert(i == k && j == k);
        }
    } else if devices.len() > 0 && serial_hits(devices, serial) > 1 {
        let i = choose|i: int| 0 <= i < devices.len() && hit(#[trigger] devices[i]);
        assert(in_serial(devices, i, serial));
        assert forall|j: int| 0 <= j < devices.len() && j != i implies !hit(
            #[trigger] devices[j],
        ) by {
            assert(in_serial(devices, j, serial) <==> hit(devices[j]));
        }
        assert(is_only(devices, hit, i));
    }
}

/// With a serial asked for, what is chosen depends on the serials of the dongles
/// and on nothing else: not on where they are attached, and not on a path that
/// is asked for as well.
pub proof fn serial_choice_depends_on_serials(
    a: Seq<USBDeviceView>,
    b: Seq<USBDeviceView>,
    serial: Seq<char>,
    path_a: Option<Seq<char>>,
    path_b: Option<Seq<char>>,
    chosen: Result<int, DongleErrorView>,
)
    requires
        a.len() == b.len(),
        forall|i: int| 0 <= i < a.len() ==> #[trigger] a[i].serial == #[trigger] b[i].serial,
        selects(a, Some(serial), path_a, chosen),
    ensures
        selects(b, Some(serial), path_b, chosen),
{
    serial_is_looked_for_in_serials(a, serial, path_a);
    serial_is_looked_for_in_serials(b, serial, path_b);
    assert forall|i: int| 0 <= i < a.len() implies #[trigger] in_serial(a, i, serial)
        == in_serial(b, i, serial) by {
        assert(a[i].serial == b[i].serial);
    }
    assert forall|i: int| 0 <= i < a.len() implies #[trigger] in_serial(b, i, serial)
        == in_serial(a, i, serial) by {
        assert(a[i].serial == b[i].serial);
    }
    if a.len() > 0 {
        match chosen {
            Ok(i) => {
                assert(selects(a, Some(serial), path_a, Ok(i)));
                assert(selects(b, Some(serial), path_b, Ok(i)));
            },
            Err(error) => {
                if error == DongleErrorView::SerialNotUnique(serial) {
                    let (i, j) = choose|i: int, j: int|
                        0 <= i < j < a.len() && #[trigger] in_serial(a, i, serial)
                            && #[trigger] in_serial(a, j, serial);
                    assert(in_serial(b, i, serial) && in_serial(b, j, serial));
                }
            },
        }
    }
}

/// A USB path that is asked for without a serial selects the first dongle with
/// exactly that path, or none where none has it. The serials of the dongles play
/// no part.
pub proof fn path_is_looked_for_in_paths(devices: Seq<USBDeviceView>, path: Seq<char>)
    ensures
        forall|i: int|
            #[trigger] selects(devices, None, Some(path), Ok(i)) <==> {
                &&& 0 <= i < devices.len()
                &&& device::path_of(devices[i].device_info) == path
                &&& forall|j: int|
                    0 <= j < i ==> device::path_of(#[trigger] devices[j].device_info) != path
            },
        selects(devices, None, Some(path), Err(DongleErrorView::NoMatchForUSBTree(path))) <==> {
            &&& devices.len() > 0
            &&& forall|j: int|
                0 <= j < devices.len() ==> device::path_of(#[trigger] devices[j].device_info)
                    != path
        },
{
    assert forall|i: int| #[trigger] selects(devices, None, Some(path), Ok(i)) <==> {
        &&& 0 <= i < devices.len()
        &&& device::path_of(devices[i].device_info) == path
        &&& forall|j: int|
            0 <= j < i ==> device::path_of(#[trigger] devices[j].device_info) != path
    } by {
        let hit = |d: USBDeviceView| path_hit(d, path);
        if 0 <= i < devices.len() && device::path_of(devices[i].device_info) == path {
            assert(path_hit(devices[i], path));
            assert forall|j: int| 0 <= j < i && (device::path_of(devices[j].device_info)
                != path) implies !hit(#[trigger] devices[j]) by {}
        }
        if is_first(devices, hit, i) {
            assert forall|j: int| 0 <= j < i implies device::path_of(
                #[trigger] devices[j].device_info,
            ) != path by {
                assert(!hit(devices[j]));
            }
        }
    }
    if forall|j: int|
        0 <= j < devices.len() ==> device::path_of(#[trigger] devices[j].device_info) != path {
        assert forall|j: int| 0 <= j < devices.len() implies !path_hit(
            #[trigger] devices[j],
            path,
        ) by {
            assert(device::path_of(devices[j].device_info) != path);
        }
    } else {
        let j = choose|j: int|
            0 <= j < devices.len() && device::path_of(#[trigger] devices[j].device_info) == path;
        assert(path_hit(devices[j], path));
    }
}

/// Where nothing is asked for, the dongle is chosen that is the only one, and
/// several must be told apart.
pub proof fn only_dongle_is_chosen(devices: Seq<USBDeviceView>)
    ensures
        forall|i: int|
            #[trigger] selects(devices, None, None, Ok(i)) <==> devices.len() == 1 && i == 0,
        selects(devices, None, None, Err(DongleErrorView::DeviceNotSpecified)) <==> devices.len()
            > 1,
{
}

/// No dongle can be chosen where there is none, and that is said whatever was
/// asked for, and only there.
pub proof fn nothing_to_choose_from(
    devices: Seq<USBDeviceView>,
    serial: Option<Seq<char>>,
    usbpath: Option<Seq<char>>,
)
    ensures
        selects(devices, serial, usbpath, Err(DongleErrorView::NoDevicesFound)) <==> devices.len()
            == 0,
{
}

/// A choice is read as the place or the error that it holds.
pub proof fn choices_are_read_as_they_are(chosen: Result<usize, DongleError>)
    ensures
        chosen is Ok <==> choice_view(chosen) is Ok,
        chosen is Ok ==> choice_view(chosen) == Ok::<int, DongleErrorView>(chosen->Ok_0 as int),
        chosen is Err ==> choice_view(chosen) == Err::<int, DongleErrorView>(chosen->Err_0@),
{
}

} // verus!
