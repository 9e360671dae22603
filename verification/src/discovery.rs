//! Finding the dongles among all USB devices.
//!
//! A dongle is a hub with a bridge and a serial adapter behind it. The bridge
//! stands for the dongle; the other two are found by the ports they share with
//! it.

use vstd::prelude::*;

use crate::device::{
    DeviceInfo, DeviceInfoView, USBDevice, USBDeviceView, PRODUCT_BRIDGE_DEV, PRODUCT_FT234,
    PRODUCT_USB4604_HUB, VENDOR_FTDI, VENDOR_SMSC,
};

verus! {

/// The views of a list of devices.
pub open spec fn info_views(all: Seq<DeviceInfo>) -> Seq<DeviceInfoView> {
    all.map_values(|d: DeviceInfo| d@)
}

/// The views of a list of dongles.
pub open spec fn device_views(dongles: Seq<USBDevice>) -> Seq<USBDeviceView> {
    dongles.map_values(|d: USBDevice| d@)
}

/// Whether a device is the bridge of a dongle.
pub open spec fn is_bridge(d: DeviceInfoView) -> bool {
    d.vendor_id == VENDOR_SMSC && d.product_id == PRODUCT_BRIDGE_DEV
}

/// Whether a device is of a kind and reached through the ports of a hub, or is
/// the hub.
pub open spec fn is_on_hub(d: DeviceInfoView, hub: Seq<u8>, vendor: u16, product: u16) -> bool {
    hub.is_prefix_of(d.port_chain) && d.vendor_id == vendor && d.product_id == product
}

/// The first device of a kind on a hub.
pub open spec fn first_on_hub(
    all: Seq<DeviceInfoView>,
    hub: Seq<u8>,
    vendor: u16,
    product: u16,
) -> Option<DeviceInfoView>
    decreases all.len(),
{
    if all.len() == 0 {
        None
    } else if is_on_hub(all[0], hub, vendor, product) {
        Some(all[0])
    } else {
        first_on_hub(all.drop_first(), hub, vendor, product)
    }
}

/// A text that may be absent, and then is empty.
pub open spec fn text_or_empty(s: Option<Seq<char>>) -> Seq<char> {
    match s {
        Some(s) => s,
        None => Seq::empty(),
    }
}

/// The dongle of a bridge. Its hub has the ports of the bridge but the last.
/// Its serial is that of the first serial adapter on the hub, its product
/// string that of the first hub there; either is empty where the device or its
/// string is missing.
pub open spec fn dongle_of(all: Seq<DeviceInfoView>, bridge: DeviceInfoView) -> USBDeviceView {
    let hub = bridge.port_chain.drop_last();
    USBDeviceView {
        device_info: bridge,
        serial: match first_on_hub(all, hub, VENDOR_FTDI, PRODUCT_FT234) {
            Some(adapter) => text_or_empty(adapter.serial_number),
            None => Seq::empty(),
        },
        product_string: match first_on_hub(all, hub, VENDOR_SMSC, PRODUCT_USB4604_HUB) {
            Some(hub) => text_or_empty(hub.product_string),
            None => Seq::empty(),
        },
    }
}

/// The dongles among all devices, one for each bridge, in the same order.
pub open spec fn dongles(all: Seq<DeviceInfoView>) -> Seq<USBDeviceView> {
    all.filter(|d: DeviceInfoView| is_bridge(d)).map_values(
        |d: DeviceInfoView| dongle_of(all, d),
    )
}

/// Whether every bridge has a port. A bridge that is no part of a hub cannot be
/// given a dongle.
pub open spec fn bridges_have_ports(all: Seq<DeviceInfoView>) -> bool {
    forall|i: int|
        0 <= i < all.len() && is_bridge(#[trigger] all[i]) ==> all[i].port_chain.len() > 0
}

/// Whether every bridge has a port, so that [`find_dongles`] can be asked.
pub fn can_find_dongles(all: &Vec<DeviceInfo>) -> (can: bool)
    ensures
        can == bridges_have_ports(info_views(all@)),
{
    let ghost views = info_views(all@);
    let mut i: usize = 0;
    while i < all.len()
        invariant
            i <= all@.len(),
            views == info_views(all@),
            forall|j: int| 0 <= j < i && is_bridge(#[trigger] views[j]) ==> views[j].port_chain.len() > 0,
        decreases all@.len() - i,
    {
        let d = &all[i];
        assert(views[i as int] == d@);
        if d.vendor_id == VENDOR_SMSC && d.product_id == PRODUCT_BRIDGE_DEV && d.port_chain.len()
            == 0 {
            return false;
        }
        i = i + 1;
    }
    true
}

/// Whether a chain of ports begins with the first `len` ports of `ports`.
fn begins_with(chain: &Vec<u8>, ports: &Vec<u8>, len: usize) -> (begins: bool)
    requires
        len <= ports@.len(),
    ensures
        begins == ports@.take(len as int).is_prefix_of(chain@),
{
    if chain.len() < len {
        return false;
    }
    let mut i: usize = 0;
    while i < len
        invariant
            i <= len <= ports@.len(),
            len <= chain@.len(),
            forall|j: int| 0 <= j < i ==> ports@[j] == chain@[j],
        decreases len - i,
    {
        if chain[i] != ports[i] {
            assert(ports@.take(len as int)[i as int] != chain@.subrange(0, len as int)[i as int]);
            return false;
        }
        i = i + 1;
    }
    assert(ports@.take(len as int) =~= chain@.subrange(0, len as int));
    true
}

/// The place of the first device of a kind on the hub of a bridge.
fn find_on_hub(all: &Vec<DeviceInfo>, bridge: &DeviceInfo, vendor: u16, product: u16) -> (found:
    Option<usize>)
    requires
        bridge@.port_chain.len() > 0,
    ensures
        match found {
            Some(i) => i < all@.len() && Some(all@[i as int]@) == first_on_hub(
                info_views(all@),
                bridge@.port_chain.drop_last(),
                vendor,
                product,
            ),
            None => first_on_hub(
                info_views(all@),
                bridge@.port_chain.drop_last(),
                vendor,
                product,
            ) is None,
        },
{
    let ghost views = info_views(all@);
    let ghost hub = bridge@.port_chain.drop_last();
    let len: usize = bridge.port_chain.len() - 1;
    let mut i: usize = 0;
    assert(views.skip(0) == views);
    while i < all.len()
        invariant
            i <= all@.len(),
            views == info_views(all@),
            len == bridge.port_chain@.len() - 1,
            hub == bridge.port_chain@.drop_last(),
            first_on_hub(views, hub, vendor, product) == first_on_hub(
                views.skip(i as int),
                hub,
                vendor,
                product,
            ),
        decreases all@.len() - i,
    {
        let d = &all[i];
        assert(hub == bridge.port_chain@.take(len as int));
        assert(views.skip(i as int)[0] == d@);
        if begins_with(&d.port_chain, &bridge.port_chain, len) && d.vendor_id == vendor
            && d.product_id == product {
            return Some(i);
        }
        assert(views.skip(i as int).drop_first() == views.skip(i + 1));
        i = i + 1;
    }
    None
}

/// The string of a device, or an empty one.
fn string_or_empty(s: &Option<String>) -> (text: String)
    ensures
        text@ == text_or_empty(crate::device::optional_text(*s)),
{
    match s {
        Some(s) => s.clone(),
        None => String::new(),
    }
}

/// The dongle of a bridge.
fn build_dongle(all: &Vec<DeviceInfo>, bridge: &DeviceInfo) -> (dongle: USBDevice)
    requires
        bridge@.port_chain.len() > 0,
    ensures
        dongle@ == dongle_of(info_views(all@), bridge@),
{
    let serial = match find_on_hub(all, bridge, VENDOR_FTDI, PRODUCT_FT234) {
        Some(i) => string_or_empty(&all[i].serial_number),
        None => String::new(),
    };
    let product_string = match find_on_hub(all, bridge, VENDOR_SMSC, PRODUCT_USB4604_HUB) {
        Some(i) => string_or_empty(&all[i].product_string),
        None => String::new(),
    };
    USBDevice { device_info: bridge.clone(), serial, product_string }
}

/// The dongles among all devices, one for each bridge, in the same order.
pub fn find_dongles(all: &Vec<DeviceInfo>) -> (found: Vec<USBDevice>)
    requires
        bridges_have_ports(info_views(all@)),
    ensures
        device_views(found@) == dongles(info_views(all@)),
{
    let ghost views = info_views(all@);
    let ghost bridge = |d: DeviceInfoView| is_bridge(d);
    let ghost to_dongle = |d: DeviceInfoView| dongle_of(views, d);
    let mut found: Vec<USBDevice> = Vec::new();
    let mut i: usize = 0;
    proof {
        reveal(Seq::filter);
    }
    assert(device_views(found@) == views.take(0).filter(bridge).map_values(to_dongle));
    while i < all.len()
        invariant
            i <= all@.len(),
            views == info_views(all@),
            bridges_have_ports(views),
            bridge == (|d: DeviceInfoView| is_bridge(d)),
            to_dongle == (|d: DeviceInfoView| dongle_of(views, d)),
            device_views(found@) == views.take(i as int).filter(bridge).map_values(to_dongle),
        decreases all@.len() - i,
    {
        let d = &all[i];
        let ghost before = found@;
        assert(d@ == views[i as int]);
        proof {
            reveal(Seq::filter);
            assert(views.take(i + 1).drop_last() == views.take(i as int));
            assert(views.take(i + 1).last() == d@);
        }
        if d.vendor_id == VENDOR_SMSC && d.product_id == PRODUCT_BRIDGE_DEV {
            let dongle = build_dongle(all, d);
            found.push(dongle);
            assert(device_views(found@) == device_views(before).push(dongle@));
        }
        i = i + 1;
    }
    assert(views.take(i as int) == views);
    found
}

/// The first device of a kind on a hub is among all devices, of that kind and on
/// that hub, with no other such before it; there is none exactly where no
/// device is such.
pub proof fn first_on_hub_is_first(
    all: Seq<DeviceInfoView>,
    hub: Seq<u8>,
    vendor: u16,
    product: u16,
)
    ensures
        match first_on_hub(all, hub, vendor, product) {
            Some(d) => exists|i: int|
                #![trigger all[i]]
                0 <= i < all.len() && all[i] == d && is_on_hub(d, hub, vendor, product)
                    && forall|j: int|
                    0 <= j < i ==> !is_on_hub(#[trigger] all[j], hub, vendor, product),
            None => forall|j: int|
                0 <= j < all.len() ==> !is_on_hub(#[trigger] all[j], hub, vendor, product),
        },
    decreases all.len(),
{
    if all.len() > 0 && !is_on_hub(all[0], hub, vendor, product) {
        let rest = all.drop_first();
        first_on_hub_is_first(rest, hub, vendor, product);
        assert(forall|j: int| 0 < j < all.len() ==> #[trigger] all[j] == rest[j - 1]);
        if let Some(d) = first_on_hub(all, hub, vendor, product) {
            let i = choose|i: int|
                #![trigger rest[i]]
                0 <= i < rest.len() && rest[i] == d && is_on_hub(d, hub, vendor, product)
                    && forall|j: int|
                    0 <= j < i ==> !is_on_hub(#[trigger] rest[j], hub, vendor, product);
            assert(all[i + 1] == d);
        }
    } else if all.len() > 0 {
        assert(all[0] == first_on_hub(all, hub, vendor, product).unwrap());
    }
}

/// Every dongle is a bridge among the devices, and every bridge among the
/// devices is a dongle.
pub proof fn dongles_are_the_bridges(all: Seq<DeviceInfoView>)
    ensures
        forall|k: int|
            0 <= k < dongles(all).len() ==> is_bridge(#[trigger] dongles(all)[k].device_info)
                && all.contains(dongles(all)[k].device_info) && dongles(all)[k] == dongle_of(
                all,
                dongles(all)[k].device_info,
            ),
        forall|i: int|
            0 <= i < all.len() && is_bridge(#[trigger] all[i]) ==> dongles(all).contains(
                dongle_of(all, all[i]),
            ),
{
    let bridge = |d: DeviceInfoView| is_bridge(d);
    let bridges = all.filter(bridge);
    broadcast use vstd::seq_lib::group_filter_ensures;
    assert forall|k: int| 0 <= k < dongles(all).len() implies is_bridge(
        #[trigger] dongles(all)[k].device_info,
    ) && all.contains(dongles(all)[k].device_info) && dongles(all)[k] == dongle_of(
        all,
        dongles(all)[k].device_info,
    ) by {
        assert(dongles(all)[k].device_info == bridges[k]);
        assert(bridges.contains(bridges[k]));
        all.lemma_filter_contains_rev(bridge, bridges[k]);
    }
    assert forall|i: int| 0 <= i < all.len() && is_bridge(#[trigger] all[i]) implies dongles(
        all,
    ).contains(dongle_of(all, all[i])) by {
        assert(bridges.contains(all[i]));
        let k = choose|k: int| 0 <= k < bridges.len() && bridges[k] == all[i];
        assert(dongles(all)[k] == dongle_of(all, all[i]));
    }
}

/// Whether chain `a` starts with every port of chain `b` but the last.
pub open spec fn shares_ports(a: Seq<u8>, b: Seq<u8>) -> bool {
    a.len() >= b.len() - 1 && forall|j: int| 0 <= j < b.len() - 1 ==> #[trigger] a[j] == b[j]
}

/// Being on the hub of a bridge, port by port.
proof fn on_hub_port_by_port(d: DeviceInfoView, chain: Seq<u8>, vendor: u16, product: u16)
    requires
        chain.len() > 0,
    ensures
        is_on_hub(d, chain.drop_last(), vendor, product) <==> shares_ports(d.port_chain, chain)
            && d.vendor_id == vendor && d.product_id == product,
{
    let hub = chain.drop_last();
    let n = hub.len() as int;
    if hub.is_prefix_of(d.port_chain) {
        assert forall|j: int| 0 <= j < chain.len() - 1 implies #[trigger] d.port_chain[j]
            == chain[j] by {
            assert(hub[j] == d.port_chain.subrange(0, n)[j]);
        }
    }
    if shares_ports(d.port_chain, chain) {
        assert(hub =~= d.port_chain.subrange(0, n));
    }
}

/// The serial of a dongle is that of the first FT234 of FTDI whose port chain
/// starts with every port of the bridge but the last. It is empty where that
/// device names no serial, and where there is no such device.
pub proof fn serial_is_of_the_own_adapter(all: Seq<DeviceInfoView>, k: int)
    requires
        0 <= k < dongles(all).len(),
        dongles(all)[k].device_info.port_chain.len() > 0,
    ensures
        ({
            let dongle = dongles(all)[k];
            let adapter = |i: int|
                shares_ports(all[i].port_chain, dongle.device_info.port_chain)
                    && all[i].vendor_id == 0x0403 && all[i].product_id == 0x6015;
            ||| exists|i: int|
                #![trigger all[i]]
                0 <= i < all.len() && adapter(i) && (forall|j: int|
                    #![trigger all[j]]
                    0 <= j < i ==> !adapter(j)) && match all[i].serial_number {
                    Some(serial) => dongle.serial == serial,
                    None => dongle.serial.len() == 0,
                }
            ||| dongle.serial.len() == 0 && forall|i: int|
                #![trigger all[i]]
                0 <= i < all.len() ==> !adapter(i)
        }),
{
    dongles_are_the_bridges(all);
    let bridge = dongles(all)[k].device_info;
    let hub = bridge.port_chain.drop_last();
    assert(dongles(all)[k] == dongle_of(all, bridge));
    first_on_hub_is_first(all, hub, VENDOR_FTDI, PRODUCT_FT234);
    assert forall|i: int| #![trigger all[i]] 0 <= i < all.len() implies (is_on_hub(
        all[i],
        hub,
        VENDOR_FTDI,
        PRODUCT_FT234,
    ) <==> shares_ports(all[i].port_chain, bridge.port_chain) && all[i].vendor_id == 0x0403
        && all[i].product_id == 0x6015) by {
        on_hub_port_by_port(all[i], bridge.port_chain, VENDOR_FTDI, PRODUCT_FT234);
    }
    if let Some(a) = first_on_hub(all, hub, VENDOR_FTDI, PRODUCT_FT234) {
        let i = choose|i: int|
            #![trigger all[i]]
            0 <= i < all.len() && all[i] == a && is_on_hub(a, hub, VENDOR_FTDI, PRODUCT_FT234)
                && forall|j: int|
                0 <= j < i ==> !is_on_hub(#[trigger] all[j], hub, VENDOR_FTDI, PRODUCT_FT234);
        assert(all[i].serial_number == a.serial_number);
    }
}

/// The product string of a dongle is that of the first USB4604 hub of SMSC whose
/// port chain starts with every port of the bridge but the last. It is empty
/// where that device names none, and where there is no such device.
pub proof fn product_string_is_of_the_own_hub(all: Seq<DeviceInfoView>, k: int)
    requires
        0 <= k < dongles(all).len(),
        dongles(all)[k].device_info.port_chain.len() > 0,
    ensures
        ({
            let dongle = dongles(all)[k];
            let hub = |i: int|
                shares_ports(all[i].port_chain, dongle.device_info.port_chain)
                    && all[i].vendor_id == 0x0424 && all[i].product_id == 0x4502;
            ||| exists|i: int|
                #![trigger all[i]]
                0 <= i < all.len() && hub(i) && (forall|j: int|
                    #![trigger all[j]]
                    0 <= j < i ==> !hub(j)) && match all[i].product_string {
                    Some(product) => dongle.product_string == product,
                    None => dongle.product_string.len() == 0,
                }
            ||| dongle.product_string.len() == 0 && forall|i: int|
                #![trigger all[i]]
                0 <= i < all.len() ==> !hub(i)
        }),
{
    dongles_are_the_bridges(all);
    let bridge = dongles(all)[k].device_info;
    let hub = bridge.port_chain.drop_last();
    assert(dongles(all)[k] == dongle_of(all, bridge));
    first_on_hub_is_first(all, hub, VENDOR_SMSC, PRODUCT_USB4604_HUB);
    assert forall|i: int| #![trigger all[i]] 0 <= i < all.len() implies (is_on_hub(
        all[i],
        hub,
        VENDOR_SMSC,
        PRODUCT_USB4604_HUB,
    ) <==> shares_ports(all[i].port_chain, bridge.port_chain) && all[i].vendor_id == 0x0424
        && all[i].product_id == 0x4502) by {
        on_hub_port_by_port(all[i], bridge.port_chain, VENDOR_SMSC, PRODUCT_USB4604_HUB);
    }
    if let Some(h) = first_on_hub(all, hub, VENDOR_SMSC, PRODUCT_USB4604_HUB) {
        let i = choose|i: int|
            #![trigger all[i]]
            0 <= i < all.len() && all[i] == h && is_on_hub(
                h,
                hub,
                VENDOR_SMSC,
                PRODUCT_USB4604_HUB,
            ) && forall|j: int|
                0 <= j < i ==> !is_on_hub(
                    #[trigger] all[j],
                    hub,
                    VENDOR_SMSC,
                    PRODUCT_USB4604_HUB,
                );
        assert(all[i].product_string == h.product_string);
    }
}

/// A dongle with a serial has it from an adapter that is reached through every
/// port of the bridge's chain except the last.
pub proof fn serial_comes_through_the_ports_of_the_bridge(all: Seq<DeviceInfoView>, k: int)
    requires
        0 <= k < dongles(all).len(),
        dongles(all)[k].device_info.port_chain.len() > 0,
        dongles(all)[k].serial.len() > 0,
    ensures
        exists|i: int|
            #![trigger all[i]]
            {
                let ports = dongles(all)[k].device_info.port_chain;
                &&& 0 <= i < all.len()
                &&& all[i].vendor_id == 0x0403
                &&& all[i].product_id == 0x6015
                &&& all[i].serial_number == Some(dongles(all)[k].serial)
                &&& all[i].port_chain.len() >= ports.len() - 1
                &&& forall|j: int|
                    0 <= j < ports.len() - 1 ==> #[trigger] all[i].port_chain[j] == ports[j]
            },
{
    serial_is_of_the_own_adapter(all, k);
}

/// A dongle with a product string has it from a hub that is reached through
/// every port of the bridge's chain except the last.
pub proof fn product_string_comes_through_the_ports_of_the_bridge(
    all: Seq<DeviceInfoView>,
    k: int,
)
    requires
        0 <= k < dongles(all).len(),
        dongles(all)[k].device_info.port_chain.len() > 0,
        dongles(all)[k].product_string.len() > 0,
    ensures
        exists|i: int|
            #![trigger all[i]]
            {
                let ports = dongles(all)[k].device_info.port_chain;
                &&& 0 <= i < all.len()
                &&& all[i].vendor_id == 0x0424
                &&& all[i].product_id == 0x4502
                &&& all[i].product_string == Some(dongles(all)[k].product_string)
                &&& all[i].port_chain.len() >= ports.len() - 1
                &&& forall|j: int|
                    0 <= j < ports.len() - 1 ==> #[trigger] all[i].port_chain[j] == ports[j]
            },
{
    product_string_is_of_the_own_hub(all, k);
}

/// Whether `places` are the places, in order, at which `all` holds a bridge of
/// SMSC.
pub open spec fn are_bridge_places(all: Seq<DeviceInfoView>, places: Seq<int>) -> bool {
    &&& forall|k: int|
        0 <= k < places.len() ==> 0 <= #[trigger] places[k] < all.len()
            && all[places[k]].vendor_id == 0x0424 && all[places[k]].product_id == 0x2530
    &&& forall|k: int, l: int|
        0 <= k < l < places.len() ==> #[trigger] places[k] < #[trigger] places[l]
    &&& forall|i: int|
        #![trigger all[i]]
        0 <= i < all.len() && all[i].vendor_id == 0x0424 && all[i].product_id == 0x2530
            ==> places.contains(i)
}

/// There is one dongle for each bridge among the devices, in the order of the
/// devices, and it holds what the enumeration tells of that bridge.
pub proof fn dongles_keep_the_order_of_the_bridges(all: Seq<DeviceInfoView>) -> (places: Seq<int>)
    ensures
        are_bridge_places(all, places),
        dongles(all).len() == places.len(),
        forall|k: int|
            0 <= k < places.len() ==> #[trigger] dongles(all)[k].device_info == all[places[k]],
{
    let bridge = |d: DeviceInfoView| is_bridge(d);
    let places = bridge_places(all, bridge);
    assert forall|k: int| 0 <= k < places.len() implies #[trigger] dongles(all)[k].device_info
        == all[places[k]] by {
        assert(all.filter(bridge)[k] == all[places[k]]);
    }
    places
}

/// The places of the bridges, found from the front.
proof fn bridge_places(
    all: Seq<DeviceInfoView>,
    bridge: spec_fn(DeviceInfoView) -> bool,
) -> (places: Seq<int>)
    requires
        bridge == (|d: DeviceInfoView| is_bridge(d)),
    ensures
        are_bridge_places(all, places),
        all.filter(bridge).len() == places.len(),
        forall|k: int|
            0 <= k < places.len() ==> #[trigger] all.filter(bridge)[k] == all[places[k]],
    decreases all.len(),
{
    reveal(Seq::filter);
    if all.len() == 0 {
        Seq::empty()
    } else {
        let rest = all.drop_last();
        let last = all.len() - 1;
        let before = bridge_places(rest, bridge);
        assert(forall|i: int| #![trigger all[i]] 0 <= i < last ==> all[i] == rest[i]);
        if is_bridge(all.last()) {
            let places = before.push(last);
            assert forall|i: int|
                #![trigger all[i]]
                0 <= i < all.len() && all[i].vendor_id == 0x0424 && all[i].product_id
                    == 0x2530 implies places.contains(i) by {
                if i < last {
                    assert(rest[i].vendor_id == 0x0424);
                    let k = choose|k: int| 0 <= k < before.len() && before[k] == i;
                    assert(places[k] == i);
                } else {
                    assert(places[before.len() as int] == i);
                }
            }
            places
        } else {
            assert forall|i: int|
                #![trigger all[i]]
                0 <= i < all.len() && all[i].vendor_id == 0x0424 && all[i].product_id
                    == 0x2530 implies before.contains(i) by {
                assert(rest[i].vendor_id == 0x0424);
            }
            before
        }
    }
}

/// Dongles can be found exactly where every bridge of SMSC has a port.
pub proof fn dongles_can_be_found_behind_ports(all: Seq<DeviceInfoView>)
    ensures
        bridges_have_ports(all) <==> forall|i: int|
            #![trigger all[i]]
            0 <= i < all.len() && all[i].vendor_id == 0x0424 && all[i].product_id == 0x2530
                ==> all[i].port_chain.len() > 0,
{
}

/// The lists that contracts speak of hold the devices, each at its place.
pub proof fn lists_are_shown_in_order(all: Seq<DeviceInfo>, found: Seq<USBDevice>)
    ensures
        info_views(all).len() == all.len(),
        forall|i: int| 0 <= i < all.len() ==> #[trigger] info_views(all)[i] == all[i]@,
        device_views(found).len() == found.len(),
        forall|i: int| 0 <= i < found.len() ==> #[trigger] device_views(found)[i] == found[i]@,
{
}

} // verus!
