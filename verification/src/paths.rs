//! Properties of USB paths: what is printed can be typed in again.

use vstd::prelude::*;

use crate::device;
use crate::device::{DeviceInfo, DeviceInfoView, USBDevice, USBDeviceAPI};
use crate::pattern;
use crate::text;

verus! {

/// Decimal digits are digits, at least one, and stand for the number.
pub proof fn digits_stand_for_the_number(n: nat)
    ensures
        text::digits(n).len() > 0,
        forall|i: int| 0 <= i < text::digits(n).len() ==> '0' <= #[trigger] text::digits(n)[i] <= '9',
        text::all_digits(text::digits(n), 10),
        text::magnitude(text::digits(n), 10) == n,
    decreases n,
{
    let d = text::digits(n);
    if n >= 10 {
        digits_stand_for_the_number(n / 10);
        assert(d.drop_last() == text::digits(n / 10));
        assert(d.last() == text::digit_char((n % 10) as int));
    } else {
        reveal_with_fuel(text::magnitude, 2);
        assert(d.drop_last() == Seq::<char>::empty());
    }
}

/// A number in decimal reads as that number.
pub proof fn decimal_reads_back(v: int)
    ensures
        text::integer_value(text::decimal(v), 10) == Some(v),
{
    if v < 0 {
        digits_stand_for_the_number((-v) as nat);
        assert(text::decimal(v).skip(1) == text::digits((-v) as nat));
    } else {
        digits_stand_for_the_number(v as nat);
    }
}

/// A bus id that is a hexadecimal number is shown as the same number in
/// decimal. Two such bus ids are shown alike exactly where the numbers are
/// equal.
pub proof fn bus_keeps_its_number(a: Seq<char>, b: Seq<char>)
    requires
        text::i64_value(a, 16) is Some,
        text::i64_value(b, 16) is Some,
    ensures
        text::integer_value(device::sanitized(a), 10) == text::integer_value(a, 16),
        device::sanitized(a) == device::sanitized(b) <==> text::integer_value(a, 16)
            == text::integer_value(b, 16),
{
    decimal_reads_back(text::i64_value(a, 16).unwrap() as int);
    decimal_reads_back(text::i64_value(b, 16).unwrap() as int);
}

/// Any other bus id is shown as it is.
pub proof fn other_bus_is_kept(bus_id: Seq<char>)
    requires
        text::i64_value(bus_id, 16) is None,
    ensures
        device::sanitized(bus_id) == bus_id,
{
}

/// The ports of a chain are shown as digits and commas, those of the first port
/// first.
proof fn ports_are_digits(chain: Seq<u8>)
    ensures
        forall|i: int|
            0 <= i < device::port_text(chain).len() ==> {
                let c = #[trigger] device::port_text(chain)[i];
                '0' <= c <= '9' || c == ','
            },
        chain.len() == 0 <==> device::port_text(chain).len() == 0,
        chain.len() > 0 ==> device::port_text(chain)[0] == text::digits(chain[0] as nat)[0],
    decreases chain.len(),
{
    reveal_strlit(",");
    if chain.len() > 0 {
        ports_are_digits(chain.drop_last());
        digits_stand_for_the_number(chain.last() as nat);
    }
}

/// Equal decimal digits stand for equal numbers.
proof fn digits_are_distinct(m: nat, n: nat)
    requires
        text::digits(m) == text::digits(n),
    ensures
        m == n,
{
    digits_stand_for_the_number(m);
    digits_stand_for_the_number(n);
}

/// Where a sequence ends in a separator and a part without one, the separator
/// tells where the part begins.
proof fn last_part_is_determined(
    a: Seq<char>,
    x: Seq<char>,
    b: Seq<char>,
    y: Seq<char>,
    separator: char,
)
    requires
        a + seq![separator] + x == b + seq![separator] + y,
        forall|i: int| 0 <= i < x.len() ==> #[trigger] x[i] != separator,
        forall|i: int| 0 <= i < y.len() ==> #[trigger] y[i] != separator,
    ensures
        a == b,
        x == y,
{
    let s = a + seq![separator] + x;
    let t = b + seq![separator] + y;
    assert(s.len() == a.len() + 1 + x.len() && t.len() == b.len() + 1 + y.len());
    if a.len() < b.len() {
        let i = b.len() as int;
        assert(t[i] == separator);
        assert(s[i] == x[i - a.len() - 1]);
    } else if b.len() < a.len() {
        let i = a.len() as int;
        assert(s[i] == separator);
        assert(t[i] == y[i - b.len() - 1]);
    }
    assert(s.take(a.len() as int) =~= a);
    assert(t.take(b.len() as int) =~= b);
    assert(s.skip(a.len() as int + 1) =~= x);
    assert(t.skip(b.len() as int + 1) =~= y);
}

/// Different chains of ports are shown differently.
pub proof fn ports_are_distinct(a: Seq<u8>, b: Seq<u8>)
    requires
        device::port_text(a) == device::port_text(b),
    ensures
        a == b,
    decreases a.len(),
{
    reveal_strlit(",");
    ports_are_digits(a);
    ports_are_digits(b);
    if a.len() > 0 {
        let (m, n) = (a.last() as nat, b.last() as nat);
        let (x, y) = (text::digits(m), text::digits(n));
        digits_stand_for_the_number(m);
        digits_stand_for_the_number(n);
        if a.len() == 1 && b.len() == 1 {
            digits_are_distinct(m, n);
            assert(a =~= b);
        } else if a.len() == 1 {
            let rest = device::port_text(b.drop_last());
            assert(device::port_text(b)[rest.len() as int] == ',');
        } else if b.len() == 1 {
            let rest = device::port_text(a.drop_last());
            assert(device::port_text(a)[rest.len() as int] == ',');
        } else {
            let (p, q) = (
                device::port_text(a.drop_last()),
                device::port_text(b.drop_last()),
            );
            assert(","@ =~= seq![',']);
            last_part_is_determined(p, x, q, y, ',');
            digits_are_distinct(m, n);
            ports_are_distinct(a.drop_last(), b.drop_last());
            assert(a =~= a.drop_last().push(a.last()));
            assert(b =~= b.drop_last().push(b.last()));
        }
    }
}

/// Two devices have equal USB paths exactly where their buses are shown alike
/// and their chains of ports are equal.
pub proof fn path_names_bus_and_ports(a: DeviceInfoView, b: DeviceInfoView)
    ensures
        device::path_of(a) == device::path_of(b) <==> device::sanitized(a.bus_id)
            == device::sanitized(b.bus_id) && a.port_chain == b.port_chain,
{
    if device::path_of(a) == device::path_of(b) {
        reveal_strlit(":");
        ports_are_digits(a.port_chain);
        ports_are_digits(b.port_chain);
        assert(":"@ =~= seq![':']);
        last_part_is_determined(
            device::sanitized(a.bus_id),
            device::port_text(a.port_chain),
            device::sanitized(b.bus_id),
            device::port_text(b.port_chain),
            ':',
        );
        ports_are_distinct(a.port_chain, b.port_chain);
    }
}

/// The USB path of a device is accepted as an argument exactly where its bus
/// ends in a word character and its first port begins with a digit from one to
/// eight, or where the bus alone is accepted.
pub proof fn listed_path_is_accepted(d: DeviceInfoView)
    ensures
        ({
            let bus = device::sanitized(d.bus_id);
            pattern::holds_usbpath(device::path_of(d)) <==> {
                ||| pattern::holds_usbpath(bus)
                ||| bus.len() > 0 && pattern::word_char(bus.last()) && d.port_chain.len() > 0
                    && '1' <= text::digits(d.port_chain[0] as nat)[0] <= '8'
            }
        }),
{
    let bus = device::sanitized(d.bus_id);
    let ports = device::port_text(d.port_chain);
    let path = device::path_of(d);
    let n = bus.len() as int;
    reveal_strlit(":");
    ports_are_digits(d.port_chain);
    assert(path == bus + seq![':'] + ports);
    assert(forall|i: int| 0 <= i < n ==> #[trigger] path[i] == bus[i]);
    assert(path[n] == ':');
    assert(forall|i: int| n < i < path.len() ==> #[trigger] path[i] == ports[i - n - 1]);
    if pattern::holds_usbpath(path) {
        let i = choose|i: int| #[trigger] pattern::usbpath_at(path, i);
        if i < n {
            assert(pattern::usbpath_at(bus, i));
        } else {
            assert(i == n);
        }
    }
    if pattern::holds_usbpath(bus) {
        let i = choose|i: int| #[trigger] pattern::usbpath_at(bus, i);
        assert(pattern::usbpath_at(path, i));
    }
    if bus.len() > 0 && pattern::word_char(bus.last()) && d.port_chain.len() > 0 && '1'
        <= text::digits(d.port_chain[0] as nat)[0] <= '8' {
        assert(pattern::usbpath_at(path, n));
    }
}

/// On a bus with a number of its own, a device behind ports from one to eight
/// has a USB path that is accepted as an argument.
pub proof fn numbered_bus_path_is_accepted(d: DeviceInfoView)
    requires
        text::i64_value(d.bus_id, 16) is Some,
        d.port_chain.len() > 0,
        1 <= d.port_chain[0] <= 8,
    ensures
        pattern::holds_usbpath(device::path_of(d)),
{
    listed_path_is_accepted(d);
    let v = text::i64_value(d.bus_id, 16).unwrap() as int;
    if v < 0 {
        digits_stand_for_the_number((-v) as nat);
    } else {
        digits_stand_for_the_number(v as nat);
    }
}

/// A bus id that is a hexadecimal number is shown as that number in plain
/// decimal: digits only, no zero in front, and a minus sign where it is
/// negative.
pub proof fn bus_number_is_plain_decimal(bus_id: Seq<char>)
    requires
        text::i64_value(bus_id, 16) is Some,
    ensures
        ({
            let n = text::integer_value(bus_id, 16).unwrap();
            let shown = device::sanitized(bus_id);
            let plain = if n < 0 {
                shown.skip(1)
            } else {
                shown
            };
            &&& n < 0 ==> shown.len() > 0 && shown[0] == '-'
            &&& plain.len() > 0
            &&& forall|i: int| 0 <= i < plain.len() ==> '0' <= #[trigger] plain[i] <= '9'
            &&& plain.len() > 1 ==> plain[0] != '0'
            &&& text::magnitude(plain, 10) == (if n < 0 {
                -n
            } else {
                n
            })
        }),
{
    let n = text::integer_value(bus_id, 16).unwrap();
    let m = if n < 0 {
        (-n) as nat
    } else {
        n as nat
    };
    digits_stand_for_the_number(m);
    if m > 0 {
        text::digits_have_no_leading_zero(m);
    }
    if n < 0 {
        assert(device::sanitized(bus_id).skip(1) =~= text::digits(m));
    }
}

/// The ports of two chains, one after the other, are those of the first, a comma,
/// and those of the second.
pub proof fn ports_are_joined_by_commas(a: Seq<u8>, b: Seq<u8>)
    requires
        a.len() > 0,
        b.len() > 0,
    ensures
        device::port_text(a + b) == device::port_text(a) + seq![','] + device::port_text(b),
    decreases b.len(),
{
    reveal_strlit(",");
    assert(","@ =~= seq![',']);
    assert((a + b).drop_last() =~= a + b.drop_last());
    if b.len() == 1 {
        assert(a + b.drop_last() =~= a);
    } else {
        ports_are_joined_by_commas(a, b.drop_last());
        assert(device::port_text(a + b) =~= device::port_text(a) + seq![',']
            + device::port_text(b));
    }
}

/// A single port is shown by its decimal digits; no port is shown by nothing.
pub proof fn a_port_is_its_digits(port: u8)
    ensures
        device::port_text(seq![port]) == text::digits(port as nat),
        device::port_text(Seq::empty()) == Seq::<char>::empty(),
{
}

/// A USB path is the bus, a colon and the ports, and depends on nothing else of a
/// device.
pub proof fn path_is_bus_colon_ports(d: DeviceInfoView)
    ensures
        device::path_of(d).len() == device::sanitized(d.bus_id).len() + 1 + device::port_text(
            d.port_chain,
        ).len(),
        device::path_of(d).take(device::sanitized(d.bus_id).len() as int) == device::sanitized(
            d.bus_id,
        ),
        device::path_of(d)[device::sanitized(d.bus_id).len() as int] == ':',
        device::path_of(d).skip(device::sanitized(d.bus_id).len() as int + 1)
            == device::port_text(d.port_chain),
{
    reveal_strlit(":");
    let n = device::sanitized(d.bus_id).len() as int;
    assert(device::path_of(d).take(n) =~= device::sanitized(d.bus_id));
    assert(device::path_of(d).skip(n + 1) =~= device::port_text(d.port_chain));
}

/// A text holds a USB path exactly where it is made up of something, a word
/// character, a colon, a digit from one to eight, and something.
pub proof fn usbpath_is_word_colon_port(s: Seq<char>)
    ensures
        pattern::holds_usbpath(s) <==> exists|a: Seq<char>, w: char, p: char, b: Seq<char>|
            s == #[trigger] (a.push(w).push(':').push(p) + b) && pattern::word_char(w) && (p == '1' || p
                == '2' || p == '3' || p == '4' || p == '5' || p == '6' || p == '7' || p == '8'),
{
    if pattern::holds_usbpath(s) {
        let i = choose|i: int| #[trigger] pattern::usbpath_at(s, i);
        let (a, b) = (s.take(i - 1), s.skip(i + 2));
        let (w, p) = (s[i - 1], s[i + 1]);
        assert(s =~= a.push(w).push(':').push(p) + b);
    }
    if exists|a: Seq<char>, w: char, p: char, b: Seq<char>|
        s == #[trigger] (a.push(w).push(':').push(p) + b) && pattern::word_char(w) && (p == '1' || p
            == '2' || p == '3' || p == '4' || p == '5' || p == '6' || p == '7' || p == '8') {
        let (a, w, p, b) = choose|a: Seq<char>, w: char, p: char, b: Seq<char>|
            s == #[trigger] (a.push(w).push(':').push(p) + b) && pattern::word_char(w) && (p == '1' || p
                == '2' || p == '3' || p == '4' || p == '5' || p == '6' || p == '7' || p == '8');
        let n = a.len() as int;
        assert(s[n] == w && s[n + 1] == ':' && s[n + 2] == p);
        assert(pattern::usbpath_at(s, n + 1));
    }
}

/// The word characters of ASCII are the letters, the digits and the underscore.
pub proof fn ascii_word_characters(c: char)
    requires
        (c as u32) < 128,
    ensures
        pattern::word_char(c) <==> {
            let n = c as u32;
            48 <= n <= 57 || 65 <= n <= 90 || n == 95 || 97 <= n <= 122
        },
{
}

/// What contracts speak of is what the fields of a device hold.
pub proof fn views_show_the_fields(d: USBDevice, i: DeviceInfo)
    ensures
        i@.handle == i.handle,
        i@.bus_id == i.bus_id@,
        i@.port_chain == i.port_chain@,
        i@.vendor_id == i.vendor_id,
        i@.product_id == i.product_id,
        i@.product_string is Some <==> i.product_string is Some,
        i.product_string is Some ==> i@.product_string->0 == i.product_string->0@,
        i@.serial_number is Some <==> i.serial_number is Some,
        i.serial_number is Some ==> i@.serial_number->0 == i.serial_number->0@,
        d@.device_info == d.device_info@,
        d@.serial == d.serial@,
        d@.product_string == d.product_string@,
        d.info() == d.device_info@,
{
}

/// A text that may be absent is the text, where it is there.
pub proof fn optional_text_is_the_text(s: Option<String>)
    ensures
        s is None <==> device::optional_text(s) is None,
        s is Some ==> device::optional_text(s) == Some(s->0@),
{
}

} // verus!
