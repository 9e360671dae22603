//! How the messages of a run, and of errors, read.

use vstd::prelude::*;

use crate::error;
use crate::error::{DongleError, DongleErrorView};
use crate::hardware::{HeaderPin, PcbRevision, PinMode, PinState};
use crate::message;
use crate::message::Message;
use crate::paths;
use crate::style::LineColor;
use crate::text;

verus! {

/// Whether a text ends in another.
pub open spec fn ends_in(s: Seq<char>, end: Seq<char>) -> bool {
    exists|before: Seq<char>| s == #[trigger] (before + end)
}

/// A text that ends in another has its last character.
proof fn ends_as(s: Seq<char>, end: Seq<char>)
    requires
        ends_in(s, end),
        end.len() > 0,
    ensures
        s.len() > 0,
        s.last() == end.last(),
{
}

/// A text ends in one of two others, and not in both, where these end in
/// different characters.
proof fn ends_in_one(before: Seq<char>, end: Seq<char>, other: Seq<char>)
    requires
        end.len() > 0,
        other.len() > 0,
        end.last() != other.last(),
    ensures
        ends_in(before + end, end),
        !ends_in(before + end, other),
{
    if ends_in(before + end, other) {
        ends_as(before + end, other);
    }
}

/// The level of a header pin is printed with `High` at the end exactly where it
/// is high, and with `Low` exactly where it is low. Before it stands the name of
/// the pin.
pub proof fn pin_level_ends_in_its_level(pin: HeaderPin, state: PinState, serial: Seq<char>)
    ensures
        ({
            let shown = message::message_text(Message::PinLevel(pin, state), serial);
            &&& ends_in(shown, "High"@) <==> state == PinState::High
            &&& ends_in(shown, "Low"@) <==> state == PinState::Low
            &&& shown.len() >= 5
            &&& shown.take(5) == seq![
                'P',
                if pin == HeaderPin::P0 {
                    '0'
                } else {
                    '1'
                },
                ' ',
                '=',
                ' ',
            ]
            &&& state == PinState::High ==> shown.skip(5) == "High"@
            &&& state == PinState::Low ==> shown.skip(5) == "Low"@
        }),
{
    reveal_strlit("High");
    reveal_strlit("Low");
    reveal_strlit("P0");
    reveal_strlit("P1");
    reveal_strlit(" = ");
    let shown = message::message_text(Message::PinLevel(pin, state), serial);
    let name = match pin {
        HeaderPin::P0 => "P0"@,
        HeaderPin::P1 => "P1"@,
    };
    if state == PinState::High {
        ends_in_one(name + " = "@, "High"@, "Low"@);
        assert(shown.skip(5) =~= "High"@);
    } else {
        ends_in_one(name + " = "@, "Low"@, "High"@);
        assert(shown.skip(5) =~= "Low"@);
    }
    assert(shown.take(5) =~= name + " = "@);
}

/// Two header pins, or two levels of one, are printed differently, whatever the
/// dongle.
pub proof fn pin_levels_are_told_apart(
    pin: HeaderPin,
    state: PinState,
    other_pin: HeaderPin,
    other_state: PinState,
    serial: Seq<char>,
    other_serial: Seq<char>,
)
    ensures
        message::message_text(Message::PinLevel(pin, state), serial) == message::message_text(
            Message::PinLevel(other_pin, other_state),
            other_serial,
        ) <==> pin == other_pin && state == other_state,
{
    pin_level_ends_in_its_level(pin, state, serial);
    pin_level_ends_in_its_level(other_pin, other_state, other_serial);
    let a = message::message_text(Message::PinLevel(pin, state), serial);
    let b = message::message_text(Message::PinLevel(other_pin, other_state), other_serial);
    assert(a.take(5)[1] == '0' <==> pin == HeaderPin::P0);
    assert(b.take(5)[1] == '0' <==> other_pin == HeaderPin::P0);
    if pin == other_pin && state == other_state {
        assert(a =~= a.take(5) + a.skip(5));
        assert(b =~= b.take(5) + b.skip(5));
    }
}

/// Whether power is on is printed with `ON` at the end exactly where it is, and
/// with `OFF` exactly where it is not.
pub proof fn power_ends_in_on_or_off(on: bool, serial: Seq<char>)
    ensures
        ({
            let shown = message::message_text(Message::PowerIs(on), serial);
            &&& ends_in(shown, "ON"@) <==> on
            &&& ends_in(shown, "OFF"@) <==> !on
            &&& shown == "Power is "@ + (if on {
                "ON"@
            } else {
                "OFF"@
            })
        }),
{
    reveal_strlit("ON");
    reveal_strlit("OFF");
    reveal_strlit("Power is ");
    reveal_strlit("Power is ON");
    reveal_strlit("Power is OFF");
    if on {
        assert("Power is ON"@ =~= "Power is "@ + "ON"@);
        ends_in_one("Power is "@, "ON"@, "OFF"@);
    } else {
        assert("Power is OFF"@ =~= "Power is "@ + "OFF"@);
        ends_in_one("Power is "@, "OFF"@, "ON"@);
    }
}

/// The revision of the board is printed with `RevC` at the end exactly where it
/// is revision C, and with `RevAorB` exactly where it is an older one.
pub proof fn revision_ends_in_its_name(revision: PcbRevision, serial: Seq<char>)
    ensures
        ({
            let shown = message::message_text(Message::Revision(revision), serial);
            &&& ends_in(shown, "RevC"@) <==> revision == PcbRevision::RevC
            &&& ends_in(shown, "RevAorB"@) <==> revision == PcbRevision::RevAorB
            &&& revision == PcbRevision::RevC ==> shown == "PCB revision: "@ + "RevC"@
            &&& revision == PcbRevision::RevAorB ==> shown == "PCB revision: "@ + "RevAorB"@
        }),
{
    reveal_strlit("RevC");
    reveal_strlit("RevAorB");
    match revision {
        PcbRevision::RevC => ends_in_one("PCB revision: "@, "RevC"@, "RevAorB"@),
        PcbRevision::RevAorB => ends_in_one("PCB revision: "@, "RevAorB"@, "RevC"@),
    }
}

/// A line that says yes or no ends in `true` exactly for yes, and in `false`
/// exactly for no, after a label of its own.
pub proof fn flags_end_in_true_or_false(b: bool, serial: Seq<char>)
    ensures
        forall|m: Message|
            m == Message::SwitchConnected(b) || m == Message::ForcingSdp(b) || m
                == Message::ForcingCcDown(b) ==> {
                let shown = #[trigger] message::message_text(m, serial);
                &&& ends_in(shown, "true"@) <==> b
                &&& ends_in(shown, "false"@) <==> !b
            },
        message::message_text(Message::SwitchConnected(b), serial) == "USB switch connected: "@ + (
        if b {
            "true"@
        } else {
            "false"@
        }),
        message::message_text(Message::ForcingSdp(b), serial) == "Is forcing SDP mode: "@ + (if b {
            "true"@
        } else {
            "false"@
        }),
        message::message_text(Message::ForcingCcDown(b), serial) == "Is forcing CC lines down: "@
            + (if b {
            "true"@
        } else {
            "false"@
        }),
{
    reveal_strlit("true");
    reveal_strlit("false");
    let (own, other) = if b {
        ("true"@, "false"@)
    } else {
        ("false"@, "true"@)
    };
    text::truth_values_are_spelled_out(b);
    assert(text::bool_text(b) =~= own);
    assert(own[2] != other[2]);
    assert forall|label: Seq<char>|
        #[trigger] ends_in(label + own, own) && !ends_in(label + own, other) by {
        let s = label + own;
        if ends_in(s, other) {
            let before = choose|before: Seq<char>| s == #[trigger] (before + other);
            let n = s.len() as int;
            assert(s[n - 2] == own[own.len() - 2]);
            assert(s[n - 3] == own[own.len() - 3]);
            assert(s[n - 3] == other[other.len() - 3]);
        }
    }
    assert(ends_in("USB switch connected: "@ + own, own));
    assert(ends_in("Is forcing SDP mode: "@ + own, own));
    assert(ends_in("Is forcing CC lines down: "@ + own, own));
}

/// Mode and level of a header pin are printed in one line, which names the pin
/// by its number, the mode as `Input` or `Output`, and the level as `High` or
/// `Low`.
pub proof fn header_pin_line(pin: HeaderPin, mode: PinMode, state: PinState, serial: Seq<char>)
    ensures
        ({
            let shown = message::message_text(Message::HeaderPinStatus(pin, mode, state), serial);
            &&& shown == "Header pin "@ + (match pin {
                HeaderPin::P0 => seq!['0'],
                HeaderPin::P1 => seq!['1'],
            }) + " mode: "@ + (match mode {
                PinMode::Input => "Input"@,
                PinMode::Output => "Output"@,
            }) + ", state: "@ + (match state {
                PinState::High => "High"@,
                PinState::Low => "Low"@,
            })
            &&& ends_in(shown, "High"@) <==> state == PinState::High
            &&& ends_in(shown, "Low"@) <==> state == PinState::Low
        }),
{
    reveal_strlit("High");
    reveal_strlit("Low");
    reveal_strlit("Header pin ");
    reveal_strlit(" mode: ");
    reveal_strlit("Header pin 0 mode: ");
    reveal_strlit("Header pin 1 mode: ");
    let digit = match pin {
        HeaderPin::P0 => seq!['0'],
        HeaderPin::P1 => seq!['1'],
    };
    let name = match mode {
        PinMode::Input => "Input"@,
        PinMode::Output => "Output"@,
    };
    let label = match pin {
        HeaderPin::P0 => "Header pin 0 mode: "@,
        HeaderPin::P1 => "Header pin 1 mode: "@,
    };
    assert(label =~= "Header pin "@ + digit + " mode: "@);
    match state {
        PinState::High => ends_in_one(label + name + ", state: "@, "High"@, "Low"@),
        PinState::Low => ends_in_one(label + name + ", state: "@, "Low"@, "High"@),
    }
}

/// Two modes, or two levels, of header pins are printed differently.
pub proof fn header_pin_lines_are_told_apart(
    pin: HeaderPin,
    mode: PinMode,
    state: PinState,
    other_pin: HeaderPin,
    other_mode: PinMode,
    other_state: PinState,
    serial: Seq<char>,
)
    ensures
        message::message_text(Message::HeaderPinStatus(pin, mode, state), serial)
            == message::message_text(
            Message::HeaderPinStatus(other_pin, other_mode, other_state),
            serial,
        ) <==> pin == other_pin && mode == other_mode && state == other_state,
{
    reveal_strlit("High");
    reveal_strlit("Low");
    reveal_strlit("Input");
    reveal_strlit("Output");
    reveal_strlit("Header pin ");
    reveal_strlit(" mode: ");
    header_pin_line(pin, mode, state, serial);
    header_pin_line(other_pin, other_mode, other_state, serial);
    let a = message::message_text(Message::HeaderPinStatus(pin, mode, state), serial);
    let b = message::message_text(
        Message::HeaderPinStatus(other_pin, other_mode, other_state),
        serial,
    );
    assert(a[11] == '0' <==> pin == HeaderPin::P0);
    assert(b[11] == '0' <==> other_pin == HeaderPin::P0);
    assert(a[19] == 'I' <==> mode == PinMode::Input);
    assert(b[19] == 'I' <==> other_mode == PinMode::Input);
}

/// The seconds that are left are printed as a plain decimal number: digits, no
/// zero in front, which stand for the number of seconds.
pub proof fn countdown_is_a_number(n: u8, serial: Seq<char>)
    requires
        n > 0,
    ensures
        ({
            let shown = message::message_text(Message::Countdown(n), serial);
            &&& shown.len() > 0
            &&& shown[0] != '0'
            &&& forall|i: int| 0 <= i < shown.len() ==> '0' <= #[trigger] shown[i] <= '9'
            &&& text::magnitude(shown, 10) == n
        }),
{
    paths::digits_stand_for_the_number(n as nat);
    text::digits_have_no_leading_zero(n as nat);
}

/// The serial of a dongle is printed as it is, after a label.
pub proof fn serial_is_printed_as_it_is(serial: Seq<char>)
    ensures
        message::message_text(Message::DongleSerial, serial) == "Dongle serial: "@ + serial,
{
}

/// No message but the one for the serial depends on the serial.
pub proof fn serial_is_in_its_own_message_only(m: Message, serial: Seq<char>, other: Seq<char>)
    requires
        !(m is DongleSerial),
    ensures
        message::message_text(m, serial) == message::message_text(m, other),
{
}

/// Messages without a value read the same in every run.
pub proof fn fixed_messages_read_as_follows(serial: Seq<char>)
    ensures
        message::message_text(Message::PowerFault, serial)
            == "Power FAULT detected, probably short on VBUS?"@,
        message::message_text(Message::PowerAlreadyOn, serial) == "Power is already ON"@,
        message::message_text(Message::PowerAlreadyOff, serial) == "Power is already OFF"@,
        message::message_text(Message::TurningOn, serial) == "Turning ON..."@,
        message::message_text(Message::TurningOff, serial) == "Turning OFF..."@,
        message::message_text(Message::RelayVariant, serial) == "SSR (opto-relay) variant"@,
        message::message_text(Message::RelayPinIsInput, serial)
            == "Relay pin p0 is configured as Input, relay won't work"@,
        message::message_text(Message::RelayShort, serial) == "Relay state: Short (p0 high)"@,
        message::message_text(Message::RelayOpen, serial) == "Relay state: Open (p0 low)"@,
        message::message_text(Message::SdpUnsupported, serial)
            == "ForceSDP is not supported on PCB RevA or B"@,
        message::message_text(Message::AttachDetachUnsupported, serial)
            == "Attach / Detach is not supported on PCB RevA or B"@,
        message::message_text(Message::FullAttachDetachUnsupported, serial) == "Full "@
            + "Attach / Detach is not supported on PCB RevA or B"@,
        message::message_text(Message::GpioUnsupported, serial)
            == "GPIO is not supported on PCB RevA or B"@,
        message::message_text(Message::RelayPinToInput, serial)
            == "Configuring relay control pin as input, relay won't work"@,
{
    reveal_strlit("Full ");
    reveal_strlit("Attach / Detach is not supported on PCB RevA or B");
    reveal_strlit("Full Attach / Detach is not supported on PCB RevA or B");
    assert("Full Attach / Detach is not supported on PCB RevA or B"@ =~= "Full "@
        + "Attach / Detach is not supported on PCB RevA or B"@);
}

/// Faults and refusals are red, the two warnings about the relay's pin are
/// yellow, and nothing else has a colour.
pub proof fn only_trouble_is_coloured(m: Message)
    ensures
        message::message_color(m) == LineColor::Red <==> m is PowerFault || m is SdpUnsupported
            || m is AttachDetachUnsupported || m is FullAttachDetachUnsupported
            || m is GpioUnsupported,
        message::message_color(m) == LineColor::Yellow <==> m is RelayPinIsInput
            || m is RelayPinToInput,
{
}

/// A message is shown by its text. Where the message has a colour, the code for
/// red or for yellow may come before the text, and the code that ends the colour
/// after it; the text itself stays whole.
pub proof fn messages_are_shown_by_their_text(shown: Seq<char>, m: Message, serial: Seq<char>)
    requires
        message::is_shown(shown, m, serial),
    ensures
        ({
            let said = message::message_text(m, serial);
            let end = seq!['\u{1b}', '[', '0', 'm'];
            &&& text::occurs_in(said, shown)
            &&& !(m is PowerFault || m is SdpUnsupported || m is AttachDetachUnsupported
                || m is FullAttachDetachUnsupported || m is GpioUnsupported
                || m is RelayPinIsInput || m is RelayPinToInput) ==> shown == said
            &&& m is PowerFault || m is SdpUnsupported || m is AttachDetachUnsupported
                || m is FullAttachDetachUnsupported || m is GpioUnsupported ==> shown == said
                || shown == said + end || shown == seq!['\u{1b}', '[', '3', '1', 'm'] + said + end
            &&& m is RelayPinIsInput || m is RelayPinToInput ==> shown == said || shown == said
                + end || shown == seq!['\u{1b}', '[', '3', '3', 'm'] + said + end
        }),
{
    reveal_strlit("\u{1b}[0m");
    reveal_strlit("\u{1b}[31m");
    reveal_strlit("\u{1b}[33m");
    let said = message::message_text(m, serial);
    let end = seq!['\u{1b}', '[', '0', 'm'];
    let red = seq!['\u{1b}', '[', '3', '1', 'm'];
    let yellow = seq!['\u{1b}', '[', '3', '3', 'm'];
    assert("\u{1b}[0m"@ =~= end);
    assert("\u{1b}[31m"@ =~= red);
    assert("\u{1b}[33m"@ =~= yellow);
    let none = Seq::<char>::empty();
    text::occurring_is_being_a_part(said, shown);
    if shown == said {
        assert(shown =~= none + said + none);
    } else if shown == said + end {
        assert(shown =~= none + said + end);
    }
}

/// An error that is about a serial or a USB path names it at the end, but for
/// two: where a serial is not unique it stands in the middle, and where no dongle
/// has a USB path the path is not named.
pub proof fn errors_read_as_follows(name: Seq<char>)
    ensures
        error::error_text(DongleErrorView::NoDongleMathcingUSBTree(name))
            == "No dongle matching usb tree "@ + name,
        error::error_text(DongleErrorView::NoDongleMathcingSerial(name))
            == "No dongle mathcing serial number "@ + name,
        error::error_text(DongleErrorView::NoDevicesFound) == "No devices found"@,
        error::error_text(DongleErrorView::SerialNotUnique(name)) == "Serial "@ + name
            + " matches more than one device"@,
        error::error_text(DongleErrorView::NoMatchForSerial(name)) == "No match for serial "@
            + name,
        error::error_text(DongleErrorView::NoMatchForUSBTree(name)) == "No match for USB tree 0"@,
        error::error_text(DongleErrorView::DeviceNotSpecified) == "Device not specified"@,
        error::error_text(DongleErrorView::DeviceOpenFail) == "Device open failed"@,
        error::error_text(DongleErrorView::ForceSDPNotSupported)
            == "ForceSDP not supported on PCB Rev A or B"@,
        error::error_text(DongleErrorView::AttachDetachNotSupported)
            == "Attch/Detach not supported on PCB Rev A or B"@,
        error::error_text(DongleErrorView::GPIONotSupported)
            == "GPIO not supported on PCB Rev A or B"@,
{
}

/// An error is read as the error that it is, with the text that it holds.
pub proof fn errors_are_read_as_they_are(e: DongleError)
    ensures
        match e {
            DongleError::NoDongleMathcingUSBTree(name) => e@
                == DongleErrorView::NoDongleMathcingUSBTree(name@),
            DongleError::NoDongleMathcingSerial(name) => e@
                == DongleErrorView::NoDongleMathcingSerial(name@),
            DongleError::NoDevicesFound => e@ == DongleErrorView::NoDevicesFound,
            DongleError::SerialNotUnique(name) => e@ == DongleErrorView::SerialNotUnique(name@),
            DongleError::NoMatchForSerial(name) => e@ == DongleErrorView::NoMatchForSerial(name@),
            DongleError::NoMatchForUSBTree(name) => e@ == DongleErrorView::NoMatchForUSBTree(name@),
            DongleError::DeviceNotSpecified => e@ == DongleErrorView::DeviceNotSpecified,
            DongleError::DeviceOpenFail => e@ == DongleErrorView::DeviceOpenFail,
            DongleError::ForceSDPNotSupported => e@ == DongleErrorView::ForceSDPNotSupported,
            DongleError::AttachDetachNotSupported => e@
                == DongleErrorView::AttachDetachNotSupported,
            DongleError::GPIONotSupported => e@ == DongleErrorView::GPIONotSupported,
        },
{
}

} // verus!
