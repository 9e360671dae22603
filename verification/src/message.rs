//! The messages that a run prints.

use vstd::prelude::*;

use crate::hardware;
use crate::hardware::{HeaderPin, PcbRevision, PinMode, PinState};
use crate::style;
use crate::style::{paint_red, paint_yellow, LineColor};
use crate::text;
use crate::text::{bool_string, decimal_string};

verus! {

/// A message of a run.
#[derive(Clone, Copy, PartialEq, Eq, Debug, Structural)]
pub enum Message {
    PowerFault,
    PowerAlreadyOn,
    PowerAlreadyOff,
    TurningOn,
    TurningOff,
    /// The serial of the dongle that the run is about.
    DongleSerial,
    PowerIs(bool),
    Revision(PcbRevision),
    RelayVariant,
    SwitchConnected(bool),
    ForcingSdp(bool),
    ForcingCcDown(bool),
    RelayPinIsInput,
    RelayShort,
    RelayOpen,
    HeaderPinStatus(HeaderPin, PinMode, PinState),
    SdpUnsupported,
    AttachDetachUnsupported,
    FullAttachDetachUnsupported,
    GpioUnsupported,
    /// Seconds that are left.
    Countdown(u8),
    /// A pin that drives a relay is about to become an input.
    RelayPinToInput,
    PinLevel(HeaderPin, PinState),
}

/// The text of a message in a run on the dongle with serial `serial`.
pub open spec fn message_text(message: Message, serial: Seq<char>) -> Seq<char> {
    match message {
        Message::PowerFault => "Power FAULT detected, probably short on VBUS?"@,
        Message::PowerAlreadyOn => "Power is already ON"@,
        Message::PowerAlreadyOff => "Power is already OFF"@,
        Message::TurningOn => "Turning ON..."@,
        Message::TurningOff => "Turning OFF..."@,
        Message::DongleSerial => "Dongle serial: "@ + serial,
        Message::PowerIs(on) => if on {
            "Power is ON"@
        } else {
            "Power is OFF"@
        },
        Message::Revision(revision) => "PCB revision: "@ + hardware::revision_text(revision),
        Message::RelayVariant => "SSR (opto-relay) variant"@,
        Message::SwitchConnected(b) => "USB switch connected: "@ + text::bool_text(b),
        Message::ForcingSdp(b) => "Is forcing SDP mode: "@ + text::bool_text(b),
        Message::ForcingCcDown(b) => "Is forcing CC lines down: "@ + text::bool_text(b),
        Message::RelayPinIsInput => "Relay pin p0 is configured as Input, relay won't work"@,
        Message::RelayShort => "Relay state: Short (p0 high)"@,
        Message::RelayOpen => "Relay state: Open (p0 low)"@,
        Message::HeaderPinStatus(pin, mode, state) => {
            (match pin {
                HeaderPin::P0 => "Header pin 0 mode: "@,
                HeaderPin::P1 => "Header pin 1 mode: "@,
            }) + hardware::mode_text(mode) + ", state: "@ + hardware::state_text(state)
        },
        Message::SdpUnsupported => "ForceSDP is not supported on PCB RevA or B"@,
        Message::AttachDetachUnsupported => "Attach / Detach is not supported on PCB RevA or B"@,
        Message::FullAttachDetachUnsupported => {
            "Full Attach / Detach is not supported on PCB RevA or B"@
        },
        Message::GpioUnsupported => "GPIO is not supported on PCB RevA or B"@,
        Message::Countdown(n) => text::decimal(n as int),
        Message::RelayPinToInput => "Configuring relay control pin as input, relay won't work"@,
        Message::PinLevel(pin, state) => {
            hardware::pin_text(pin) + " = "@ + hardware::state_text(state)
        },
    }
}

/// The colour of a message: red for faults and refusals, yellow for warnings.
pub open spec fn message_color(message: Message) -> LineColor {
    match message {
        Message::PowerFault | Message::SdpUnsupported | Message::AttachDetachUnsupported
        | Message::FullAttachDetachUnsupported | Message::GpioUnsupported => LineColor::Red,
        Message::RelayPinIsInput | Message::RelayPinToInput => LineColor::Yellow,
        _ => LineColor::Plain,
    }
}

/// Whether `shown` is what a terminal is sent for a message: its text, with the
/// code of its colour before it and the reset code after it where colours are
/// used.
pub open spec fn is_shown(shown: Seq<char>, message: Message, serial: Seq<char>) -> bool {
    let text = message_text(message, serial);
    match message_color(message) {
        LineColor::Plain => shown == text,
        LineColor::Red => style::is_painted(shown, text, "\u{1b}[31m"@),
        LineColor::Yellow => style::is_painted(shown, text, "\u{1b}[33m"@),
    }
}

impl Message {
    /// What a terminal is sent for the message, in a run on the dongle with
    /// serial `serial`.
    pub fn shown(&self, serial: &str) -> (shown: String)
        ensures
            is_shown(shown@, *self, serial@),
    {
        proof {
            coloured_texts_are_escape_free(*self, serial@);
            if message_color(*self) != LineColor::Plain {
                style::escape_free_has_no_reset(message_text(*self, serial@));
            }
        }
        let text = self.text(serial);
        match self.color() {
            LineColor::Plain => text,
            LineColor::Red => paint_red(text.as_str()),
            LineColor::Yellow => paint_yellow(text.as_str()),
        }
    }

    /// The text of the message, in a run on the dongle with serial `serial`.
    pub fn text(&self, serial: &str) -> (text: String)
        ensures
            text@ == message_text(*self, serial@),
    {
        match self {
            Message::PowerFault => "Power FAULT detected, probably short on VBUS?".to_string(),
            Message::PowerAlreadyOn => "Power is already ON".to_string(),
            Message::PowerAlreadyOff => "Power is already OFF".to_string(),
            Message::TurningOn => "Turning ON...".to_string(),
            Message::TurningOff => "Turning OFF...".to_string(),
            Message::DongleSerial => labelled("Dongle serial: ", serial),
            Message::PowerIs(on) => if *on {
                "Power is ON".to_string()
            } else {
                "Power is OFF".to_string()
            },
            Message::Revision(revision) => labelled("PCB revision: ", revision.name()),
            Message::RelayVariant => "SSR (opto-relay) variant".to_string(),
            Message::SwitchConnected(b) => labelled("USB switch connected: ", bool_string(*b)),
            Message::ForcingSdp(b) => labelled("Is forcing SDP mode: ", bool_string(*b)),
            Message::ForcingCcDown(b) => labelled("Is forcing CC lines down: ", bool_string(*b)),
            Message::RelayPinIsInput => {
                "Relay pin p0 is configured as Input, relay won't work".to_string()
            },
            Message::RelayShort => "Relay state: Short (p0 high)".to_string(),
            Message::RelayOpen => "Relay state: Open (p0 low)".to_string(),
            Message::HeaderPinStatus(pin, mode, state) => {
                let mut text = match pin {
                    HeaderPin::P0 => "Header pin 0 mode: ".to_string(),
                    HeaderPin::P1 => "Header pin 1 mode: ".to_string(),
                };
                text.append(mode.name());
                text.append(", state: ");
                text.append(state.name());
                text
            },
            Message::SdpUnsupported => "ForceSDP is not supported on PCB RevA or B".to_string(),
            Message::AttachDetachUnsupported => {
                "Attach / Detach is not supported on PCB RevA or B".to_string()
            },
            Message::FullAttachDetachUnsupported => {
                "Full Attach / Detach is not supported on PCB RevA or B".to_string()
            },
            Message::GpioUnsupported => "GPIO is not supported on PCB RevA or B".to_string(),
            Message::Countdown(n) => decimal_string(*n as i64),
            Message::RelayPinToInput => {
                "Configuring relay control pin as input, relay won't work".to_string()
            },
            Message::PinLevel(pin, state) => {
                let mut text = labelled(pin.name(), " = ");
                text.append(state.name());
                text
            },
        }
    }

    /// The colour of the message.
    pub fn color(&self) -> (color: LineColor)
        ensures
            color == message_color(*self),
    {
        match self {
            Message::PowerFault
            | Message::SdpUnsupported
            | Message::AttachDetachUnsupported
            | Message::FullAttachDetachUnsupported
            | Message::GpioUnsupported => LineColor::Red,
            Message::RelayPinIsInput | Message::RelayPinToInput => LineColor::Yellow,
            _ => LineColor::Plain,
        }
    }
}

/// The coloured messages are free of escape characters.
proof fn coloured_texts_are_escape_free(message: Message, serial: Seq<char>)
    ensures
        message_color(message) != LineColor::Plain ==> {
            let text = message_text(message, serial);
            style::escape_free(text, text.len())
        },
{
    reveal_with_fuel(style::escape_free, 64);
    reveal_strlit("Power FAULT detected, probably short on VBUS?");
    reveal_strlit("ForceSDP is not supported on PCB RevA or B");
    reveal_strlit("Attach / Detach is not supported on PCB RevA or B");
    reveal_strlit("Full Attach / Detach is not supported on PCB RevA or B");
    reveal_strlit("GPIO is not supported on PCB RevA or B");
    reveal_strlit("Relay pin p0 is configured as Input, relay won't work");
    reveal_strlit("Configuring relay control pin as input, relay won't work");
}

/// A label and what it is for.
fn labelled(label: &str, value: &str) -> (text: String)
    ensures
        text@ == label@ + value@,
{
    let mut text = label.to_string();
    text.append(value);
    text
}

} // verus!
