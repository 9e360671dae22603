//! What a command does to a dongle: the sequence of reads, writes, waits and
//! printed messages, as a function of the command and of what is read.

use vstd::prelude::*;

use crate::command::Commands;
use crate::error::DongleError;
use crate::hardware::{HeaderPin, PcbRevision, PinMode, PinState, Readings, SlgPin};
use crate::message::Message;

verus! {

/// One step of a run.
#[derive(Debug)]
pub enum Action {
    /// Read whether power to the attached device is on.
    ReadPower,
    /// Read whether a power fault is signalled.
    ReadFault,
    /// Read the revision of the board.
    ReadRevision,
    /// Read whether the USB data lines are connected.
    ReadSwitch,
    /// Read the level of a line to the mixed-signal chip.
    ReadSlg(SlgPin),
    /// Read the mode of a header pin.
    ReadHeaderMode(HeaderPin),
    /// Read the level of a header pin.
    ReadHeader(HeaderPin),
    /// Print a message.
    Print(Message),
    /// Turn power to the attached device on or off.
    SetPower(bool),
    /// Set the mode of a line to the mixed-signal chip.
    SetSlgMode(SlgPin, PinMode),
    /// Set the level of a line to the mixed-signal chip.
    SetSlg(SlgPin, PinState),
    /// Make the control line of the USB switch an output.
    ConfigureSwitch,
    /// Connect or disconnect the USB data lines.
    SetSwitch(bool),
    /// Set the mode of a header pin.
    SetHeaderMode(HeaderPin, PinMode),
    /// Set the level of a header pin.
    SetHeader(HeaderPin, PinState),
    /// Wait for this many seconds.
    Sleep(u64),
    /// The run is over, with this result.
    Finish(Result<(), DongleError>),
}

/// Seconds for which the `sdp` command forces SDP mode.
pub const SDP_SECONDS: u8 = 10;

/// What every run starts with: power, fault and board revision are read, and a
/// fault is reported as soon as it is known.
pub open spec fn prologue(r: Readings) -> Seq<Action> {
    if r.fault {
        seq![
            Action::ReadPower,
            Action::ReadFault,
            Action::Print(Message::PowerFault),
            Action::ReadRevision,
        ]
    } else {
        seq![Action::ReadPower, Action::ReadFault, Action::ReadRevision]
    }
}

/// Numbers from `n` down to one, printed one second apart.
pub open spec fn countdown(n: u8) -> Seq<Action>
    decreases n,
{
    if n == 0 {
        Seq::empty()
    } else {
        seq![Action::Print(Message::Countdown(n)), Action::Sleep(1)] + countdown((n - 1) as u8)
    }
}

/// A countdown prints numbers and waits, each number at its place.
pub proof fn countdown_counts(n: u8)
    ensures
        countdown(n).len() == 2 * n,
        forall|i: int|
            0 <= i < 2 * n ==> #[trigger] countdown(n)[i] == (if i % 2 == 0 {
                Action::Print(Message::Countdown((n - i / 2) as u8))
            } else {
                Action::Sleep(1)
            }),
    decreases n,
{
    if n > 0 {
        let m = (n - 1) as u8;
        countdown_counts(m);
        let c = countdown(n);
        assert forall|i: int| 0 <= i < 2 * n implies #[trigger] c[i] == (if i % 2 == 0 {
            Action::Print(Message::Countdown((n - i / 2) as u8))
        } else {
            Action::Sleep(1)
        }) by {
            if i >= 2 {
                assert(c[i] == countdown(m)[i - 2]);
            }
        }
    }
}

/// A command that the board cannot carry out: one message, then the error.
pub open spec fn refusal(message: Message, error: DongleError) -> Seq<Action> {
    seq![Action::Print(message), Action::Finish(Err(error))]
}

/// What the `status` command prints without further reading.
pub open spec fn status_head(relay: bool, r: Readings) -> Seq<Action> {
    let always = seq![
        Action::Print(Message::DongleSerial),
        Action::Print(Message::PowerIs(r.power)),
        Action::Print(Message::Revision(r.revision)),
    ];
    if relay {
        always.push(Action::Print(Message::RelayVariant))
    } else {
        always
    }
}

/// The USB switch and the two lines to the mixed-signal chip, each read and
/// reported in turn.
pub open spec fn status_lines(r: Readings) -> Seq<Action> {
    seq![
        Action::ReadSwitch,
        Action::Print(Message::SwitchConnected(r.connected)),
        Action::ReadSlg(SlgPin::SlgIo0),
        Action::Print(Message::ForcingSdp(r.slg0 == PinState::High)),
        Action::ReadSlg(SlgPin::SlgIo1),
        Action::Print(Message::ForcingCcDown(r.slg1 == PinState::Low)),
    ]
}

/// Mode and level of a header pin, read and reported in one message.
pub open spec fn status_pin(pin: HeaderPin, r: Readings) -> Seq<Action> {
    seq![
        Action::ReadHeaderMode(pin),
        Action::ReadHeader(pin),
        Action::Print(Message::HeaderPinStatus(pin, r.mode(pin), r.state(pin))),
    ]
}

/// The relay that header pin zero drives. The level of the pin is only read
/// where the pin is an output.
pub open spec fn status_relay(r: Readings) -> Seq<Action> {
    if r.mode0 == PinMode::Input {
        seq![Action::ReadHeaderMode(HeaderPin::P0), Action::Print(Message::RelayPinIsInput)]
    } else {
        seq![
            Action::ReadHeaderMode(HeaderPin::P0),
            Action::ReadHeader(HeaderPin::P0),
            Action::Print(
                if r.state0 == PinState::High {
                    Message::RelayShort
                } else {
                    Message::RelayOpen
                },
            ),
        ]
    }
}

/// What the `status` command does once the prologue is over.
pub open spec fn status(relay: bool, r: Readings) -> Seq<Action> {
    let first_pin = if relay {
        status_relay(r)
    } else {
        status_pin(HeaderPin::P0, r)
    };
    if r.revision == PcbRevision::RevC {
        status_head(relay, r) + status_lines(r) + first_pin + status_pin(HeaderPin::P1, r)
            + seq![Action::Finish(Ok(()))]
    } else {
        status_head(relay, r) + seq![Action::Finish(Ok(()))]
    }
}

/// What a command does once the prologue is over, on a board that can carry it
/// out.
pub open spec fn supported_body(command: Commands, relay: bool, r: Readings) -> Seq<Action> {
    match command {
        Commands::On => if r.power {
            seq![Action::Print(Message::PowerAlreadyOn), Action::Finish(Ok(()))]
        } else {
            seq![
                Action::Print(Message::TurningOn),
                Action::SetPower(true),
                Action::Finish(Ok(())),
            ]
        },
        Commands::Off => if r.power {
            seq![
                Action::Print(Message::TurningOff),
                Action::SetPower(false),
                Action::Finish(Ok(())),
            ]
        } else {
            seq![Action::Print(Message::PowerAlreadyOff), Action::Finish(Ok(()))]
        },
        Commands::Status => status(relay, r),
        Commands::List | Commands::Udev => seq![Action::Finish(Ok(()))],
        Commands::ForceSdp => seq![
            Action::SetSlgMode(SlgPin::SlgIo0, PinMode::Output),
            Action::SetSlg(SlgPin::SlgIo0, PinState::High),
            Action::Finish(Ok(())),
        ],
        Commands::ReleaseSdp => seq![
            Action::SetSlgMode(SlgPin::SlgIo0, PinMode::Output),
            Action::SetSlg(SlgPin::SlgIo0, PinState::Low),
            Action::Finish(Ok(())),
        ],
        Commands::Sdp => seq![
            Action::SetSlgMode(SlgPin::SlgIo0, PinMode::Output),
            Action::SetSlg(SlgPin::SlgIo0, PinState::High),
        ] + countdown(SDP_SECONDS) + seq![
            Action::SetSlg(SlgPin::SlgIo0, PinState::Low),
            Action::Finish(Ok(())),
        ],
        Commands::Attach => seq![
            Action::ConfigureSwitch,
            Action::SetSwitch(true),
            Action::Finish(Ok(())),
        ],
        Commands::Detach => seq![
            Action::ConfigureSwitch,
            Action::SetSwitch(false),
            Action::Finish(Ok(())),
        ],
        Commands::FullAttach => seq![
            Action::ConfigureSwitch,
            Action::SetSlgMode(SlgPin::SlgIo1, PinMode::Output),
            Action::SetPower(true),
            Action::SetSwitch(true),
            Action::SetSlg(SlgPin::SlgIo1, PinState::High),
            Action::Finish(Ok(())),
        ],
        Commands::FullDetach => seq![
            Action::ConfigureSwitch,
            Action::SetSlgMode(SlgPin::SlgIo1, PinMode::Output),
            Action::SetPower(false),
            Action::SetSwitch(false),
            Action::SetSlg(SlgPin::SlgIo1, PinState::Low),
            Action::Finish(Ok(())),
        ],
        Commands::GpioConfig { pin, mode } => if relay && pin == HeaderPin::P0 && mode
            == PinMode::Input {
            seq![
                Action::Print(Message::RelayPinToInput),
                Action::SetHeaderMode(pin, mode),
                Action::Finish(Ok(())),
            ]
        } else {
            seq![Action::SetHeaderMode(pin, mode), Action::Finish(Ok(()))]
        },
        Commands::GpioSet { pin, state } => seq![
            Action::SetHeader(pin, state),
            Action::Finish(Ok(())),
        ],
        Commands::GpioGet { pin } => seq![
            Action::ReadHeader(pin),
            Action::Print(Message::PinLevel(pin, r.state(pin))),
            Action::Finish(Ok(())),
        ],
    }
}

/// What a command does once the prologue is over.
pub open spec fn body(command: Commands, relay: bool, r: Readings) -> Seq<Action> {
    if r.revision == PcbRevision::RevAorB && command.needs_rev_c() {
        match command {
            Commands::Sdp | Commands::ForceSdp | Commands::ReleaseSdp => refusal(
                Message::SdpUnsupported,
                DongleError::ForceSDPNotSupported,
            ),
            Commands::Attach | Commands::Detach => refusal(
                Message::AttachDetachUnsupported,
                DongleError::AttachDetachNotSupported,
            ),
            Commands::FullAttach | Commands::FullDetach => refusal(
                Message::FullAttachDetachUnsupported,
                DongleError::AttachDetachNotSupported,
            ),
            _ => refusal(Message::GpioUnsupported, DongleError::GPIONotSupported),
        }
    } else {
        supported_body(command, relay, r)
    }
}

/// Everything that a command does to an opened dongle, given whether the
/// dongle is of the relay variant and what is read from it.
pub open spec fn script(command: Commands, relay: bool, r: Readings) -> Seq<Action> {
    prologue(r) + body(command, relay, r)
}

/// The prologue as a list.
fn prologue_actions(r: &Readings) -> (actions: Vec<Action>)
    ensures
        actions@ == prologue(*r),
{
    let mut actions: Vec<Action> = Vec::new();
    actions.push(Action::ReadPower);
    actions.push(Action::ReadFault);
    if r.fault {
        actions.push(Action::Print(Message::PowerFault));
    }
    actions.push(Action::ReadRevision);
    actions
}

/// Appends a refusal.
fn push_refusal(actions: &mut Vec<Action>, message: Message, error: DongleError)
    ensures
        final(actions)@ == old(actions)@ + refusal(message, error),
{
    actions.push(Action::Print(message));
    actions.push(Action::Finish(Err(error)));
}

/// Appends the countdown from `n`.
fn push_countdown(actions: &mut Vec<Action>, n: u8)
    ensures
        final(actions)@ == old(actions)@ + countdown(n),
    decreases n,
{
    if n > 0 {
        actions.push(Action::Print(Message::Countdown(n)));
        actions.push(Action::Sleep(1));
        push_countdown(actions, n - 1);
    }
}

/// Appends what the `status` command does for a header pin.
fn push_status_pin(actions: &mut Vec<Action>, pin: HeaderPin, r: &Readings)
    ensures
        final(actions)@ == old(actions)@ + status_pin(pin, *r),
{
    actions.push(Action::ReadHeaderMode(pin));
    actions.push(Action::ReadHeader(pin));
    match pin {
        HeaderPin::P0 => actions.push(
            Action::Print(Message::HeaderPinStatus(pin, r.mode0, r.state0)),
        ),
        HeaderPin::P1 => actions.push(
            Action::Print(Message::HeaderPinStatus(pin, r.mode1, r.state1)),
        ),
    }
}

/// Appends what the `status` command does for the relay.
fn push_status_relay(actions: &mut Vec<Action>, r: &Readings)
    ensures
        final(actions)@ == old(actions)@ + status_relay(*r),
{
    actions.push(Action::ReadHeaderMode(HeaderPin::P0));
    if r.mode0 == PinMode::Input {
        actions.push(Action::Print(Message::RelayPinIsInput));
    } else {
        actions.push(Action::ReadHeader(HeaderPin::P0));
        if r.state0 == PinState::High {
            actions.push(Action::Print(Message::RelayShort));
        } else {
            actions.push(Action::Print(Message::RelayOpen));
        }
    }
}

/// Appends what the `status` command prints without further reading.
fn push_status_head(actions: &mut Vec<Action>, relay: bool, r: &Readings)
    ensures
        final(actions)@ == old(actions)@ + status_head(relay, *r),
{
    actions.push(Action::Print(Message::DongleSerial));
    actions.push(Action::Print(Message::PowerIs(r.power)));
    actions.push(Action::Print(Message::Revision(r.revision)));
    if relay {
        actions.push(Action::Print(Message::RelayVariant));
    }
}

/// Appends what the `status` command does for the USB switch and the lines to
/// the mixed-signal chip.
fn push_status_lines(actions: &mut Vec<Action>, r: &Readings)
    ensures
        final(actions)@ == old(actions)@ + status_lines(*r),
{
    actions.push(Action::ReadSwitch);
    actions.push(Action::Print(Message::SwitchConnected(r.connected)));
    actions.push(Action::ReadSlg(SlgPin::SlgIo0));
    actions.push(Action::Print(Message::ForcingSdp(r.slg0 == PinState::High)));
    actions.push(Action::ReadSlg(SlgPin::SlgIo1));
    actions.push(Action::Print(Message::ForcingCcDown(r.slg1 == PinState::Low)));
}

/// Appends what the `status` command does.
fn push_status(actions: &mut Vec<Action>, relay: bool, r: &Readings)
    ensures
        final(actions)@ == old(actions)@ + status(relay, *r),
{
    let ghost before = actions@;
    push_status_head(actions, relay, r);
    if r.revision == PcbRevision::RevC {
        push_status_lines(actions, r);
        if relay {
            push_status_relay(actions, r);
        } else {
            push_status_pin(actions, HeaderPin::P0, r);
        }
        push_status_pin(actions, HeaderPin::P1, r);
    }
    let ghost middle = actions@;
    actions.push(Action::Finish(Ok(())));
    assert(actions@ == middle + seq![Action::Finish(Ok(()))]);
    assert(actions@ =~= before + status(relay, *r));
}

/// Appends what a command does on a board that can carry it out.
fn push_supported(actions: &mut Vec<Action>, command: Commands, relay: bool, r: &Readings)
    ensures
        final(actions)@ == old(actions)@ + supported_body(command, relay, *r),
{
    match command {
        Commands::Status => {
            push_status(actions, relay, r);
            return ;
        },
        Commands::On => {
            if r.power {
                actions.push(Action::Print(Message::PowerAlreadyOn));
            } else {
                actions.push(Action::Print(Message::TurningOn));
                actions.push(Action::SetPower(true));
            }
        },
        Commands::Off => {
            if r.power {
                actions.push(Action::Print(Message::TurningOff));
                actions.push(Action::SetPower(false));
            } else {
                actions.push(Action::Print(Message::PowerAlreadyOff));
            }
        },
        Commands::List | Commands::Udev => {},
        Commands::ForceSdp => {
            actions.push(Action::SetSlgMode(SlgPin::SlgIo0, PinMode::Output));
            actions.push(Action::SetSlg(SlgPin::SlgIo0, PinState::High));
        },
        Commands::ReleaseSdp => {
            actions.push(Action::SetSlgMode(SlgPin::SlgIo0, PinMode::Output));
            actions.push(Action::SetSlg(SlgPin::SlgIo0, PinState::Low));
        },
        Commands::Sdp => {
            actions.push(Action::SetSlgMode(SlgPin::SlgIo0, PinMode::Output));
            actions.push(Action::SetSlg(SlgPin::SlgIo0, PinState::High));
            push_countdown(actions, SDP_SECONDS);
            actions.push(Action::SetSlg(SlgPin::SlgIo0, PinState::Low));
        },
        Commands::Attach => {
            actions.push(Action::ConfigureSwitch);
            actions.push(Action::SetSwitch(true));
        },
        Commands::Detach => {
            actions.push(Action::ConfigureSwitch);
            actions.push(Action::SetSwitch(false));
        },
        Commands::FullAttach => {
            actions.push(Action::ConfigureSwitch);
            actions.push(Action::SetSlgMode(SlgPin::SlgIo1, PinMode::Output));
            actions.push(Action::SetPower(true));
            actions.push(Action::SetSwitch(true));
            actions.push(Action::SetSlg(SlgPin::SlgIo1, PinState::High));
        },
        Commands::FullDetach => {
            actions.push(Action::ConfigureSwitch);
            actions.push(Action::SetSlgMode(SlgPin::SlgIo1, PinMode::Output));
            actions.push(Action::SetPower(false));
            actions.push(Action::SetSwitch(false));
            actions.push(Action::SetSlg(SlgPin::SlgIo1, PinState::Low));
        },
        Commands::GpioConfig { pin, mode } => {
            if relay && pin == HeaderPin::P0 && mode == PinMode::Input {
                actions.push(Action::Print(Message::RelayPinToInput));
            }
            actions.push(Action::SetHeaderMode(pin, mode));
        },
        Commands::GpioSet { pin, state } => {
            actions.push(Action::SetHeader(pin, state));
        },
        Commands::GpioGet { pin } => {
            actions.push(Action::ReadHeader(pin));
            match pin {
                HeaderPin::P0 => actions.push(Action::Print(Message::PinLevel(pin, r.state0))),
                HeaderPin::P1 => actions.push(Action::Print(Message::PinLevel(pin, r.state1))),
            }
        },
    }
    actions.push(Action::Finish(Ok(())));
}

/// Everything that a command does to an opened dongle, as a list. Where some
/// of the readings are not known yet, the list is right up to and with the
/// first action that reads one of those.
pub fn script_actions(command: Commands, relay: bool, r: &Readings) -> (actions: Vec<Action>)
    ensures
        actions@ == script(command, relay, *r),
{
    let mut actions = prologue_actions(r);
    if r.revision == PcbRevision::RevAorB {
        match command {
            Commands::On | Commands::Off | Commands::Status | Commands::List | Commands::Udev => {
                push_supported(&mut actions, command, relay, r);
            },
            Commands::Sdp | Commands::ForceSdp | Commands::ReleaseSdp => {
                push_refusal(
                    &mut actions,
                    Message::SdpUnsupported,
                    DongleError::ForceSDPNotSupported,
                );
            },
            Commands::Attach | Commands::Detach => {
                push_refusal(
                    &mut actions,
                    Message::AttachDetachUnsupported,
                    DongleError::AttachDetachNotSupported,
                );
            },
            Commands::FullAttach | Commands::FullDetach => {
                push_refusal(
                    &mut actions,
                    Message::FullAttachDetachUnsupported,
                    DongleError::AttachDetachNotSupported,
                );
            },
            _ => {
                push_refusal(
                    &mut actions,
                    Message::GpioUnsupported,
                    DongleError::GPIONotSupported,
                );
            },
        }
    } else {
        push_supported(&mut actions, command, relay, r);
    }
    actions
}

} // verus!
