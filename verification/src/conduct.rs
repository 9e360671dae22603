//! When a run does what, and in what order.

use vstd::prelude::*;

use crate::command::Commands;
use crate::effects;
use crate::error::DongleError;
use crate::hardware::{HeaderPin, PcbRevision, PinMode, PinState, Readings, SlgPin};
use crate::message::Message;
use crate::script;
use crate::script::Action;

verus! {

/// When a message is printed.
pub open spec fn is_said(
    command: Commands,
    relay: bool,
    r: Readings,
    message: Message,
) -> bool {
    let rev_c = r.revision == PcbRevision::RevC;
    match message {
        Message::PowerFault => r.fault,
        Message::PowerAlreadyOn => command is On && r.power,
        Message::PowerAlreadyOff => command is Off && !r.power,
        Message::TurningOn => command is On && !r.power,
        Message::TurningOff => command is Off && r.power,
        Message::DongleSerial => command is Status,
        Message::PowerIs(on) => command is Status && on == r.power,
        Message::Revision(revision) => command is Status && revision == r.revision,
        Message::RelayVariant => command is Status && relay,
        Message::SwitchConnected(b) => command is Status && rev_c && b == r.connected,
        Message::ForcingSdp(b) => command is Status && rev_c && (b <==> r.slg0 == PinState::High),
        Message::ForcingCcDown(b) => command is Status && rev_c && (b <==> r.slg1
            == PinState::Low),
        Message::RelayPinIsInput => command is Status && rev_c && relay && r.mode0
            == PinMode::Input,
        Message::RelayShort => command is Status && rev_c && relay && r.mode0 == PinMode::Output
            && r.state0 == PinState::High,
        Message::RelayOpen => command is Status && rev_c && relay && r.mode0 == PinMode::Output
            && r.state0 == PinState::Low,
        Message::HeaderPinStatus(HeaderPin::P0, mode, state) => command is Status && rev_c
            && !relay && mode == r.mode0 && state == r.state0,
        Message::HeaderPinStatus(HeaderPin::P1, mode, state) => command is Status && rev_c && mode
            == r.mode1 && state == r.state1,
        Message::SdpUnsupported => !rev_c && (command is Sdp || command is ForceSdp
            || command is ReleaseSdp),
        Message::AttachDetachUnsupported => !rev_c && (command is Attach || command is Detach),
        Message::FullAttachDetachUnsupported => !rev_c && (command is FullAttach
            || command is FullDetach),
        Message::GpioUnsupported => !rev_c && (command is GpioConfig || command is GpioSet
            || command is GpioGet),
        Message::Countdown(n) => rev_c && command is Sdp && 1 <= n <= 10,
        Message::RelayPinToInput => rev_c && relay && command == (Commands::GpioConfig {
            pin: HeaderPin::P0,
            mode: PinMode::Input,
        }),
        Message::PinLevel(HeaderPin::P0, state) => rev_c && command == (Commands::GpioGet {
            pin: HeaderPin::P0,
        }) && state == r.state0,
        Message::PinLevel(HeaderPin::P1, state) => rev_c && command == (Commands::GpioGet {
            pin: HeaderPin::P1,
        }) && state == r.state1,
    }
}

/// When something is written to a dongle.
pub open spec fn is_done(command: Commands, r: Readings, action: Action) -> bool {
    let rev_c = r.revision == PcbRevision::RevC;
    match action {
        Action::SetPower(true) => (command is On && !r.power) || (rev_c && command is FullAttach),
        Action::SetPower(false) => (command is Off && r.power) || (rev_c && command is FullDetach),
        Action::SetSlgMode(SlgPin::SlgIo0, mode) => rev_c && mode == PinMode::Output && (
        command is Sdp || command is ForceSdp || command is ReleaseSdp),
        Action::SetSlgMode(SlgPin::SlgIo1, mode) => rev_c && mode == PinMode::Output && (
        command is FullAttach || command is FullDetach),
        Action::SetSlg(SlgPin::SlgIo0, PinState::High) => rev_c && (command is Sdp
            || command is ForceSdp),
        Action::SetSlg(SlgPin::SlgIo0, PinState::Low) => rev_c && (command is Sdp
            || command is ReleaseSdp),
        Action::SetSlg(SlgPin::SlgIo1, PinState::High) => rev_c && command is FullAttach,
        Action::SetSlg(SlgPin::SlgIo1, PinState::Low) => rev_c && command is FullDetach,
        Action::ConfigureSwitch => rev_c && (command is Attach || command is Detach
            || command is FullAttach || command is FullDetach),
        Action::SetSwitch(true) => rev_c && (command is Attach || command is FullAttach),
        Action::SetSwitch(false) => rev_c && (command is Detach || command is FullDetach),
        Action::SetHeaderMode(pin, mode) => rev_c && command == (Commands::GpioConfig {
            pin,
            mode,
        }),
        Action::SetHeader(pin, state) => rev_c && command == (Commands::GpioSet { pin, state }),
        _ => false,
    }
}

/// When a value is read from a dongle.
pub open spec fn is_asked(command: Commands, relay: bool, r: Readings, action: Action) -> bool {
    let rev_c = r.revision == PcbRevision::RevC;
    match action {
        Action::ReadPower | Action::ReadFault | Action::ReadRevision => true,
        Action::ReadSwitch | Action::ReadSlg(_) | Action::ReadHeaderMode(_) => {
            rev_c && command is Status
        },
        Action::ReadHeader(HeaderPin::P0) => rev_c && (command == (Commands::GpioGet {
            pin: HeaderPin::P0,
        }) || (command is Status && (!relay || r.mode0 == PinMode::Output))),
        Action::ReadHeader(HeaderPin::P1) => rev_c && (command == (Commands::GpioGet {
            pin: HeaderPin::P1,
        }) || command is Status),
        _ => false,
    }
}

/// When a run ends with a result.
pub open spec fn is_result(
    command: Commands,
    r: Readings,
    result: Result<(), DongleError>,
) -> bool {
    let rev_c = r.revision == PcbRevision::RevC;
    match result {
        Ok(_) => rev_c || command is On || command is Off || command is Status || command is List
            || command is Udev,
        Err(DongleError::ForceSDPNotSupported) => !rev_c && (command is Sdp || command is ForceSdp
            || command is ReleaseSdp),
        Err(DongleError::AttachDetachNotSupported) => !rev_c && (command is Attach
            || command is Detach || command is FullAttach || command is FullDetach),
        Err(DongleError::GPIONotSupported) => !rev_c && (command is GpioConfig
            || command is GpioSet || command is GpioGet),
        Err(_) => false,
    }
}

/// When a run does something.
pub open spec fn happens(command: Commands, relay: bool, r: Readings, action: Action) -> bool {
    match action {
        Action::Print(message) => is_said(command, relay, r, message),
        Action::Sleep(n) => r.revision == PcbRevision::RevC && command is Sdp && n == 1,
        Action::Finish(result) => is_result(command, r, result),
        _ => is_done(command, r, action) || is_asked(command, relay, r, action),
    }
}

/// A run that ends well has nothing more to say.
proof fn good_end(a: Action)
    ensures
        a matches Action::Finish(result) && result is Ok ==> a == Action::Finish(Ok(())),
{
    if let Action::Finish(Ok(nothing)) = a {
        assert(nothing == ());
    }
}

/// What short sequences hold.
proof fn members(s: Seq<Action>, a: Action)
    ensures
        s.len() == 1 ==> (s.contains(a) <==> a == s[0]),
        s.len() == 2 ==> (s.contains(a) <==> a == s[0] || a == s[1]),
        s.len() == 3 ==> (s.contains(a) <==> a == s[0] || a == s[1] || a == s[2]),
        s.len() == 4 ==> (s.contains(a) <==> a == s[0] || a == s[1] || a == s[2] || a == s[3]),
        s.len() == 6 ==> (s.contains(a) <==> a == s[0] || a == s[1] || a == s[2] || a == s[3] || a
            == s[4] || a == s[5]),
{
    if s.contains(a) {
        let i = choose|i: int| 0 <= i < s.len() && s[i] == a;
        assert(s[i] == a);
    }
    if s.len() > 0 {
        assert(s.contains(s[0]));
    }
}

/// What two sequences, one after the other, hold.
proof fn members_of_both(s: Seq<Action>, t: Seq<Action>, a: Action)
    ensures
        (s + t).contains(a) <==> s.contains(a) || t.contains(a),
{
    if s.contains(a) {
        let i = choose|i: int| 0 <= i < s.len() && s[i] == a;
        assert((s + t)[i] == a);
    }
    if t.contains(a) {
        let i = choose|i: int| 0 <= i < t.len() && t[i] == a;
        assert((s + t)[s.len() + i] == a);
    }
    if (s + t).contains(a) {
        let i = choose|i: int| 0 <= i < (s + t).len() && (s + t)[i] == a;
        if i < s.len() {
            assert(s[i] == a);
        } else {
            assert(t[i - s.len()] == a);
        }
    }
}

/// What a countdown holds.
proof fn members_of_countdown(n: u8, a: Action)
    ensures
        script::countdown(n).contains(a) <==> n > 0 && (a == Action::Sleep(1) || (
        a matches Action::Print(Message::Countdown(k)) && 1 <= k <= n)),
    decreases n,
{
    if n > 0 {
        let m = (n - 1) as u8;
        let head = seq![Action::Print(Message::Countdown(n)), Action::Sleep(1)];
        members_of_countdown(m, a);
        members(head, a);
        members_of_both(head, script::countdown(m), a);
    }
}

/// What the prologue holds.
proof fn members_of_prologue(r: Readings, a: Action)
    ensures
        script::prologue(r).contains(a) <==> a is ReadPower || a is ReadFault || a is ReadRevision
            || (a == Action::Print(Message::PowerFault) && r.fault),
{
    members(script::prologue(r), a);
}

/// What the body of the `status` command holds.
proof fn members_of_status(relay: bool, r: Readings, a: Action)
    ensures
        script::status(relay, r).contains(a) <==> called_for_past_prologue(
            Commands::Status,
            relay,
            r,
            a,
        ),
{
    good_end(a);
    let head = script::status_head(relay, r);
    let lines = script::status_lines(r);
    let first = if relay {
        script::status_relay(r)
    } else {
        script::status_pin(HeaderPin::P0, r)
    };
    let second = script::status_pin(HeaderPin::P1, r);
    let end = seq![Action::Finish(Ok(()))];
    members(head, a);
    members(end, a);
    if r.revision == PcbRevision::RevC {
        members(lines, a);
        members(first, a);
        members(second, a);
        members_of_both(head, lines, a);
        members_of_both(head + lines, first, a);
        members_of_both(head + lines + first, second, a);
        members_of_both(head + lines + first + second, end, a);
    } else {
        members_of_both(head, end, a);
    }
}

/// What the body of the `sdp` command holds.
proof fn members_of_sdp(relay: bool, r: Readings, a: Action)
    requires
        r.revision == PcbRevision::RevC,
    ensures
        script::body(Commands::Sdp, relay, r).contains(a) <==> called_for_past_prologue(
            Commands::Sdp,
            relay,
            r,
            a,
        ),
{
    good_end(a);
    let head = seq![
        Action::SetSlgMode(SlgPin::SlgIo0, PinMode::Output),
        Action::SetSlg(SlgPin::SlgIo0, PinState::High),
    ];
    let c = script::countdown(script::SDP_SECONDS);
    let tail = seq![Action::SetSlg(SlgPin::SlgIo0, PinState::Low), Action::Finish(Ok(()))];
    members(head, a);
    members(tail, a);
    members_of_countdown(script::SDP_SECONDS, a);
    members_of_both(head, c, a);
    members_of_both(head + c, tail, a);
}

/// When something happens once the prologue is over.
spec fn called_for_past_prologue(
    command: Commands,
    relay: bool,
    r: Readings,
    a: Action,
) -> bool {
    &&& happens(command, relay, r, a)
    &&& !(a is ReadPower || a is ReadFault || a is ReadRevision)
    &&& a != Action::Print(Message::PowerFault)
}

/// What a refusal holds.
proof fn members_of_refusal(command: Commands, relay: bool, r: Readings, a: Action)
    requires
        r.revision == PcbRevision::RevAorB,
        command.needs_rev_c(),
    ensures
        script::body(command, relay, r).contains(a) <==> called_for_past_prologue(
            command,
            relay,
            r,
            a,
        ),
{
    good_end(a);
    members(script::body(command, relay, r), a);
}

/// What the bodies of the power commands, `list` and `udev` hold.
proof fn members_of_power(command: Commands, relay: bool, r: Readings, a: Action)
    requires
        command is On || command is Off || command is List || command is Udev,
    ensures
        script::body(command, relay, r).contains(a) <==> called_for_past_prologue(
            command,
            relay,
            r,
            a,
        ),
{
    good_end(a);
    members(script::body(command, relay, r), a);
}

/// What the bodies of the commands for lines and switch hold.
proof fn members_of_lines(command: Commands, relay: bool, r: Readings, a: Action)
    requires
        r.revision == PcbRevision::RevC,
        command is ForceSdp || command is ReleaseSdp || command is Attach || command is Detach,
    ensures
        script::body(command, relay, r).contains(a) <==> called_for_past_prologue(
            command,
            relay,
            r,
            a,
        ),
{
    good_end(a);
    members(script::body(command, relay, r), a);
}

/// What the bodies of the commands that emulate a cable hold.
proof fn members_of_cable(command: Commands, relay: bool, r: Readings, a: Action)
    requires
        r.revision == PcbRevision::RevC,
        command is FullAttach || command is FullDetach,
    ensures
        script::body(command, relay, r).contains(a) <==> called_for_past_prologue(
            command,
            relay,
            r,
            a,
        ),
{
    good_end(a);
    members(script::body(command, relay, r), a);
}

/// What the bodies of the commands for header pins hold.
proof fn members_of_header(command: Commands, relay: bool, r: Readings, a: Action)
    requires
        r.revision == PcbRevision::RevC,
        command is GpioConfig || command is GpioSet || command is GpioGet,
    ensures
        script::body(command, relay, r).contains(a) <==> called_for_past_prologue(
            command,
            relay,
            r,
            a,
        ),
{
    good_end(a);
    members(script::body(command, relay, r), a);
}

/// What the body of a command holds.
proof fn members_of_body(command: Commands, relay: bool, r: Readings, a: Action)
    ensures
        script::body(command, relay, r).contains(a) <==> called_for_past_prologue(
            command,
            relay,
            r,
            a,
        ),
{
    if r.revision == PcbRevision::RevAorB && command.needs_rev_c() {
        members_of_refusal(command, relay, r, a);
    } else {
        match command {
            Commands::Status => members_of_status(relay, r, a),
            Commands::Sdp => members_of_sdp(relay, r, a),
            Commands::On | Commands::Off | Commands::List | Commands::Udev => members_of_power(
                command,
                relay,
                r,
                a,
            ),
            Commands::ForceSdp
            | Commands::ReleaseSdp
            | Commands::Attach
            | Commands::Detach => members_of_lines(command, relay, r, a),
            Commands::FullAttach | Commands::FullDetach => members_of_cable(command, relay, r, a),
            _ => members_of_header(command, relay, r, a),
        }
    }
}

/// A run does something exactly where its command, the variant and revision of
/// the dongle and what was read call for it.
pub proof fn actions_happen_when_called_for(
    command: Commands,
    relay: bool,
    r: Readings,
    action: Action,
)
    ensures
        script::script(command, relay, r).contains(action) <==> happens(
            command,
            relay,
            r,
            action,
        ),
{
    members_of_prologue(r, action);
    members_of_body(command, relay, r, action);
    members_of_both(script::prologue(r), script::body(command, relay, r), action);
}

/// Where in a run an action stands, among those that it can stand with: the
/// readings that every run takes, then what `status` reads and prints, then
/// announcements, then what is written, then the end. Waits have no place of
/// their own.
pub open spec fn stage(action: Action) -> int {
    match action {
        Action::ReadPower => 0,
        Action::ReadFault => 1,
        Action::Print(Message::PowerFault) => 2,
        Action::ReadRevision => 3,
        Action::Print(Message::DongleSerial) => 10,
        Action::Print(Message::PowerIs(_)) => 11,
        Action::Print(Message::Revision(_)) => 12,
        Action::Print(Message::RelayVariant) => 13,
        Action::ReadSwitch => 14,
        Action::Print(Message::SwitchConnected(_)) => 15,
        Action::ReadSlg(SlgPin::SlgIo0) => 16,
        Action::Print(Message::ForcingSdp(_)) => 17,
        Action::ReadSlg(SlgPin::SlgIo1) => 18,
        Action::Print(Message::ForcingCcDown(_)) => 19,
        Action::ReadHeaderMode(HeaderPin::P0) => 20,
        Action::ReadHeader(HeaderPin::P0) => 21,
        Action::Print(Message::RelayPinIsInput) => 22,
        Action::Print(Message::RelayShort) => 22,
        Action::Print(Message::RelayOpen) => 22,
        Action::Print(Message::HeaderPinStatus(HeaderPin::P0, _, _)) => 22,
        Action::Print(Message::PinLevel(HeaderPin::P0, _)) => 22,
        Action::ReadHeaderMode(HeaderPin::P1) => 23,
        Action::ReadHeader(HeaderPin::P1) => 24,
        Action::Print(Message::HeaderPinStatus(HeaderPin::P1, _, _)) => 25,
        Action::Print(Message::PinLevel(HeaderPin::P1, _)) => 25,
        Action::Print(Message::Countdown(n)) => 300 - n,
        Action::Print(_) => 30,
        Action::ConfigureSwitch => 31,
        Action::SetSlgMode(_, _) => 32,
        Action::SetPower(_) => 33,
        Action::SetSwitch(_) => 34,
        Action::SetSlg(_, PinState::High) => 35,
        Action::SetSlg(_, PinState::Low) => 300,
        Action::SetHeaderMode(_, _) => 301,
        Action::SetHeader(_, _) => 302,
        Action::Sleep(_) => 0,
        Action::Finish(_) => 400,
    }
}

/// Whether the actions of a sequence, but for waits, come in the order of their
/// stages, each of them from `low` on and before `high`.
spec fn staged(s: Seq<Action>, low: int, high: int) -> bool {
    &&& forall|i: int|
        0 <= i < s.len() && !(#[trigger] s[i] is Sleep) ==> low <= stage(s[i]) < high
    &&& forall|i: int, j: int|
        0 <= i < j < s.len() && !(#[trigger] s[i] is Sleep) && !(#[trigger] s[j] is Sleep)
            ==> stage(s[i]) < stage(s[j])
}

/// A short sequence is in order where each action comes before the next.
proof fn short_is_staged(s: Seq<Action>, low: int, high: int)
    requires
        0 < s.len() <= 6,
        low <= stage(s[0]),
        s.len() > 1 ==> stage(s[0]) < stage(s[1]),
        s.len() > 2 ==> stage(s[1]) < stage(s[2]),
        s.len() > 3 ==> stage(s[2]) < stage(s[3]),
        s.len() > 4 ==> stage(s[3]) < stage(s[4]),
        s.len() > 5 ==> stage(s[4]) < stage(s[5]),
        stage(s[s.len() - 1]) < high,
    ensures
        staged(s, low, high),
{
    let n = s.len() as int;
    assert forall|i: int, j: int| 0 <= i < j < n implies stage(#[trigger] s[i]) < stage(
        #[trigger] s[j],
    ) by {
        assert(i == 0 || i == 1 || i == 2 || i == 3 || i == 4);
        assert(j == 1 || j == 2 || j == 3 || j == 4 || j == 5);
    }
    assert forall|i: int| 0 <= i < n implies low <= stage(#[trigger] s[i]) < high by {
        assert(i == 0 || stage(s[0]) < stage(s[i]));
        assert(i == n - 1 || stage(s[i]) < stage(s[n - 1]));
    }
}

/// Two sequences in order, the second after the first.
proof fn both_are_staged(a: Seq<Action>, b: Seq<Action>, low: int, middle: int, high: int)
    requires
        staged(a, low, middle),
        staged(b, middle, high),
        low <= middle <= high,
    ensures
        staged(a + b, low, high),
{
    let s = a + b;
    let n = a.len() as int;
    assert(forall|i: int| 0 <= i < n ==> #[trigger] s[i] == a[i]);
    assert(forall|i: int| n <= i < s.len() ==> #[trigger] s[i] == b[i - n]);
    assert forall|i: int, j: int|
        0 <= i < j < s.len() && !(#[trigger] s[i] is Sleep) && !(#[trigger] s[j] is Sleep) implies stage(
        s[i],
    ) < stage(s[j]) by {
        if j < n {
            assert(stage(a[i]) < stage(a[j]));
        } else if i >= n {
            assert(stage(b[i - n]) < stage(b[j - n]));
        } else {
            assert(stage(a[i]) < middle);
            assert(middle <= stage(b[j - n]));
        }
    }
}

/// A countdown is in order.
proof fn countdown_is_staged(n: u8)
    ensures
        staged(script::countdown(n), 300 - n, 300),
    decreases n,
{
    if n > 0 {
        let m = (n - 1) as u8;
        countdown_is_staged(m);
        let head = seq![Action::Print(Message::Countdown(n)), Action::Sleep(1)];
        assert(staged(head, 300 - n, 300 - m));
        both_are_staged(head, script::countdown(m), 300 - n, 300 - m, 300);
    }
}

/// What the `status` command does is in order.
proof fn status_is_staged(relay: bool, r: Readings)
    ensures
        staged(script::status(relay, r), 4, 401),
{
    let head = script::status_head(relay, r);
    let lines = script::status_lines(r);
    let first = if relay {
        script::status_relay(r)
    } else {
        script::status_pin(HeaderPin::P0, r)
    };
    let second = script::status_pin(HeaderPin::P1, r);
    let end = seq![Action::Finish(Ok(()))];
    short_is_staged(head, 4, 14);
    short_is_staged(end, 26, 401);
    if r.revision == PcbRevision::RevC {
        short_is_staged(lines, 14, 20);
        short_is_staged(first, 20, 23);
        short_is_staged(second, 23, 26);
        both_are_staged(head, lines, 4, 14, 20);
        both_are_staged(head + lines, first, 4, 20, 23);
        both_are_staged(head + lines + first, second, 4, 23, 26);
        both_are_staged(head + lines + first + second, end, 4, 26, 401);
    } else {
        short_is_staged(end, 14, 401);
        both_are_staged(head, end, 4, 14, 401);
    }
}

/// What the `sdp` command does is in order.
proof fn sdp_is_staged(relay: bool, r: Readings)
    requires
        r.revision == PcbRevision::RevC,
    ensures
        staged(script::body(Commands::Sdp, relay, r), 4, 401),
{
    let head = seq![
        Action::SetSlgMode(SlgPin::SlgIo0, PinMode::Output),
        Action::SetSlg(SlgPin::SlgIo0, PinState::High),
    ];
    let c = script::countdown(script::SDP_SECONDS);
    let tail = seq![Action::SetSlg(SlgPin::SlgIo0, PinState::Low), Action::Finish(Ok(()))];
    short_is_staged(head, 4, 290);
    countdown_is_staged(script::SDP_SECONDS);
    short_is_staged(tail, 300, 401);
    both_are_staged(head, c, 4, 290, 300);
    both_are_staged(head + c, tail, 4, 300, 401);
}

/// What a run does is in order: of two actions of which neither is a wait, the
/// one of the lower stage comes first. So no action but a wait comes twice.
pub proof fn actions_come_in_order(command: Commands, relay: bool, r: Readings, i: int, j: int)
    requires
        0 <= i < j < script::script(command, relay, r).len(),
        !(script::script(command, relay, r)[i] is Sleep),
        !(script::script(command, relay, r)[j] is Sleep),
    ensures
        stage(script::script(command, relay, r)[i]) < stage(script::script(command, relay, r)[j]),
{
    script_is_staged(command, relay, r);
}

/// What a run does is in order.
proof fn script_is_staged(command: Commands, relay: bool, r: Readings)
    ensures
        staged(script::script(command, relay, r), 0, 401),
{
    let p = script::prologue(r);
    let b = script::body(command, relay, r);
    short_is_staged(p, 0, 4);
    body_is_staged(command, relay, r);
    both_are_staged(p, b, 0, 4, 401);
}

/// A refusal is in order.
proof fn refusal_is_staged(command: Commands, relay: bool, r: Readings)
    requires
        r.revision == PcbRevision::RevAorB,
        command.needs_rev_c(),
    ensures
        staged(script::body(command, relay, r), 4, 401),
{
    let b = script::body(command, relay, r);
    assert(b.len() == 2 && stage(b[0]) == 30 && stage(b[1]) == 400);
    short_is_staged(b, 4, 401);
}

/// What the power commands, `list` and `udev` do is in order.
proof fn power_is_staged(command: Commands, relay: bool, r: Readings)
    requires
        command is On || command is Off || command is List || command is Udev,
    ensures
        staged(script::body(command, relay, r), 4, 401),
{
    short_is_staged(script::body(command, relay, r), 4, 401);
}

/// What the commands for lines and switch do is in order.
proof fn lines_are_staged(command: Commands, relay: bool, r: Readings)
    requires
        r.revision == PcbRevision::RevC,
        command is ForceSdp || command is ReleaseSdp || command is Attach || command is Detach,
    ensures
        staged(script::body(command, relay, r), 4, 401),
{
    short_is_staged(script::body(command, relay, r), 4, 401);
}

/// What the commands that emulate a cable do is in order.
proof fn cable_is_staged(command: Commands, relay: bool, r: Readings)
    requires
        r.revision == PcbRevision::RevC,
        command is FullAttach || command is FullDetach,
    ensures
        staged(script::body(command, relay, r), 4, 401),
{
    short_is_staged(script::body(command, relay, r), 4, 401);
}

/// What the commands for header pins do is in order.
proof fn header_is_staged(command: Commands, relay: bool, r: Readings)
    requires
        r.revision == PcbRevision::RevC,
        command is GpioConfig || command is GpioSet || command is GpioGet,
    ensures
        staged(script::body(command, relay, r), 4, 401),
{
    short_is_staged(script::body(command, relay, r), 4, 401);
}

/// What a command does once the prologue is over is in order.
proof fn body_is_staged(command: Commands, relay: bool, r: Readings)
    ensures
        staged(script::body(command, relay, r), 4, 401),
{
    if r.revision == PcbRevision::RevAorB && command.needs_rev_c() {
        refusal_is_staged(command, relay, r);
    } else {
        match command {
            Commands::Status => status_is_staged(relay, r),
            Commands::Sdp => sdp_is_staged(relay, r),
            Commands::On | Commands::Off | Commands::List | Commands::Udev => power_is_staged(
                command,
                relay,
                r,
            ),
            Commands::ForceSdp
            | Commands::ReleaseSdp
            | Commands::Attach
            | Commands::Detach => lines_are_staged(command, relay, r),
            Commands::FullAttach | Commands::FullDetach => cable_is_staged(command, relay, r),
            _ => header_is_staged(command, relay, r),
        }
    }
}

/// A run waits directly after it has printed how many seconds are left, and
/// nowhere else.
pub proof fn waits_follow_the_countdown(command: Commands, relay: bool, r: Readings, k: int)
    requires
        0 <= k < script::script(command, relay, r).len(),
    ensures
        script::script(command, relay, r)[k] is Sleep <==> k > 0 && (script::script(
            command,
            relay,
            r,
        )[k - 1] matches Action::Print(Message::Countdown(_))),
{
    let s = script::script(command, relay, r);
    assert(s.contains(s[k]));
    actions_happen_when_called_for(command, relay, r, s[k]);
    if k > 0 {
        assert(s.contains(s[k - 1]));
        actions_happen_when_called_for(command, relay, r, s[k - 1]);
    }
    if command is Sdp && r.revision == PcbRevision::RevC {
        let n = script::prologue(r).len() + 2;
        let c = script::countdown(script::SDP_SECONDS);
        script::countdown_counts(script::SDP_SECONDS);
        if n <= k < n + c.len() {
            assert(s[k] == c[k - n]);
        }
        if n <= k - 1 < n + c.len() {
            assert(s[k - 1] == c[k - 1 - n]);
        }
    }
}

/// Whoever sets the level of a line to the mixed-signal chip has made the line an
/// output before, and nothing has changed its mode since.
pub proof fn levels_are_set_on_outputs(command: Commands, relay: bool, r: Readings, k: int)
    requires
        0 <= k < script::script(command, relay, r).len(),
    ensures
        ({
            let s = script::script(command, relay, r);
            s[k] matches Action::SetSlg(pin, _) ==> exists|i: int|
                #![trigger s[i]]
                {
                    &&& 0 <= i < k
                    &&& s[i] == Action::SetSlgMode(pin, PinMode::Output)
                    &&& forall|j: int|
                        i < j < k ==> !(#[trigger] s[j] matches Action::SetSlgMode(line, _) && line
                            == pin)
                }
        }),
{
    let s = script::script(command, relay, r);
    if let Action::SetSlg(pin, _) = s[k] {
        let output = Action::SetSlgMode(pin, PinMode::Output);
        assert(s.contains(s[k]));
        actions_happen_when_called_for(command, relay, r, s[k]);
        actions_happen_when_called_for(command, relay, r, output);
        let i = choose|i: int| 0 <= i < s.len() && s[i] == output;
        script_is_staged(command, relay, r);
        assert(s[i] == output);
        assert(i < k);
        assert forall|j: int| i < j < k implies !(#[trigger] s[j] matches Action::SetSlgMode(
            line,
            _,
        ) && line == pin) by {
            if s[j] is SetSlgMode {
                assert(stage(s[i]) < stage(s[j]));
            }
        }
    }
}

/// No run makes a line to the mixed-signal chip an input.
pub proof fn lines_are_never_made_inputs(command: Commands, relay: bool, r: Readings, k: int)
    requires
        0 <= k < script::script(command, relay, r).len(),
    ensures
        script::script(command, relay, r)[k] matches Action::SetSlgMode(_, mode) ==> mode
            == PinMode::Output,
{
    let s = script::script(command, relay, r);
    assert(s.contains(s[k]));
    actions_happen_when_called_for(command, relay, r, s[k]);
}

/// Whoever connects or disconnects the USB data lines has configured the switch
/// before.
pub proof fn switch_is_configured_before_use(
    command: Commands,
    relay: bool,
    r: Readings,
    k: int,
)
    requires
        0 <= k < script::script(command, relay, r).len(),
        script::script(command, relay, r)[k] is SetSwitch,
    ensures
        exists|i: int|
            0 <= i < k && #[trigger] script::script(command, relay, r)[i]
                == Action::ConfigureSwitch,
{
    let s = script::script(command, relay, r);
    assert(s.contains(s[k]));
    actions_happen_when_called_for(command, relay, r, s[k]);
    actions_happen_when_called_for(command, relay, r, Action::ConfigureSwitch);
    let i = choose|i: int| 0 <= i < s.len() && s[i] == Action::ConfigureSwitch;
    assert(s[i] == Action::ConfigureSwitch);
    script_is_staged(command, relay, r);
    assert(i < k);
}

/// A dongle with what can be read from it, the modes of the two lines to the
/// mixed-signal chip, and whether the control line of the USB switch is an
/// output.
pub struct Board {
    pub readings: Readings,
    pub slg_mode0: PinMode,
    pub slg_mode1: PinMode,
    pub switch_driven: bool,
}

impl Board {
    /// The mode of a line to the mixed-signal chip.
    pub open spec fn slg_mode(self, pin: SlgPin) -> PinMode {
        match pin {
            SlgPin::SlgIo0 => self.slg_mode0,
            SlgPin::SlgIo1 => self.slg_mode1,
        }
    }
}

/// A dongle after a sequence of actions.
pub open spec fn driven(actions: Seq<Action>, board: Board) -> Board
    decreases actions.len(),
{
    if actions.len() == 0 {
        board
    } else {
        let before = driven(actions.drop_last(), board);
        match actions.last() {
            Action::SetSlgMode(SlgPin::SlgIo0, slg_mode0) => Board { slg_mode0, ..before },
            Action::SetSlgMode(SlgPin::SlgIo1, slg_mode1) => Board { slg_mode1, ..before },
            Action::ConfigureSwitch => Board { switch_driven: true, ..before },
            action => Board { readings: effects::write(action, before.readings), ..before },
        }
    }
}

/// What a sequence that makes no line an input leaves behind.
proof fn outputs_stay(actions: Seq<Action>, board: Board, pin: SlgPin)
    requires
        forall|i: int|
            0 <= i < actions.len() ==> (#[trigger] actions[i] matches Action::SetSlgMode(_, mode)
                ==> mode == PinMode::Output),
    ensures
        driven(actions, board).slg_mode(pin) == (if actions.contains(
            Action::SetSlgMode(pin, PinMode::Output),
        ) {
            PinMode::Output
        } else {
            board.slg_mode(pin)
        }),
        driven(actions, board).switch_driven == (board.switch_driven || actions.contains(
            Action::ConfigureSwitch,
        )),
        driven(actions, board).readings == effects::written(actions, board.readings),
    decreases actions.len(),
{
    if actions.len() > 0 {
        let rest = actions.drop_last();
        let end = seq![actions.last()];
        outputs_stay(rest, board, pin);
        assert(rest + end =~= actions);
        let output = Action::SetSlgMode(pin, PinMode::Output);
        members_of_both(rest, end, output);
        members(end, output);
        members_of_both(rest, end, Action::ConfigureSwitch);
        members(end, Action::ConfigureSwitch);
    }
}

/// A run leaves the two lines to the mixed-signal chip as outputs where it sets
/// their levels, and as they were where it does not: the first where its command
/// is about SDP mode, the second where its command emulates a cable. It leaves the
/// switch's control line an output where it sets the switch. What can be read is
/// left as the command names it.
pub proof fn lines_settle(command: Commands, relay: bool, board: Board)
    ensures
        ({
            let after = driven(script::script(command, relay, board.readings), board);
            let rev_c = board.readings.revision == PcbRevision::RevC;
            &&& after.slg_mode0 == (if rev_c && (command is Sdp || command is ForceSdp
                || command is ReleaseSdp) {
                PinMode::Output
            } else {
                board.slg_mode0
            })
            &&& after.slg_mode1 == (if rev_c && (command is FullAttach || command is FullDetach) {
                PinMode::Output
            } else {
                board.slg_mode1
            })
            &&& after.switch_driven == (board.switch_driven || (rev_c && (command is Attach
                || command is Detach || command is FullAttach || command is FullDetach)))
            &&& after.readings == effects::settled(command, board.readings)
        }),
{
    let r = board.readings;
    let s = script::script(command, relay, r);
    assert forall|i: int| 0 <= i < s.len() implies (#[trigger] s[i] matches Action::SetSlgMode(
        _,
        mode,
    ) ==> mode == PinMode::Output) by {
        lines_are_never_made_inputs(command, relay, r, i);
    }
    outputs_stay(s, board, SlgPin::SlgIo0);
    outputs_stay(s, board, SlgPin::SlgIo1);
    actions_happen_when_called_for(
        command,
        relay,
        r,
        Action::SetSlgMode(SlgPin::SlgIo0, PinMode::Output),
    );
    actions_happen_when_called_for(
        command,
        relay,
        r,
        Action::SetSlgMode(SlgPin::SlgIo1, PinMode::Output),
    );
    actions_happen_when_called_for(command, relay, r, Action::ConfigureSwitch);
    effects::commands_settle(command, relay, r);
}

/// Two lines that were made outputs stay outputs, whatever the command.
pub proof fn outputs_are_kept(command: Commands, relay: bool, board: Board, pin: SlgPin)
    requires
        board.slg_mode(pin) == PinMode::Output,
    ensures
        driven(script::script(command, relay, board.readings), board).slg_mode(pin)
            == PinMode::Output,
{
    lines_settle(command, relay, board);
}

/// On a board of either revision the `status` command prints whether power is on
/// as it was read, and never the opposite. No other command prints it.
pub proof fn status_prints_power_as_read(command: Commands, relay: bool, r: Readings)
    ensures
        script::script(Commands::Status, relay, r).contains(
            Action::Print(Message::PowerIs(r.power)),
        ),
        !script::script(command, relay, r).contains(Action::Print(Message::PowerIs(!r.power))),
        !(command is Status) ==> forall|on: bool|
            !#[trigger] script::script(command, relay, r).contains(
                Action::Print(Message::PowerIs(on)),
            ),
{
    actions_happen_when_called_for(
        Commands::Status,
        relay,
        r,
        Action::Print(Message::PowerIs(r.power)),
    );
    actions_happen_when_called_for(command, relay, r, Action::Print(Message::PowerIs(!r.power)));
    actions_happen_when_called_for(command, relay, r, Action::Print(Message::PowerIs(r.power)));
    assert forall|on: bool| !(command is Status) implies !#[trigger] script::script(
        command,
        relay,
        r,
    ).contains(Action::Print(Message::PowerIs(on))) by {
        actions_happen_when_called_for(command, relay, r, Action::Print(Message::PowerIs(on)));
    }
}

/// Every value that the `status` command prints is the value that was read: a
/// line with any other value is not printed.
pub proof fn status_prints_values_as_read(relay: bool, r: Readings, k: int)
    requires
        0 <= k < script::script(Commands::Status, relay, r).len(),
    ensures
        match script::script(Commands::Status, relay, r)[k] {
            Action::Print(Message::PowerIs(on)) => on == r.power,
            Action::Print(Message::Revision(revision)) => revision == r.revision,
            Action::Print(Message::SwitchConnected(connected)) => connected == r.connected,
            Action::Print(Message::ForcingSdp(forced)) => forced <==> r.slg0 == PinState::High,
            Action::Print(Message::ForcingCcDown(down)) => down <==> r.slg1 == PinState::Low,
            Action::Print(Message::RelayShort) => r.mode0 == PinMode::Output && r.state0
                == PinState::High,
            Action::Print(Message::RelayOpen) => r.mode0 == PinMode::Output && r.state0
                == PinState::Low,
            Action::Print(Message::RelayPinIsInput) => r.mode0 == PinMode::Input,
            Action::Print(Message::HeaderPinStatus(HeaderPin::P0, mode, state)) => mode == r.mode0
                && state == r.state0,
            Action::Print(Message::HeaderPinStatus(HeaderPin::P1, mode, state)) => mode == r.mode1
                && state == r.state1,
            _ => true,
        },
{
    let s = script::script(Commands::Status, relay, r);
    assert(s.contains(s[k]));
    actions_happen_when_called_for(Commands::Status, relay, r, s[k]);
}

/// Every run starts by reading power, then fault, then, where there is a fault,
/// saying so, then by reading the revision.
pub proof fn runs_start_with_readings(command: Commands, relay: bool, r: Readings)
    ensures
        ({
            let s = script::script(command, relay, r);
            &&& s.len() > 3
            &&& s[0] == Action::ReadPower
            &&& s[1] == Action::ReadFault
            &&& r.fault ==> s[2] == Action::Print(Message::PowerFault) && s[3]
                == Action::ReadRevision
            &&& !r.fault ==> s[2] == Action::ReadRevision
        }),
{
    assert(script::body(command, relay, r).len() > 0) by {
        let end = Action::Finish(script_result(command, r));
        members_of_body(command, relay, r, end);
        let b = script::body(command, relay, r);
        assert(b.contains(end));
        let i = choose|i: int| 0 <= i < b.len() && b[i] == end;
        assert(b[i] == end);
    }
}

/// The result of a run.
spec fn script_result(command: Commands, r: Readings) -> Result<(), DongleError> {
    if r.revision == PcbRevision::RevC {
        Ok(())
    } else {
        match command {
            Commands::Sdp | Commands::ForceSdp | Commands::ReleaseSdp => Err(
                DongleError::ForceSDPNotSupported,
            ),
            Commands::Attach
            | Commands::Detach
            | Commands::FullAttach
            | Commands::FullDetach => Err(DongleError::AttachDetachNotSupported),
            Commands::GpioConfig { .. }
            | Commands::GpioSet { .. }
            | Commands::GpioGet { .. } => Err(DongleError::GPIONotSupported),
            _ => Ok(()),
        }
    }
}

/// A run ends once, at its last action, with success or with the error for its
/// command on an old board.
pub proof fn runs_end_with_their_result(command: Commands, relay: bool, r: Readings, k: int)
    requires
        0 <= k < script::script(command, relay, r).len(),
    ensures
        script::script(command, relay, r)[k] is Finish <==> k == script::script(
            command,
            relay,
            r,
        ).len() - 1,
        script::script(command, relay, r)[k] matches Action::Finish(result) ==> is_result(
            command,
            r,
            result,
        ),
{
    let s = script::script(command, relay, r);
    let n = s.len() as int;
    assert(s.contains(s[k]));
    actions_happen_when_called_for(command, relay, r, s[k]);
    let end = Action::Finish(script_result(command, r));
    actions_happen_when_called_for(command, relay, r, end);
    assert(s.contains(end));
    let i = choose|i: int| 0 <= i < s.len() && s[i] == end;
    assert(s[i] == end);
    script_is_staged(command, relay, r);
    if i < n - 1 {
        waits_follow_the_countdown(command, relay, r, i + 1);
        assert(stage(s[i]) < stage(s[i + 1]));
    }
    if s[k] is Finish && k < i {
        assert(stage(s[k]) < stage(s[i]));
    }
}

/// Whether a place holds a wait exactly where a number of seconds was printed
/// just before.
pub open spec fn waits_rightly(s: Seq<Action>, k: int) -> bool {
    s[k] is Sleep <==> k > 0 && (s[k - 1] matches Action::Print(Message::Countdown(_)))
}

/// Whether a sequence does what is called for, in order, with a wait after each
/// number of seconds.
pub open spec fn is_run(s: Seq<Action>, command: Commands, relay: bool, r: Readings) -> bool {
    &&& forall|a: Action| #[trigger] s.contains(a) <==> happens(command, relay, r, a)
    &&& forall|i: int, j: int|
        0 <= i < j < s.len() && !(#[trigger] s[i] is Sleep) && !(#[trigger] s[j] is Sleep)
            ==> stage(s[i]) < stage(s[j])
    &&& forall|k: int| 0 <= k < s.len() ==> #[trigger] waits_rightly(s, k)
}

/// A run ends with its result.
proof fn run_ends(s: Seq<Action>, command: Commands, relay: bool, r: Readings)
    requires
        is_run(s, command, relay, r),
    ensures
        s.len() > 0,
        s.last() is Finish,
        forall|k: int| 0 <= k < s.len() - 1 ==> !(#[trigger] s[k] is Finish),
{
    let end = Action::Finish(script_result(command, r));
    assert(s.contains(end));
    let i = choose|i: int| 0 <= i < s.len() && s[i] == end;
    assert(s[i] == end);
    if i < s.len() - 1 {
        assert(waits_rightly(s, i + 1));
        assert(stage(s[i]) < stage(s[i + 1]));
        assert(s.contains(s[i + 1]));
        if let Action::Print(Message::Countdown(n)) = s[i + 1] {
            assert(n >= 1);
        }
    }
    assert forall|k: int| 0 <= k < s.len() - 1 implies !(#[trigger] s[k] is Finish) by {
        if s[k] is Finish {
            assert(stage(s[k]) < stage(s[i]));
        }
    }
}

/// Two runs that agree on their first actions agree on the next.
proof fn runs_agree_next(
    s: Seq<Action>,
    t: Seq<Action>,
    command: Commands,
    relay: bool,
    r: Readings,
    k: int,
)
    requires
        is_run(s, command, relay, r),
        is_run(t, command, relay, r),
        0 <= k < s.len(),
        k < t.len(),
        forall|i: int| 0 <= i < k ==> #[trigger] s[i] == t[i],
    ensures
        s[k] == t[k],
{
    assert(waits_rightly(s, k));
    assert(waits_rightly(t, k));
    assert(s.contains(s[k]));
    assert(t.contains(t[k]));
    if k > 0 {
        assert(s[k - 1] == t[k - 1]);
    }
    if !(s[k] is Sleep) {
        assert(t.contains(s[k]));
        assert(s.contains(t[k]));
        let i = choose|i: int| 0 <= i < t.len() && t[i] == s[k];
        let j = choose|j: int| 0 <= j < s.len() && s[j] == t[k];
        assert(t[i] == s[k] && s[j] == t[k]);
        if i < k {
            assert(s[i] == t[i]);
            assert(stage(s[i]) < stage(s[k]));
        }
        if j < k {
            assert(s[j] == t[j]);
            assert(stage(t[j]) < stage(t[k]));
        }
        if i > k {
            assert(stage(t[k]) < stage(t[i]));
        }
        if j > k {
            assert(stage(s[k]) < stage(s[j]));
        }
    }
}

/// Two runs for one command, variant and set of readings are one and the same.
proof fn runs_agree(
    s: Seq<Action>,
    t: Seq<Action>,
    command: Commands,
    relay: bool,
    r: Readings,
    k: int,
)
    requires
        is_run(s, command, relay, r),
        is_run(t, command, relay, r),
        0 <= k <= s.len(),
    ensures
        k <= t.len(),
        forall|i: int| 0 <= i < k ==> #[trigger] s[i] == t[i],
    decreases k,
{
    if k > 0 {
        runs_agree(s, t, command, relay, r, k - 1);
        run_ends(s, command, relay, r);
        run_ends(t, command, relay, r);
        if k - 1 == t.len() {
            assert(s[k - 2] == t[k - 2]);
        }
        runs_agree_next(s, t, command, relay, r, k - 1);
    }
}

/// What a run does is the one sequence that does what is called for, in order,
/// with a wait after each number of seconds.
pub proof fn scripts_are_the_only_runs(
    command: Commands,
    relay: bool,
    r: Readings,
    s: Seq<Action>,
)
    ensures
        is_run(s, command, relay, r) <==> s == script::script(command, relay, r),
{
    let t = script::script(command, relay, r);
    assert(is_run(t, command, relay, r)) by {
        assert forall|a: Action| #[trigger] t.contains(a) <==> happens(command, relay, r, a) by {
            actions_happen_when_called_for(command, relay, r, a);
        }
        script_is_staged(command, relay, r);
        assert forall|k: int| 0 <= k < t.len() implies #[trigger] waits_rightly(t, k) by {
            waits_follow_the_countdown(command, relay, r, k);
        }
    }
    if is_run(s, command, relay, r) {
        runs_agree(s, t, command, relay, r, s.len() as int);
        runs_agree(t, s, command, relay, r, t.len() as int);
        assert(s =~= t);
    }
}

} // verus!
