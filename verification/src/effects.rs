//! What commands leave behind on a dongle, and what they never do.

use vstd::prelude::*;

use crate::command::Commands;
use crate::hardware::{HeaderPin, PcbRevision, PinMode, PinState, Readings, SlgPin};
use crate::message::Message;
use crate::script;
use crate::script::Action;

verus! {

/// Whether an action changes something on the dongle.
pub open spec fn is_write(action: Action) -> bool {
    match action {
        Action::SetPower(_) | Action::SetSlgMode(..) | Action::SetSlg(..) => true,
        Action::ConfigureSwitch | Action::SetSwitch(_) => true,
        Action::SetHeaderMode(..) | Action::SetHeader(..) => true,
        _ => false,
    }
}

/// The readings with what an action writes in place.
pub open spec fn write(action: Action, r: Readings) -> Readings {
    match action {
        Action::SetPower(power) => Readings { power, ..r },
        Action::SetSlg(SlgPin::SlgIo0, slg0) => Readings { slg0, ..r },
        Action::SetSlg(SlgPin::SlgIo1, slg1) => Readings { slg1, ..r },
        Action::SetSwitch(connected) => Readings { connected, ..r },
        Action::SetHeaderMode(HeaderPin::P0, mode0) => Readings { mode0, ..r },
        Action::SetHeaderMode(HeaderPin::P1, mode1) => Readings { mode1, ..r },
        Action::SetHeader(HeaderPin::P0, state0) => Readings { state0, ..r },
        Action::SetHeader(HeaderPin::P1, state1) => Readings { state1, ..r },
        _ => r,
    }
}

/// The readings with everything that a sequence of actions writes in place.
pub open spec fn written(actions: Seq<Action>, r: Readings) -> Readings
    decreases actions.len(),
{
    if actions.len() == 0 {
        r
    } else {
        write(actions.last(), written(actions.drop_last(), r))
    }
}

/// For how many seconds a sequence of actions waits.
pub open spec fn seconds(actions: Seq<Action>) -> int
    decreases actions.len(),
{
    if actions.len() == 0 {
        0
    } else {
        seconds(actions.drop_last()) + match actions.last() {
            Action::Sleep(n) => n as int,
            _ => 0,
        }
    }
}

/// What a command leaves behind: power, lines, switch and pins as the command
/// names them, everything else as it was. A board of revision A or B takes
/// power commands only.
pub open spec fn settled(command: Commands, r: Readings) -> Readings {
    if r.revision == PcbRevision::RevAorB && command.needs_rev_c() {
        r
    } else {
        match command {
            Commands::On => Readings { power: true, ..r },
            Commands::Off => Readings { power: false, ..r },
            Commands::ForceSdp => Readings { slg0: PinState::High, ..r },
            Commands::ReleaseSdp | Commands::Sdp => Readings { slg0: PinState::Low, ..r },
            Commands::Attach => Readings { connected: true, ..r },
            Commands::Detach => Readings { connected: false, ..r },
            Commands::FullAttach => Readings {
                power: true,
                connected: true,
                slg1: PinState::High,
                ..r
            },
            Commands::FullDetach => Readings {
                power: false,
                connected: false,
                slg1: PinState::Low,
                ..r
            },
            Commands::GpioConfig { pin: HeaderPin::P0, mode } => Readings { mode0: mode, ..r },
            Commands::GpioConfig { pin: HeaderPin::P1, mode } => Readings { mode1: mode, ..r },
            Commands::GpioSet { pin: HeaderPin::P0, state } => Readings { state0: state, ..r },
            Commands::GpioSet { pin: HeaderPin::P1, state } => Readings { state1: state, ..r },
            _ => r,
        }
    }
}

/// The writes of two sequences, one after the other.
proof fn written_concat(a: Seq<Action>, b: Seq<Action>, r: Readings)
    ensures
        written(a + b, r) == written(b, written(a, r)),
    decreases b.len(),
{
    if b.len() == 0 {
        assert(a + b == a);
    } else {
        assert((a + b).drop_last() == a + b.drop_last());
        written_concat(a, b.drop_last(), r);
    }
}

/// The waits of two sequences, one after the other.
proof fn seconds_concat(a: Seq<Action>, b: Seq<Action>)
    ensures
        seconds(a + b) == seconds(a) + seconds(b),
    decreases b.len(),
{
    if b.len() == 0 {
        assert(a + b == a);
    } else {
        assert((a + b).drop_last() == a + b.drop_last());
        seconds_concat(a, b.drop_last());
    }
}

/// A sequence without writes leaves everything as it was.
proof fn nothing_written(actions: Seq<Action>, r: Readings)
    requires
        forall|i: int| 0 <= i < actions.len() ==> !is_write(#[trigger] actions[i]),
    ensures
        written(actions, r) == r,
    decreases actions.len(),
{
    if actions.len() > 0 {
        nothing_written(actions.drop_last(), r);
    }
}

/// A sequence without waits takes no time.
proof fn nothing_waited(actions: Seq<Action>)
    requires
        forall|i: int| 0 <= i < actions.len() ==> !(#[trigger] actions[i] is Sleep),
    ensures
        seconds(actions) == 0,
    decreases actions.len(),
{
    if actions.len() > 0 {
        nothing_waited(actions.drop_last());
    }
}

/// A countdown writes nothing and waits one second for each number.
proof fn countdown_waits(n: u8)
    ensures
        script::countdown(n).len() == 2 * n,
        forall|i: int| 0 <= i < 2 * n ==> !is_write(#[trigger] script::countdown(n)[i]),
        seconds(script::countdown(n)) == n,
    decreases n,
{
    if n > 0 {
        let m = (n - 1) as u8;
        countdown_waits(m);
        script::countdown_counts(n);
        let head = seq![Action::Print(Message::Countdown(n)), Action::Sleep(1)];
        seconds_concat(head, script::countdown(m));
        reveal_with_fuel(seconds, 3);
        assert(head.drop_last().drop_last() == Seq::<Action>::empty());
    }
}

/// What the `status` command does writes nothing and does not wait.
proof fn status_is_passive(relay: bool, r: Readings)
    ensures
        forall|i: int|
            0 <= i < script::status(relay, r).len() ==> !is_write(
                #[trigger] script::status(relay, r)[i],
            ) && !(script::status(relay, r)[i] is Sleep),
{
    let first = if relay {
        script::status_relay(r)
    } else {
        script::status_pin(HeaderPin::P0, r)
    };
    let second = script::status_pin(HeaderPin::P1, r);
    let head = script::status_head(relay, r);
    let lines = script::status_lines(r);
    let s = script::status(relay, r);
    if r.revision == PcbRevision::RevC {
        assert forall|i: int| 0 <= i < s.len() implies !is_write(#[trigger] s[i]) && !(
        s[i] is Sleep) by {
            let q = head.len() + lines.len();
            if i < head.len() {
                assert(s[i] == head[i]);
            } else if i < q {
                assert(s[i] == lines[i - head.len()]);
            } else if i < q + first.len() {
                assert(s[i] == first[i - q]);
            } else if i < q + first.len() + second.len() {
                assert(s[i] == second[i - q - first.len()]);
            }
        }
    }
}

/// Commands that only ask, `status`, `gpio-get`, `list` and `udev`, change
/// nothing on the dongle.
pub proof fn queries_write_nothing(command: Commands, relay: bool, r: Readings)
    requires
        command is Status || command is GpioGet || command is List || command is Udev,
    ensures
        forall|i: int|
            0 <= i < script::script(command, relay, r).len() ==> !is_write(
                #[trigger] script::script(command, relay, r)[i],
            ),
{
    let p = script::prologue(r);
    let s = script::script(command, relay, r);
    if command is Status {
        status_is_passive(relay, r);
        assert forall|i: int| 0 <= i < s.len() implies !is_write(#[trigger] s[i]) by {
            if i >= p.len() {
                assert(s[i] == script::status(relay, r)[i - p.len()]);
            }
        }
    }
}

/// A board of revision A or B is left alone by the commands that need revision
/// C: nothing is written, and the run fails.
pub proof fn old_boards_are_left_alone(command: Commands, relay: bool, r: Readings)
    requires
        r.revision == PcbRevision::RevAorB,
        command.needs_rev_c(),
    ensures
        forall|i: int|
            0 <= i < script::script(command, relay, r).len() ==> !is_write(
                #[trigger] script::script(command, relay, r)[i],
            ),
        script::script(command, relay, r).last() matches Action::Finish(result) && result is Err,
{
}

/// On a board that can carry it out, a command succeeds.
pub proof fn supported_commands_succeed(command: Commands, relay: bool, r: Readings)
    requires
        r.revision == PcbRevision::RevC || !command.needs_rev_c(),
    ensures
        script::script(command, relay, r).last() == Action::Finish(Ok(())),
{
}

/// Power is only switched where it is not as asked for already.
pub proof fn power_is_switched_when_needed(relay: bool, r: Readings)
    ensures
        script::script(Commands::On, relay, r).contains(Action::SetPower(true)) <==> !r.power,
        script::script(Commands::Off, relay, r).contains(Action::SetPower(false)) <==> r.power,
        !script::script(Commands::On, relay, r).contains(Action::SetPower(false)),
        !script::script(Commands::Off, relay, r).contains(Action::SetPower(true)),
{
    let on = script::script(Commands::On, relay, r);
    let off = script::script(Commands::Off, relay, r);
    let p = script::prologue(r).len() as int;
    assert(!r.power ==> on[p + 1] == Action::SetPower(true));
    assert(r.power ==> off[p + 1] == Action::SetPower(false));
}

/// A power fault is reported in every run that reads one, and in no other.
pub proof fn faults_are_reported(command: Commands, relay: bool, r: Readings)
    ensures
        script::script(command, relay, r).contains(Action::Print(Message::PowerFault))
            <==> r.fault,
{
    let s = script::script(command, relay, r);
    let p = script::prologue(r);
    let b = script::body(command, relay, r);
    if r.fault {
        assert(s[2] == Action::Print(Message::PowerFault));
    } else {
        body_reports_no_fault(command, relay, r);
        assert forall|i: int| 0 <= i < s.len() implies #[trigger] s[i] != Action::Print(
            Message::PowerFault,
        ) by {
            if i >= p.len() {
                assert(s[i] == b[i - p.len()]);
            }
        }
    }
}

/// Past the prologue no fault is reported.
proof fn body_reports_no_fault(command: Commands, relay: bool, r: Readings)
    ensures
        forall|i: int|
            0 <= i < script::body(command, relay, r).len() ==> #[trigger] script::body(
                command,
                relay,
                r,
            )[i] != Action::Print(Message::PowerFault),
{
    let b = script::body(command, relay, r);
    if command is Status {
        let head = script::status_head(relay, r);
        let lines = script::status_lines(r);
        let first = if relay {
            script::status_relay(r)
        } else {
            script::status_pin(HeaderPin::P0, r)
        };
        let second = script::status_pin(HeaderPin::P1, r);
        let q = head.len() + lines.len();
        assert forall|i: int| 0 <= i < b.len() implies #[trigger] b[i] != Action::Print(
            Message::PowerFault,
        ) by {
            if i < head.len() {
                assert(b[i] == head[i]);
            } else if r.revision == PcbRevision::RevC {
                if i < q {
                    assert(b[i] == lines[i - head.len()]);
                } else if i < q + first.len() {
                    assert(b[i] == first[i - q]);
                } else if i < q + first.len() + second.len() {
                    assert(b[i] == second[i - q - first.len()]);
                }
            }
        }
    } else if command is Sdp && r.revision == PcbRevision::RevC {
        let c = script::countdown(script::SDP_SECONDS);
        script::countdown_counts(script::SDP_SECONDS);
        assert forall|i: int| 0 <= i < b.len() implies #[trigger] b[i] != Action::Print(
            Message::PowerFault,
        ) by {
            if 2 <= i < 2 + c.len() {
                assert(b[i] == c[i - 2]);
            }
        }
    }
}

/// What a short sequence of actions writes, one action after the other.
proof fn written_in_turn(actions: Seq<Action>, r: Readings)
    ensures
        actions.len() == 1 ==> written(actions, r) == write(actions[0], r),
        actions.len() == 2 ==> written(actions, r) == write(actions[1], write(actions[0], r)),
        actions.len() == 3 ==> written(actions, r) == write(
            actions[2],
            write(actions[1], write(actions[0], r)),
        ),
        actions.len() == 6 ==> written(actions, r) == write(
            actions[5],
            write(
                actions[4],
                write(actions[3], write(actions[2], write(actions[1], write(actions[0], r)))),
            ),
        ),
{
    reveal_with_fuel(written, 7);
}

/// What the body of the `sdp` command leaves behind.
proof fn sdp_settles(relay: bool, r: Readings)
    requires
        r.revision == PcbRevision::RevC,
    ensures
        written(script::body(Commands::Sdp, relay, r), r) == settled(Commands::Sdp, r),
{
    let head = seq![
        Action::SetSlgMode(SlgPin::SlgIo0, PinMode::Output),
        Action::SetSlg(SlgPin::SlgIo0, PinState::High),
    ];
    let c = script::countdown(script::SDP_SECONDS);
    let tail = seq![Action::SetSlg(SlgPin::SlgIo0, PinState::Low), Action::Finish(Ok(()))];
    countdown_waits(script::SDP_SECONDS);
    written_concat(head + c, tail, r);
    written_concat(head, c, r);
    written_in_turn(head, r);
    nothing_written(c, written(head, r));
    written_in_turn(tail, written(head, r));
}

/// What the bodies of commands that drive several parts leave behind.
proof fn full_settles(relay: bool, r: Readings)
    requires
        r.revision == PcbRevision::RevC,
    ensures
        written(script::body(Commands::FullAttach, relay, r), r) == settled(
            Commands::FullAttach,
            r,
        ),
        written(script::body(Commands::FullDetach, relay, r), r) == settled(
            Commands::FullDetach,
            r,
        ),
{
    written_in_turn(script::body(Commands::FullAttach, relay, r), r);
    written_in_turn(script::body(Commands::FullDetach, relay, r), r);
}

/// What the bodies of the power commands leave behind.
proof fn power_settles(relay: bool, r: Readings)
    ensures
        written(script::body(Commands::On, relay, r), r) == settled(Commands::On, r),
        written(script::body(Commands::Off, relay, r), r) == settled(Commands::Off, r),
{
    written_in_turn(script::body(Commands::On, relay, r), r);
    written_in_turn(script::body(Commands::Off, relay, r), r);
}

/// What the bodies of `force-sdp` and `release-sdp` leave behind.
proof fn sdp_line_settles(relay: bool, r: Readings)
    requires
        r.revision == PcbRevision::RevC,
    ensures
        written(script::body(Commands::ForceSdp, relay, r), r) == settled(Commands::ForceSdp, r),
        written(script::body(Commands::ReleaseSdp, relay, r), r) == settled(Commands::ReleaseSdp, r),
{
    written_in_turn(script::body(Commands::ForceSdp, relay, r), r);
    written_in_turn(script::body(Commands::ReleaseSdp, relay, r), r);
}

/// What the bodies of `attach` and `detach` leave behind.
proof fn switch_settles(relay: bool, r: Readings)
    requires
        r.revision == PcbRevision::RevC,
    ensures
        written(script::body(Commands::Attach, relay, r), r) == settled(Commands::Attach, r),
        written(script::body(Commands::Detach, relay, r), r) == settled(Commands::Detach, r),
{
    written_in_turn(script::body(Commands::Attach, relay, r), r);
    written_in_turn(script::body(Commands::Detach, relay, r), r);
}

/// What the bodies of `gpio-config` and `gpio-set` leave behind.
proof fn gpio_settles(relay: bool, r: Readings, pin: HeaderPin, mode: PinMode, state: PinState)
    requires
        r.revision == PcbRevision::RevC,
    ensures
        ({
            let config = Commands::GpioConfig { pin, mode };
            written(script::body(config, relay, r), r) == settled(config, r)
        }),
        ({
            let set = Commands::GpioSet { pin, state };
            written(script::body(set, relay, r), r) == settled(set, r)
        }),
{
    written_in_turn(script::body(Commands::GpioConfig { pin, mode }, relay, r), r);
    written_in_turn(script::body(Commands::GpioSet { pin, state }, relay, r), r);
}

/// What a body without writes leaves behind.
proof fn passive_settles(command: Commands, relay: bool, r: Readings)
    requires
        (r.revision == PcbRevision::RevAorB && command.needs_rev_c()) || command is Status
            || command is List || command is Udev || command is GpioGet,
    ensures
        written(script::body(command, relay, r), r) == settled(command, r),
{
    if command is Status {
        status_is_passive(relay, r);
    }
    nothing_written(script::body(command, relay, r), r);
}

/// What the body of a command leaves behind.
proof fn body_settles(command: Commands, relay: bool, r: Readings)
    ensures
        written(script::body(command, relay, r), r) == settled(command, r),
{
    if r.revision == PcbRevision::RevAorB && command.needs_rev_c() {
        passive_settles(command, relay, r);
    } else {
        match command {
            Commands::On | Commands::Off => power_settles(relay, r),
            Commands::ForceSdp | Commands::ReleaseSdp => sdp_line_settles(relay, r),
            Commands::Sdp => sdp_settles(relay, r),
            Commands::Attach | Commands::Detach => switch_settles(relay, r),
            Commands::FullAttach | Commands::FullDetach => full_settles(relay, r),
            Commands::GpioConfig { pin, mode } => {
                gpio_settles(relay, r, pin, mode, PinState::Low)
            },
            Commands::GpioSet { pin, state } => {
                gpio_settles(relay, r, pin, PinMode::Input, state)
            },
            _ => passive_settles(command, relay, r),
        }
    }
}

/// What a run leaves behind: power, lines, switch and pins as the command names
/// them, and everything else as it was. So `on` leaves power on, `attach`
/// undoes `detach`, `full-attach` undoes `full-detach` in power, data lines and
/// CC lines alike, and `sdp` ends as `release-sdp` does.
pub proof fn commands_settle(command: Commands, relay: bool, r: Readings)
    ensures
        written(script::script(command, relay, r), r) == settled(command, r),
{
    let p = script::prologue(r);
    written_concat(p, script::body(command, relay, r), r);
    nothing_written(p, r);
    body_settles(command, relay, r);
}

/// Only the `sdp` command waits, for ten seconds in all, on a board of
/// revision C.
pub proof fn only_sdp_waits(command: Commands, relay: bool, r: Readings)
    ensures
        seconds(script::script(command, relay, r)) == (if command is Sdp && r.revision
            == PcbRevision::RevC {
            10int
        } else {
            0
        }),
{
    let p = script::prologue(r);
    let b = script::body(command, relay, r);
    seconds_concat(p, b);
    nothing_waited(p);
    if command is Status {
        status_is_passive(relay, r);
        nothing_waited(b);
    } else if command is Sdp && r.revision == PcbRevision::RevC {
        let head = seq![
            Action::SetSlgMode(SlgPin::SlgIo0, PinMode::Output),
            Action::SetSlg(SlgPin::SlgIo0, PinState::High),
        ];
        let c = script::countdown(script::SDP_SECONDS);
        let tail = seq![Action::SetSlg(SlgPin::SlgIo0, PinState::Low), Action::Finish(Ok(()))];
        countdown_waits(script::SDP_SECONDS);
        seconds_concat(head + c, tail);
        seconds_concat(head, c);
        nothing_waited(head);
        nothing_waited(tail);
    } else {
        nothing_waited(b);
    }
}

/// While the `sdp` command waits, SDP mode is forced.
pub proof fn sdp_is_forced_while_waiting(relay: bool, r: Readings, k: int)
    requires
        0 <= k < script::script(Commands::Sdp, relay, r).len(),
        script::script(Commands::Sdp, relay, r)[k] is Sleep,
    ensures
        written(script::script(Commands::Sdp, relay, r).take(k), r).slg0 == PinState::High,
{
    let s = script::script(Commands::Sdp, relay, r);
    let p = script::prologue(r);
    let head = seq![
        Action::SetSlgMode(SlgPin::SlgIo0, PinMode::Output),
        Action::SetSlg(SlgPin::SlgIo0, PinState::High),
    ];
    let c = script::countdown(script::SDP_SECONDS);
    countdown_waits(script::SDP_SECONDS);
    let i = k - p.len() - 2;
    assert(r.revision == PcbRevision::RevC);
    assert(0 <= i < c.len());
    assert(s.take(k) =~= p + head + c.take(i));
    written_concat(p + head, c.take(i), r);
    written_concat(p, head, r);
    nothing_written(p, r);
    written_in_turn(head, r);
    nothing_written(c.take(i), written(head, r));
}

/// The `status` command on a board of revision C reports what was read of
/// power, USB switch and the lines to the mixed-signal chip.
pub proof fn status_reports_readings(relay: bool, r: Readings)
    requires
        r.revision == PcbRevision::RevC,
    ensures
        ({
            let s = script::script(Commands::Status, relay, r);
            &&& s.contains(Action::Print(Message::PowerIs(r.power)))
            &&& s.contains(Action::Print(Message::SwitchConnected(r.connected)))
            &&& s.contains(Action::Print(Message::ForcingSdp(r.slg0 == PinState::High)))
            &&& s.contains(Action::Print(Message::ForcingCcDown(r.slg1 == PinState::Low)))
            &&& s.contains(
                Action::Print(Message::HeaderPinStatus(HeaderPin::P1, r.mode1, r.state1)),
            )
        }),
{
    let s = script::script(Commands::Status, relay, r);
    let p = script::prologue(r);
    let head = script::status_head(relay, r);
    let lines = script::status_lines(r);
    let first = if relay {
        script::status_relay(r)
    } else {
        script::status_pin(HeaderPin::P0, r)
    };
    let second = script::status_pin(HeaderPin::P1, r);
    let n = p.len() as int;
    let h = n + head.len();
    assert(s[n + 1] == head[1]);
    assert(s[h + 1] == lines[1]);
    assert(s[h + 3] == lines[3]);
    assert(s[h + 5] == lines[5]);
    assert(s[h + 6 + first.len() + 2] == second[2]);
}

/// A level that `gpio-set` gives to a pin is what `gpio-get` then prints, and
/// what `force-sdp` and `release-sdp` do is what `status` then reports, on a
/// board of revision C on which nothing else has changed.
pub proof fn what_was_set_is_reported(relay: bool, r: Readings, pin: HeaderPin, state: PinState)
    requires
        r.revision == PcbRevision::RevC,
    ensures
        ({
            let set = written(script::script(Commands::GpioSet { pin, state }, relay, r), r);
            script::script(Commands::GpioGet { pin }, relay, set).contains(
                Action::Print(Message::PinLevel(pin, state)),
            )
        }),
        ({
            let forced = written(script::script(Commands::ForceSdp, relay, r), r);
            script::script(Commands::Status, relay, forced).contains(
                Action::Print(Message::ForcingSdp(true)),
            )
        }),
        ({
            let released = written(script::script(Commands::ReleaseSdp, relay, r), r);
            script::script(Commands::Status, relay, released).contains(
                Action::Print(Message::ForcingSdp(false)),
            )
        }),
{
    commands_settle(Commands::GpioSet { pin, state }, relay, r);
    commands_settle(Commands::ForceSdp, relay, r);
    commands_settle(Commands::ReleaseSdp, relay, r);
    let set = settled(Commands::GpioSet { pin, state }, r);
    let get = script::script(Commands::GpioGet { pin }, relay, set);
    let n = script::prologue(set).len() as int;
    assert(get[n + 1] == Action::Print(Message::PinLevel(pin, state)));
    status_reports_readings(relay, settled(Commands::ForceSdp, r));
    status_reports_readings(relay, settled(Commands::ReleaseSdp, r));
}

} // verus!
