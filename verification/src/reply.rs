//! Replies to actions, and what is learned from them.

use vstd::prelude::*;

use crate::hardware::{HeaderPin, PcbRevision, PinMode, PinState, Readings, SlgPin};
use crate::script::Action;

verus! {

/// What comes back from an action.
#[derive(Clone, Copy, PartialEq, Eq, Debug, Structural)]
pub enum Reply {
    /// The action has been carried out and yields nothing.
    Done,
    Flag(bool),
    Revision(PcbRevision),
    Pin(PinState),
    Mode(PinMode),
}

/// Whether a reply is of the kind that an action yields. Nothing follows the
/// end of a run.
pub open spec fn fits(action: Action, reply: Reply) -> bool {
    match action {
        Action::ReadPower | Action::ReadFault | Action::ReadSwitch => reply is Flag,
        Action::ReadRevision => reply is Revision,
        Action::ReadSlg(_) | Action::ReadHeader(_) => reply is Pin,
        Action::ReadHeaderMode(_) => reply is Mode,
        Action::Finish(_) => false,
        _ => reply is Done,
    }
}

/// The reply of a dongle whose readings are `w`.
pub open spec fn answer(action: Action, w: Readings) -> Reply {
    match action {
        Action::ReadPower => Reply::Flag(w.power),
        Action::ReadFault => Reply::Flag(w.fault),
        Action::ReadRevision => Reply::Revision(w.revision),
        Action::ReadSwitch => Reply::Flag(w.connected),
        Action::ReadSlg(pin) => Reply::Pin(w.slg(pin)),
        Action::ReadHeaderMode(pin) => Reply::Mode(w.mode(pin)),
        Action::ReadHeader(pin) => Reply::Pin(w.state(pin)),
        _ => Reply::Done,
    }
}

/// Whether an action reads a value.
pub open spec fn is_read(action: Action) -> bool {
    match action {
        Action::ReadPower | Action::ReadFault | Action::ReadRevision | Action::ReadSwitch => true,
        Action::ReadSlg(_) | Action::ReadHeader(_) | Action::ReadHeaderMode(_) => true,
        _ => false,
    }
}

/// The readings once a reply to an action is known.
pub open spec fn learn(r: Readings, action: Action, reply: Reply) -> Readings {
    match (action, reply) {
        (Action::ReadPower, Reply::Flag(power)) => Readings { power, ..r },
        (Action::ReadFault, Reply::Flag(fault)) => Readings { fault, ..r },
        (Action::ReadRevision, Reply::Revision(revision)) => Readings { revision, ..r },
        (Action::ReadSwitch, Reply::Flag(connected)) => Readings { connected, ..r },
        (Action::ReadSlg(SlgPin::SlgIo0), Reply::Pin(slg0)) => Readings { slg0, ..r },
        (Action::ReadSlg(SlgPin::SlgIo1), Reply::Pin(slg1)) => Readings { slg1, ..r },
        (Action::ReadHeaderMode(HeaderPin::P0), Reply::Mode(mode0)) => Readings { mode0, ..r },
        (Action::ReadHeaderMode(HeaderPin::P1), Reply::Mode(mode1)) => Readings { mode1, ..r },
        (Action::ReadHeader(HeaderPin::P0), Reply::Pin(state0)) => Readings { state0, ..r },
        (Action::ReadHeader(HeaderPin::P1), Reply::Pin(state1)) => Readings { state1, ..r },
        _ => r,
    }
}

/// Whether an action, where it reads a value, reads the same from `r` and `w`.
pub open spec fn reads_same(action: Action, r: Readings, w: Readings) -> bool {
    answer(action, r) == answer(action, w)
}

/// The readings once a reply to an action is known.
pub(crate) fn learned(r: Readings, action: &Action, reply: Reply) -> (after: Readings)
    ensures
        after == learn(r, *action, reply),
{
    match (action, reply) {
        (Action::ReadPower, Reply::Flag(power)) => Readings { power, ..r },
        (Action::ReadFault, Reply::Flag(fault)) => Readings { fault, ..r },
        (Action::ReadRevision, Reply::Revision(revision)) => Readings { revision, ..r },
        (Action::ReadSwitch, Reply::Flag(connected)) => Readings { connected, ..r },
        (Action::ReadSlg(SlgPin::SlgIo0), Reply::Pin(slg0)) => Readings { slg0, ..r },
        (Action::ReadSlg(SlgPin::SlgIo1), Reply::Pin(slg1)) => Readings { slg1, ..r },
        (Action::ReadHeaderMode(HeaderPin::P0), Reply::Mode(mode0)) => Readings { mode0, ..r },
        (Action::ReadHeaderMode(HeaderPin::P1), Reply::Mode(mode1)) => Readings { mode1, ..r },
        (Action::ReadHeader(HeaderPin::P0), Reply::Pin(state0)) => Readings { state0, ..r },
        (Action::ReadHeader(HeaderPin::P1), Reply::Pin(state1)) => Readings { state1, ..r },
        _ => r,
    }
}

/// A reply is what its action reads from then on.
pub proof fn learn_reads(r: Readings, action: Action, w: Readings)
    ensures
        reads_same(action, learn(r, action, answer(action, w)), w),
{
}

/// A reply changes nothing but what its action reads.
pub proof fn learn_keeps_the_rest(r: Readings, action: Action, reply: Reply, other: Action)
    requires
        is_read(other) ==> other != action,
    ensures
        reads_same(other, r, learn(r, action, reply)),
{
}

/// A reply to a read is kept as the value that was read, and everything else
/// stays as it was.
pub proof fn replies_are_kept(
    r: Readings,
    flag: bool,
    revision: PcbRevision,
    state: PinState,
    mode: PinMode,
)
    ensures
        learn(r, Action::ReadPower, Reply::Flag(flag)) == (Readings { power: flag, ..r }),
        learn(r, Action::ReadFault, Reply::Flag(flag)) == (Readings { fault: flag, ..r }),
        learn(r, Action::ReadRevision, Reply::Revision(revision)) == (Readings { revision, ..r }),
        learn(r, Action::ReadSwitch, Reply::Flag(flag)) == (Readings { connected: flag, ..r }),
        learn(r, Action::ReadSlg(SlgPin::SlgIo0), Reply::Pin(state)) == (Readings {
            slg0: state,
            ..r
        }),
        learn(r, Action::ReadSlg(SlgPin::SlgIo1), Reply::Pin(state)) == (Readings {
            slg1: state,
            ..r
        }),
        learn(r, Action::ReadHeaderMode(HeaderPin::P0), Reply::Mode(mode)) == (Readings {
            mode0: mode,
            ..r
        }),
        learn(r, Action::ReadHeaderMode(HeaderPin::P1), Reply::Mode(mode)) == (Readings {
            mode1: mode,
            ..r
        }),
        learn(r, Action::ReadHeader(HeaderPin::P0), Reply::Pin(state)) == (Readings {
            state0: state,
            ..r
        }),
        learn(r, Action::ReadHeader(HeaderPin::P1), Reply::Pin(state)) == (Readings {
            state1: state,
            ..r
        }),
{
}

/// From what is not a read, and from a reply of another kind than the action
/// yields, nothing is learned.
pub proof fn only_reads_teach(r: Readings, action: Action, reply: Reply)
    requires
        !is_read(action) || !fits(action, reply),
    ensures
        learn(r, action, reply) == r,
{
}

/// A dongle answers a read with what it shows, and anything else but the end of a
/// run with having done it; the answer is always of the kind that the action
/// yields.
pub proof fn dongles_answer_what_they_show(action: Action, w: Readings)
    ensures
        match action {
            Action::ReadPower => answer(action, w) == Reply::Flag(w.power),
            Action::ReadFault => answer(action, w) == Reply::Flag(w.fault),
            Action::ReadRevision => answer(action, w) == Reply::Revision(w.revision),
            Action::ReadSwitch => answer(action, w) == Reply::Flag(w.connected),
            Action::ReadSlg(SlgPin::SlgIo0) => answer(action, w) == Reply::Pin(w.slg0),
            Action::ReadSlg(SlgPin::SlgIo1) => answer(action, w) == Reply::Pin(w.slg1),
            Action::ReadHeaderMode(HeaderPin::P0) => answer(action, w) == Reply::Mode(w.mode0),
            Action::ReadHeaderMode(HeaderPin::P1) => answer(action, w) == Reply::Mode(w.mode1),
            Action::ReadHeader(HeaderPin::P0) => answer(action, w) == Reply::Pin(w.state0),
            Action::ReadHeader(HeaderPin::P1) => answer(action, w) == Reply::Pin(w.state1),
            _ => answer(action, w) == Reply::Done,
        },
        !(action is Finish) ==> fits(action, answer(action, w)),
        is_read(action) <==> !(answer(action, w) is Done),
{
}

/// No two kinds of reply fit one action, and none fits the end of a run.
pub proof fn replies_fit_one_kind(action: Action, reply: Reply, w: Readings)
    ensures
        fits(action, reply) ==> !(action is Finish) && (reply is Flag <==> answer(action, w) is Flag)
            && (reply is Revision <==> answer(action, w) is Revision) && (reply is Pin <==> answer(
            action,
            w,
        ) is Pin) && (reply is Mode <==> answer(action, w) is Mode) && (reply is Done <==> answer(
            action,
            w,
        ) is Done),
{
}

} // verus!
