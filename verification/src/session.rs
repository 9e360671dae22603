//! A run of a command on an opened dongle, one action at a time.
//!
//! A [`Session`] says which action comes next; its user performs the action
//! and hands the reply back. The values read on the way decide what follows.

use vstd::prelude::*;

use crate::causality;
use crate::command::Commands;
use crate::device::{USBDevice, USBDeviceView};
use crate::hardware::{PcbRevision, PinMode, PinState, Readings};
use crate::reply;
use crate::reply::{learned, Reply};
use crate::script;
use crate::script::{script_actions, Action};
use crate::text;
use crate::text::str_contains;

verus! {

/// A run: its command, what is known of the dongle, and how far it has come.
pub struct SessionView {
    pub command: Commands,
    /// The dongle drives a relay.
    pub relay: bool,
    pub serial: Seq<char>,
    /// What has been read. Values that were not read yet say nothing.
    pub readings: Readings,
    /// How many actions are done.
    pub done: int,
}

impl SessionView {
    /// What the run does, as far as that is known.
    pub open spec fn script(self) -> Seq<Action> {
        causality::actions(self.command, self.relay, self.readings)
    }

    /// Whether there is an action that comes next.
    pub open spec fn valid(self) -> bool {
        0 <= self.done < self.script().len()
    }

    /// The action that comes next.
    pub open spec fn pending(self) -> Action {
        self.script()[self.done]
    }

    /// The run after the reply to the action that came next.
    pub open spec fn after(self, reply: Reply) -> SessionView {
        SessionView {
            readings: reply::learn(self.readings, self.pending(), reply),
            done: self.done + 1,
            ..self
        }
    }
}

/// The readings that a run starts from, all of them still to be replaced.
pub open spec fn unread() -> Readings {
    Readings {
        power: false,
        fault: false,
        revision: PcbRevision::RevAorB,
        connected: false,
        slg0: PinState::Low,
        slg1: PinState::Low,
        mode0: PinMode::Input,
        mode1: PinMode::Input,
        state0: PinState::Low,
        state1: PinState::Low,
    }
}

/// Whether a dongle is of the variant with a relay: its product string says so.
pub open spec fn is_relay_variant(device: USBDeviceView) -> bool {
    text::occurs_in("relay"@, device.product_string)
}

/// The start of a run on a dongle.
pub open spec fn fresh(command: Commands, device: USBDeviceView) -> SessionView {
    SessionView {
        command,
        relay: is_relay_variant(device),
        serial: device.serial,
        readings: unread(),
        done: 0,
    }
}

/// A run of a command on an opened dongle.
#[derive(Debug)]
pub struct Session {
    command: Commands,
    relay: bool,
    serial: String,
    readings: Readings,
    done: usize,
}

impl View for Session {
    type V = SessionView;

    closed spec fn view(&self) -> SessionView {
        SessionView {
            command: self.command,
            relay: self.relay,
            serial: self.serial@,
            readings: self.readings,
            done: self.done as int,
        }
    }
}

impl Session {
    /// A run that is about to start.
    pub fn new(command: Commands, device: &USBDevice) -> (session: Session)
        ensures
            session@ == fresh(command, device@),
            session@.valid(),
            session@.script() == script::script(
                command,
                is_relay_variant(device@),
                session@.readings,
            ),
    {
        proof {
            reveal(causality::actions);
            causality::actions_end(command, is_relay_variant(device@), unread());
        }
        Session {
            command,
            relay: str_contains(device.product_string.as_str(), "relay"),
            serial: device.serial.clone(),
            readings: Readings {
                power: false,
                fault: false,
                revision: PcbRevision::RevAorB,
                connected: false,
                slg0: PinState::Low,
                slg1: PinState::Low,
                mode0: PinMode::Input,
                mode1: PinMode::Input,
                state0: PinState::Low,
                state1: PinState::Low,
            },
            done: 0,
        }
    }

    /// The serial of the dongle.
    pub fn serial(&self) -> (serial: &str)
        ensures
            serial@ == self@.serial,
    {
        self.serial.as_str()
    }

    /// The action that comes next, and the place after it.
    fn pending_and_next(&self) -> (step: (Action, usize))
        requires
            self@.valid(),
        ensures
            step.0 == self@.pending(),
            step.1 == self.done + 1,
    {
        let mut script = script_actions(self.command, self.relay, &self.readings);
        proof {
            reveal(causality::actions);
        }
        let len: usize = script.len();
        assert(self.done < len);
        let next: usize = self.done + 1;
        (script.swap_remove(self.done), next)
    }

    /// The action that comes next.
    pub fn pending(&self) -> (action: Action)
        requires
            self@.valid(),
        ensures
            action == self@.pending(),
            action == script::script(self@.command, self@.relay, self@.readings)[self@.done],
    {
        proof {
            causality::unexpanded(self.command, self.relay, self.readings);
        }
        self.pending_and_next().0
    }

    /// Takes the reply to the action that came next.
    pub fn record(&mut self, reply: Reply)
        requires
            old(self)@.valid(),
            reply::fits(old(self)@.pending(), reply),
        ensures
            final(self)@ == old(self)@.after(reply),
            final(self)@.valid(),
            final(self)@.script() == script::script(
                final(self)@.command,
                final(self)@.relay,
                final(self)@.readings,
            ),
    {
        let (action, next) = self.pending_and_next();
        proof {
            causality::script_goes_on(
                self.command,
                self.relay,
                self.readings,
                self.done as int,
                reply,
            );
        }
        self.readings = learned(self.readings, &action, reply);
        self.done = next;
        proof {
            causality::unexpanded(self.command, self.relay, self.readings);
        }
    }
}

/// A run after `n` actions on a dongle whose readings are `w`.
pub open spec fn run(start: SessionView, w: Readings, n: nat) -> SessionView
    decreases n,
{
    if n == 0 {
        start
    } else {
        let before = run(start, w, (n - 1) as nat);
        before.after(reply::answer(before.pending(), w))
    }
}

/// A run does what the script says for what the dongle shows: the action after
/// `n` others is the one at place `n` of the script, every reply fits, and the
/// run ends where the script does. What a run asks for does not depend on
/// values that it has not read.
pub proof fn run_follows_script(command: Commands, device: USBDeviceView, w: Readings, n: nat)
    requires
        n < script::script(command, is_relay_variant(device), w).len(),
    ensures
        ({
            let actions = script::script(command, is_relay_variant(device), w);
            let now = run(fresh(command, device), w, n);
            &&& now.valid()
            &&& now.done == n
            &&& now.pending() == actions[n as int]
            &&& n + 1 < actions.len() ==> reply::fits(now.pending(), reply::answer(now.pending(), w))
            &&& n + 1 == actions.len() <==> now.pending() is Finish
        }),
{
    let relay = is_relay_variant(device);
    let now = run(fresh(command, device), w, n);
    causality::unexpanded(command, relay, w);
    run_has_read(command, device, w, n);
    causality::actions_follow_reads(command, relay, now.readings, w, n as int);
    causality::actions_end(command, relay, w);
}

/// A run holds the values that the dongle showed where it read.
proof fn run_has_read(command: Commands, device: USBDeviceView, w: Readings, n: nat)
    requires
        n < causality::actions(command, is_relay_variant(device), w).len(),
    ensures
        ({
            let now = run(fresh(command, device), w, n);
            &&& now.command == command
            &&& now.relay == is_relay_variant(device)
            &&& now.valid()
            &&& now.done == n
            &&& forall|i: int|
                0 <= i < n ==> reply::reads_same(#[trigger] now.script()[i], now.readings, w)
        }),
    decreases n,
{
    let relay = is_relay_variant(device);
    let now = run(fresh(command, device), w, n);
    if n == 0 {
        causality::actions_end(command, relay, unread());
    } else {
        let k = (n - 1) as nat;
        run_has_read(command, device, w, k);
        let before = run(fresh(command, device), w, k);
        let r = before.readings;
        causality::actions_follow_reads(command, relay, r, w, k as int);
        causality::actions_end(command, relay, w);
        assert(causality::actions(command, relay, w)[k as int] == before.pending());
        assert(!(before.pending() is Finish));
        causality::script_goes_on(command, relay, r, k as int, reply::answer(before.pending(), w));
        assert forall|i: int| 0 <= i < n implies reply::reads_same(
            #[trigger] now.script()[i],
            now.readings,
            w,
        ) by {
            assert(now.script()[i] == before.script()[i]);
            if i == k {
                reply::learn_reads(r, before.pending(), w);
            } else {
                assert(reply::reads_same(before.script()[i], r, w));
            }
        }
    }
}

/// A dongle is of the relay variant exactly where its product string has the five
/// letters `relay` in a row.
pub proof fn relay_variants_say_so(device: USBDeviceView)
    ensures
        is_relay_variant(device) <==> exists|i: int|
            0 <= i && i + 5 <= device.product_string.len() && #[trigger] device.product_string[i]
                == 'r' && device.product_string[i + 1] == 'e' && device.product_string[i + 2] == 'l'
                && device.product_string[i + 3] == 'a' && device.product_string[i + 4] == 'y',
{
    reveal_strlit("relay");
    let s = device.product_string;
    if is_relay_variant(device) {
        let i = choose|i: int|
            0 <= i && i + "relay"@.len() <= s.len() && #[trigger] s.subrange(i, i + "relay"@.len())
                == "relay"@;
        let part = s.subrange(i, i + 5);
        assert(part[0] == s[i] && part[1] == s[i + 1] && part[2] == s[i + 2] && part[3] == s[i + 3]
            && part[4] == s[i + 4]);
    }
    if exists|i: int|
        0 <= i && i + 5 <= s.len() && #[trigger] s[i] == 'r' && s[i + 1] == 'e' && s[i + 2] == 'l'
            && s[i + 3] == 'a' && s[i + 4] == 'y' {
        let i = choose|i: int|
            0 <= i && i + 5 <= s.len() && #[trigger] s[i] == 'r' && s[i + 1] == 'e' && s[i + 2]
                == 'l' && s[i + 3] == 'a' && s[i + 4] == 'y';
        assert(s.subrange(i, i + 5) =~= "relay"@);
    }
}

/// A run starts at its first action, for its command and its dongle.
pub proof fn runs_start_fresh(command: Commands, device: USBDeviceView)
    ensures
        fresh(command, device).command == command,
        fresh(command, device).relay == is_relay_variant(device),
        fresh(command, device).serial == device.serial,
        fresh(command, device).done == 0,
        fresh(command, device).pending() == Action::ReadPower,
{
    causality::unexpanded(command, is_relay_variant(device), unread());
}

/// A reply brings a run one action further and changes neither its command nor
/// its dongle.
pub proof fn replies_bring_a_run_further(run: SessionView, reply: Reply)
    ensures
        run.after(reply).command == run.command,
        run.after(reply).relay == run.relay,
        run.after(reply).serial == run.serial,
        run.after(reply).done == run.done + 1,
        run.after(reply).readings == reply::learn(run.readings, run.pending(), reply),
        run.script() == script::script(run.command, run.relay, run.readings),
        run.pending() == script::script(run.command, run.relay, run.readings)[run.done],
{
    causality::unexpanded(run.command, run.relay, run.readings);
}

} // verus!
