//! The parts of a dongle that commands read and drive.

use vstd::prelude::*;

verus! {

/// Revision of the dongle's circuit board.
#[derive(Clone, Copy, PartialEq, Eq, Debug, Structural)]
pub enum PcbRevision {
    RevAorB,
    RevC,
}

/// A pin of the GPIO header.
#[derive(Clone, Copy, PartialEq, Eq, Debug, Structural)]
pub enum HeaderPin {
    P0,
    P1,
}

/// Direction of a pin.
#[derive(Clone, Copy, PartialEq, Eq, Debug, Structural)]
pub enum PinMode {
    Input,
    Output,
}

/// Level of a pin.
#[derive(Clone, Copy, PartialEq, Eq, Debug, Structural)]
pub enum PinState {
    High,
    Low,
}

/// A line to the mixed-signal chip that drives the CC lines: the first forces
/// SDP mode while it is high, the second holds the CC lines down while it is
/// low.
#[derive(Clone, Copy, PartialEq, Eq, Debug, Structural)]
pub enum SlgPin {
    SlgIo0,
    SlgIo1,
}

/// What can be read from a dongle. During a run each value is read at most
/// once.
#[derive(Clone, Copy, PartialEq, Eq, Debug, Structural)]
pub struct Readings {
    /// Power to the attached device is on.
    pub power: bool,
    /// A power fault is signalled.
    pub fault: bool,
    pub revision: PcbRevision,
    /// The USB data lines are connected.
    pub connected: bool,
    pub slg0: PinState,
    pub slg1: PinState,
    pub mode0: PinMode,
    pub mode1: PinMode,
    pub state0: PinState,
    pub state1: PinState,
}

impl Readings {
    /// The mode of a header pin.
    pub open spec fn mode(self, pin: HeaderPin) -> PinMode {
        match pin {
            HeaderPin::P0 => self.mode0,
            HeaderPin::P1 => self.mode1,
        }
    }

    /// The level of a header pin.
    pub open spec fn state(self, pin: HeaderPin) -> PinState {
        match pin {
            HeaderPin::P0 => self.state0,
            HeaderPin::P1 => self.state1,
        }
    }

    /// The level of a line to the mixed-signal chip.
    pub open spec fn slg(self, pin: SlgPin) -> PinState {
        match pin {
            SlgPin::SlgIo0 => self.slg0,
            SlgPin::SlgIo1 => self.slg1,
        }
    }
}

/// The name of a board revision.
pub open spec fn revision_text(revision: PcbRevision) -> Seq<char> {
    match revision {
        PcbRevision::RevAorB => "RevAorB"@,
        PcbRevision::RevC => "RevC"@,
    }
}

/// The name of a header pin.
pub open spec fn pin_text(pin: HeaderPin) -> Seq<char> {
    match pin {
        HeaderPin::P0 => "P0"@,
        HeaderPin::P1 => "P1"@,
    }
}

/// The name of a pin mode.
pub open spec fn mode_text(mode: PinMode) -> Seq<char> {
    match mode {
        PinMode::Input => "Input"@,
        PinMode::Output => "Output"@,
    }
}

/// The name of a pin level.
pub open spec fn state_text(state: PinState) -> Seq<char> {
    match state {
        PinState::High => "High"@,
        PinState::Low => "Low"@,
    }
}

impl PcbRevision {
    /// The name of the revision.
    pub fn name(&self) -> (text: &'static str)
        ensures
            text@ == revision_text(*self),
    {
        match self {
            PcbRevision::RevAorB => "RevAorB",
            PcbRevision::RevC => "RevC",
        }
    }
}

impl HeaderPin {
    /// The name of the pin.
    pub fn name(&self) -> (text: &'static str)
        ensures
            text@ == pin_text(*self),
    {
        match self {
            HeaderPin::P0 => "P0",
            HeaderPin::P1 => "P1",
        }
    }
}

impl PinMode {
    /// The name of the mode.
    pub fn name(&self) -> (text: &'static str)
        ensures
            text@ == mode_text(*self),
    {
        match self {
            PinMode::Input => "Input",
            PinMode::Output => "Output",
        }
    }
}

impl PinState {
    /// The name of the level.
    pub fn name(&self) -> (text: &'static str)
        ensures
            text@ == state_text(*self),
    {
        match self {
            PinState::High => "High",
            PinState::Low => "Low",
        }
    }
}

} // verus!
