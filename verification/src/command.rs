//! The commands that a user can give.

use vstd::prelude::*;

use crate::hardware::{HeaderPin, PinMode, PinState};

verus! {

/// A command, with its arguments.
#[derive(Clone, Copy, PartialEq, Eq, Debug, Structural)]
pub enum Commands {
    /// Power on if not already on
    On,
    /// Power off if not already off
    Off,
    /// Print dongle information (power status, IO config)
    Status,
    /// List connected devices serials
    List,
    /// Force SDP for 10 seconds, then go back to USART mode (PCB RevC and up)
    Sdp,
    /// Force SDP mode (PCB RevC and up)
    ForceSdp,
    /// Release to USART mode (PCB RevC and up)
    ReleaseSdp,
    /// Disconnect USB data lines from a device (PCB RevC and up)
    Detach,
    /// Connect USB data lines to the device (PCB RevC and up)
    Attach,
    /// Emulate cable detach (PCB RevC and up)
    FullDetach,
    /// Emulate cable insertion (PCB RevC and up)
    FullAttach,
    /// Configure GPIO header pin as Input or Output (PCB RevC and up)
    GpioConfig { pin: HeaderPin, mode: PinMode },
    /// Set GPIO header pin configured as Output to High or Low (PCB RevC and up)
    GpioSet { pin: HeaderPin, state: PinState },
    /// Read GPIO header pin state (PCB RevC and up)
    GpioGet { pin: HeaderPin },
    /// Print udev rules
    Udev,
}

impl Commands {
    /// Whether the command needs a board of revision C.
    pub open spec fn needs_rev_c(self) -> bool {
        match self {
            Commands::On | Commands::Off | Commands::Status | Commands::List | Commands::Udev => {
                false
            },
            _ => true,
        }
    }
}

} // verus!
