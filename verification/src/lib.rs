//! The logic of a command-line tool for USB power dongles: which of the
//! connected USB devices are dongles, which of them a user means, and what is
//! to be read from and written to the chosen one for each command.
//!
//! The library touches no hardware. It takes the enumerated devices and the
//! values read from a dongle as plain data, and answers with text to print and
//! with actions to perform.

pub mod calls;
pub mod causality;
pub mod command;
pub mod conduct;
pub mod device;
pub mod discovery;
pub mod effects;
pub mod error;
pub mod hardware;
pub mod message;
pub mod paths;
pub mod pattern;
pub mod reply;
pub mod script;
pub mod selection;
pub mod session;
pub mod startup;
pub mod style;
pub mod text;
pub mod udev;
pub mod wording;

