//! The daemon's error taxonomy, over plain values.

use vstd::prelude::*;

use crate::event::RawEvent;

verus! {

/// The `errno` value the kernel reports when a device node vanishes
/// (`ENODEV`); reading the dial after an unplug fails with it, and that
/// failure is a normal disconnect rather than an error.
pub const ENODEV: i32 = 19;

/// Everything that can go fatally wrong in the daemon. Payloads are plain
/// values; the surrounding program turns them into user-visible text.
#[derive(Clone, Copy, Debug, PartialEq, Eq, Structural)]
pub enum Error {
    /// The config file could not be loaded, parsed or saved.
    ConfigFile,
    /// The input devices could not be enumerated or opened.
    DeviceDiscovery,
    /// The HID channel to the dial failed.
    Hid,
    /// No dial was found at startup.
    MissingDial,
    /// More than one dial was found for one of the two channels.
    MultipleDials,
    /// An evdev event the normalizer cannot classify.
    UnexpectedEvent(RawEvent),
    /// A kernel read failure, with its `errno`.
    Evdev(i32),
    /// The notification service failed.
    Notification,
    /// A termination signal was received.
    TermSig,
}

impl Error {
    /// An `Evdev` failure with `ENODEV` is the dial unplugging: a clean
    /// disconnect, never surfaced to the user as an error.
    pub open spec fn spec_is_clean_disconnect(&self) -> bool {
        self matches Error::Evdev(e) && e == ENODEV
    }

    /// Classifies this error: `true` exactly for `Evdev(ENODEV)`.
    pub fn is_clean_disconnect(&self) -> (r: bool)
        ensures
            r == self.spec_is_clean_disconnect(),
    {
        match self {
            Error::Evdev(e) => *e == ENODEV,
            _ => false,
        }
    }
}

/// How the process ends on a fatal error: silently, with the
/// termination notice, or with an error notice.
#[derive(Clone, Copy, Debug, PartialEq, Eq, Structural)]
pub enum ExitKind {
    /// No notification: the dial merely disconnected.
    Silent,
    /// A termination signal: notify with the warning icon.
    Terminated,
    /// Anything else: notify with the error icon.
    Fault,
}

/// Decides the top level's last act for a fatal error: a termination
/// signal gets the termination notice, the dial unplugging gets
/// silence, everything else an error notice.
pub fn exit_kind(e: &Error) -> (r: ExitKind)
    ensures
        e is TermSig ==> r is Terminated,
        e.spec_is_clean_disconnect() ==> r is Silent,
        !(e is TermSig) && !e.spec_is_clean_disconnect() ==> r is Fault,
{
    match e {
        Error::TermSig => ExitKind::Terminated,
        Error::Evdev(errno) => if *errno == ENODEV {
            ExitKind::Silent
        } else {
            ExitKind::Fault
        },
        _ => ExitKind::Fault,
    }
}

} // verus!
