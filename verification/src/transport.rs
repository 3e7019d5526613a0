//! What the USB transport can answer, and which answers stop the device.
use vstd::prelude::*;

verus! {

/// The transport's answer to a report or to a maintenance tick.
#[derive(Clone, Copy, Debug, PartialEq, Eq, Structural)]
pub enum TransportOutcome {
    /// The transport took the report.
    Accepted,
    /// The transport cannot take a report now. The report is offered
    /// again when its interval next expires.
    Busy,
    /// The transport already holds this very report.
    Duplicate,
    /// Any other failure. Nothing can be done about it.
    Fault,
}

/// What the host had to say when the transport was polled.
#[derive(Clone, Copy, Debug, PartialEq, Eq, Structural)]
pub enum PollResult {
    /// Nothing arrived.
    Quiet,
    /// The host sent the state of the keyboard LEDs.
    Leds { caps_lock: bool },
    /// Reading the host's report failed.
    Fault,
}

/// Whether the device goes on after the transport's answer.
#[derive(Clone, Copy, Debug, PartialEq, Eq, Structural)]
pub enum Verdict {
    Continue,
    Halt,
}

/// The operation during which the device stopped.
#[derive(Clone, Copy, Debug, PartialEq, Eq, Structural)]
pub enum HaltReason {
    /// Writing a keyboard report failed.
    KeyboardReport,
    /// The maintenance tick of the transport failed.
    TransportTick,
    /// Reading the host's report failed.
    TransportPoll,
    /// Writing a consumer report failed.
    ConsumerReport,
    /// A pin could not be read or driven.
    Hardware,
}

impl TransportOutcome {
    /// An answer is fatal unless the transport accepted the report, was
    /// busy, or found the report unchanged.
    pub open spec fn is_fatal(self) -> bool {
        self == TransportOutcome::Fault
    }

    /// Decides whether the device goes on after this answer.
    pub fn verdict(self) -> (verdict: Verdict)
        ensures
            verdict == (if self.is_fatal() {
                Verdict::Halt
            } else {
                Verdict::Continue
            }),
    {
        match self {
            TransportOutcome::Fault => Verdict::Halt,
            _ => Verdict::Continue,
        }
    }
}

} // verus!
