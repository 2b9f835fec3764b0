//! The timed, mutually exclusive pulse model of the actuation line.
//!
//! The line runs one pulse at a time: a granted request drives the line
//! active now and keeps it busy for the configured pulse duration, and a
//! request that arrives while a pulse is still running is reported busy and
//! dropped — never queued, never retried. Time is an explicit microsecond
//! argument, so the exclusivity window is part of the contract.

use vstd::prelude::*;
use crate::gpio::{OutputPin, Pin};

verus! {

/// The single actuation line: the pin it pulses, the configured pulse
/// duration, and the start of the most recent granted pulse.
pub struct PulseLine {
    /// The number of the pin being pulsed.
    pub pin: u8,
    /// Length of one pulse, in microseconds.
    pub pulse_us: u64,
    /// Whether a pulse has ever been granted.
    pub started: bool,
    /// Start time of the most recent granted pulse, in microseconds.
    pub last_start: u64,
}

impl PulseLine {
    /// Whether the line is busy at time `t`: a granted pulse has not yet run
    /// out. A time before the most recent grant also counts as busy, so the
    /// answer never promises the line free out of order.
    pub open spec fn busy_at(self, t: u64) -> bool {
        self.started && t < self.last_start + self.pulse_us
    }

    /// Whether the line is driven to its active level at time `t`: inside
    /// the window of the most recent granted pulse.
    pub open spec fn active_at(self, t: u64) -> bool {
        self.started && self.last_start <= t < self.last_start + self.pulse_us
    }

    /// The state after a request granted at time `t`.
    pub open spec fn after_grant(self, t: u64) -> PulseLine {
        PulseLine { started: true, last_start: t, ..self }
    }

    /// A line that has never pulsed, for the given pin and pulse duration.
    pub fn new(pin: u8, pulse_us: u64) -> (r: PulseLine)
        ensures
            r.pin == pin,
            r.pulse_us == pulse_us,
            !r.started,
            forall|t: u64| !r.busy_at(t),
    {
        PulseLine { pin, pulse_us, started: false, last_start: 0 }
    }

    /// Non-blocking acquisition: granted exactly when the line is free at
    /// `t`, in which case the pulse window `[t, t + pulse_us)` opens; a busy
    /// line is left exactly as it was, and the request is dropped.
    pub fn request(&mut self, t: u64) -> (granted: bool)
        ensures
            granted == !old(self).busy_at(t),
            granted ==> *final(self) == old(self).after_grant(t),
            !granted ==> *final(self) == *old(self),
    {
        let busy = self.started && (t as u128) < (self.last_start as u128) + (
        self.pulse_us as u128);
        if busy {
            false
        } else {
            self.started = true;
            self.last_start = t;
            true
        }
    }

    /// Whether the line is busy at time `t`.
    pub fn is_busy(&self, t: u64) -> (r: bool)
        ensures
            r == self.busy_at(t),
    {
        self.started && (t as u128) < (self.last_start as u128) + (self.pulse_us as u128)
    }

    /// Whether the line is driven active at time `t`.
    pub fn is_pulsing(&self, t: u64) -> (r: bool)
        ensures
            r == self.active_at(t),
    {
        self.started && self.last_start <= t && (t as u128) < (self.last_start as u128) + (
        self.pulse_us as u128)
    }
}

/// Exclusivity of overlapping requests: once a request is granted at `t0`,
/// any request inside the pulse window observes the line busy (and is
/// therefore dropped), while any request at or after `t0 + pulse_us` finds
/// the line free again.
pub proof fn lemma_exclusive_pulse(line: PulseLine, t0: u64, t1: u64, t2: u64)
    requires
        !line.busy_at(t0),
        t0 <= t1,
        t1 < t0 + line.pulse_us,
        t0 + line.pulse_us <= t2,
    ensures
        line.after_grant(t0).busy_at(t1),
        line.after_grant(t0).active_at(t1),
        !line.after_grant(t0).busy_at(t2),
        !line.after_grant(t0).active_at(t2),
{
}

/// The start of a pulse unit: configure the pin for output and drive the
/// line to its active level.
pub fn begin_pulse(pin: Pin) -> (out: OutputPin)
    ensures
        out.number == pin.number,
        out.high,
        out.reset_on_drop,
{
    let mut out = pin.into_output();
    out.set_high();
    out
}

/// The end of a pulse unit: return the line to its inert level. The pin's
/// number and drop behaviour are untouched.
pub fn end_pulse(out: &mut OutputPin)
    ensures
        final(out).number == old(out).number,
        !final(out).high,
        final(out).reset_on_drop == old(out).reset_on_drop,
{
    out.set_low();
}

} // verus!
