//! The output-line capability: a controller that hands out pins, and an
//! output pin with its drive level and fail-safe configuration.
//!
//! The model keeps the observable state of the line — which pin it is,
//! whether it is driven high, and whether it is reset when dropped — as
//! plain values, so that the pulse logic above it can be verified. The
//! constructors cannot fail in this model; they keep their fallible
//! signatures so that callers handle the error path the hardware-backed
//! controller has.

use vstd::prelude::*;

verus! {

/// The error a controller or pin operation reports when it fails.
#[derive(Clone, Copy, Debug)]
pub struct GpioError {}

/// The controller that hands out pins by number.
pub struct Gpio {}

/// One pin, not yet configured for output.
pub struct Pin {
    /// The pin's number on the controller.
    pub number: u8,
}

/// A pin configured as a digital output.
pub struct OutputPin {
    /// The pin's number on the controller.
    pub number: u8,
    /// Whether the line is currently driven to its active (high) level.
    pub high: bool,
    /// Whether dropping the pin resets the line. Switched off at startup so
    /// the line stays at the level it was left at — which is the inert one,
    /// since every pulse ends by driving the line low.
    pub reset_on_drop: bool,
}

impl Gpio {
    /// Open the controller. Cannot fail in this model.
    pub fn new() -> (r: Result<Gpio, GpioError>)
        ensures
            r is Ok,
    {
        Ok(Gpio {  })
    }

    /// Hand out the pin with the given number. Cannot fail in this model.
    pub fn get(&self, number: u8) -> (r: Result<Pin, GpioError>)
        ensures
            r is Ok,
            r matches Ok(p) ==> p.number == number,
    {
        Ok(Pin { number })
    }
}

impl Pin {
    /// Configure the pin for output. The line starts at the inert (low)
    /// level, and resets on drop until configured otherwise.
    pub fn into_output(self) -> (r: OutputPin)
        ensures
            r.number == self.number,
            !r.high,
            r.reset_on_drop,
    {
        OutputPin { number: self.number, high: false, reset_on_drop: true }
    }

    /// Configure the pin for output, explicitly driving the inert (low)
    /// level first.
    pub fn into_output_low(self) -> (r: OutputPin)
        ensures
            r.number == self.number,
            !r.high,
            r.reset_on_drop,
    {
        OutputPin { number: self.number, high: false, reset_on_drop: true }
    }
}

impl OutputPin {
    /// Drive the line to the inert (low) level.
    pub fn set_low(&mut self)
        ensures
            final(self).number == old(self).number,
            !final(self).high,
            final(self).reset_on_drop == old(self).reset_on_drop,
    {
        self.high = false;
    }

    /// Drive the line to the active (high) level.
    pub fn set_high(&mut self)
        ensures
            final(self).number == old(self).number,
            final(self).high,
            final(self).reset_on_drop == old(self).reset_on_drop,
    {
        self.high = true;
    }

    /// Choose whether dropping the pin resets the line.
    pub fn set_reset_on_drop(&mut self, reset_on_drop: bool)
        ensures
            final(self).number == old(self).number,
            final(self).high == old(self).high,
            final(self).reset_on_drop == reset_on_drop,
    {
        self.reset_on_drop = reset_on_drop;
    }
}

} // verus!
