//! The two pin capabilities a motor driver is built from.
use vstd::prelude::*;

verus! {

/// A digital output line that the driver can drive HIGH or LOW.
pub trait OutputPin {
    /// Whether the line was last driven HIGH.
    spec fn is_set_high(&self) -> bool;

    /// Drives the line LOW.
    fn set_low(&mut self)
        ensures
            !final(self).is_set_high(),
    ;

    /// Drives the line HIGH.
    fn set_high(&mut self)
        ensures
            final(self).is_set_high(),
    ;
}

/// A single PWM channel.
pub trait PwmPin {
    /// The representation of a duty cycle, chosen by the channel.
    type Duty;

    /// Whether the channel's output has been enabled.
    spec fn is_enabled(&self) -> bool;

    /// The duty cycle last set on the channel.
    spec fn duty(&self) -> Self::Duty;

    /// The largest duty cycle the channel can represent (its resolution).
    spec fn max_duty(&self) -> Self::Duty;

    /// Enables the channel's output; the duty cycle and resolution stay as they were.
    fn enable(&mut self)
        ensures
            final(self).is_enabled(),
            final(self).duty() == old(self).duty(),
            final(self).max_duty() == old(self).max_duty(),
    ;

    /// Returns the largest duty cycle the channel can represent.
    fn get_max_duty(&self) -> (r: Self::Duty)
        ensures
            r == self.max_duty(),
    ;

    /// Sets a new duty cycle; whether the output is enabled, and the resolution, stay as they were.
    fn set_duty(&mut self, duty: Self::Duty)
        ensures
            final(self).duty() == duty,
            final(self).is_enabled() == old(self).is_enabled(),
            final(self).max_duty() == old(self).max_duty(),
    ;
}

} // verus!
