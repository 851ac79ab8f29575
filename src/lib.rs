//! Drivers for H-bridge DC motor driver chips, over two abstract pin capabilities.
use core::marker::PhantomData;
use vstd::prelude::*;

pub mod command;
pub mod ic;
pub mod pins;

pub use crate::command::{lines_after, phase_after, Command};
use crate::pins::{OutputPin, PwmPin};

verus! {

/// A full H-bridge motor driver: two direction lines and a PWM speed line, owned
/// for the motor's lifetime, driven by the chip `IC`.
pub struct Motor<IN1, IN2, PWM, IC>
where
    IN1: OutputPin,
    IN2: OutputPin,
    PWM: PwmPin,
{
    in1: IN1,
    in2: IN2,
    pwm: PWM,
    _ic: PhantomData<IC>,
}

impl<IN1, IN2, PWM, IC> Motor<IN1, IN2, PWM, IC>
where
    IN1: OutputPin,
    IN2: OutputPin,
    PWM: PwmPin,
{
    /// The levels `(in1, in2)` the direction lines were last driven to.
    pub closed spec fn lines(&self) -> (bool, bool) {
        (self.in1.is_set_high(), self.in2.is_set_high())
    }

    /// The PWM channel driving the motor's speed.
    pub closed spec fn pwm(&self) -> PWM {
        self.pwm
    }

    /// Brakes the motor
    pub fn brake(&mut self) -> (r: &mut Self)
        ensures
            r.lines() == lines_after(old(self).lines(), Command::Brake),
            r.pwm() == old(self).pwm(),
            *final(self) == *final(r),
    {
        self.in1.set_high();
        self.in2.set_high();
        self
    }

    /// Makes the motor spin in CounterClockWise direction
    pub fn ccw(&mut self) -> (r: &mut Self)
        ensures
            r.lines() == lines_after(old(self).lines(), Command::CounterClockwise),
            r.pwm() == old(self).pwm(),
            *final(self) == *final(r),
    {
        self.in1.set_low();
        self.in2.set_high();
        self
    }

    /// Makes the motor spin in ClockWise direction
    pub fn cw(&mut self) -> (r: &mut Self)
        ensures
            r.lines() == lines_after(old(self).lines(), Command::Clockwise),
            r.pwm() == old(self).pwm(),
            *final(self) == *final(r),
    {
        self.in1.set_high();
        self.in2.set_low();
        self
    }

    /// Returns the maximum duty cycle of the PWM channel
    pub fn get_max_duty(&mut self) -> (r: PWM::Duty)
        ensures
            r == old(self).pwm().max_duty(),
            *final(self) == *old(self),
    {
        self.pwm.get_max_duty()
    }

    /// Changes the motor speed
    ///
    /// The value is handed to the channel as it is: keeping it within
    /// `get_max_duty()` is the caller's part.
    pub fn duty(&mut self, duty: PWM::Duty) -> (r: &mut Self)
        ensures
            r.lines() == old(self).lines(),
            r.pwm().duty() == duty,
            r.pwm().is_enabled() == old(self).pwm().is_enabled(),
            r.pwm().max_duty() == old(self).pwm().max_duty(),
            *final(self) == *final(r),
    {
        self.pwm.set_duty(duty);
        self
    }
}

impl<IN1, IN2, PWM> Motor<IN1, IN2, PWM, ic::L298>
where
    IN1: OutputPin,
    IN2: OutputPin,
    PWM: PwmPin,
{
    /// Creates a new `Motor`, braked, with its PWM channel enabled
    pub fn l298(in1: IN1, in2: IN2, pwm: PWM) -> (r: Self)
        ensures
            r.lines() == lines_after((in1.is_set_high(), in2.is_set_high()), Command::Brake),
            r.pwm().is_enabled(),
            r.pwm().duty() == pwm.duty(),
            r.pwm().max_duty() == pwm.max_duty(),
    {
        let mut in1 = in1;
        let mut in2 = in2;
        let mut pwm = pwm;
        // initial state: brake, before the channel is enabled
        in1.set_high();
        in2.set_high();

        pwm.enable();

        Motor { in1, in2, pwm, _ic: PhantomData }
    }
}

impl<IN1, IN2, PWM> Motor<IN1, IN2, PWM, ic::TB6612FNG>
where
    IN1: OutputPin,
    IN2: OutputPin,
    PWM: PwmPin,
{
    /// Creates a new `Motor`, braked, with its PWM channel enabled
    pub fn tb6612fng(in1: IN1, in2: IN2, pwm: PWM) -> (r: Self)
        ensures
            r.lines() == lines_after((in1.is_set_high(), in2.is_set_high()), Command::Brake),
            r.pwm().is_enabled(),
            r.pwm().duty() == pwm.duty(),
            r.pwm().max_duty() == pwm.max_duty(),
    {
        let mut in1 = in1;
        let mut in2 = in2;
        let mut pwm = pwm;
        // initial state: brake, before the channel is enabled
        in1.set_high();
        in2.set_high();

        pwm.enable();

        Motor { in1, in2, pwm, _ic: PhantomData }
    }

    /// Lets the motor coast
    pub fn coast(&mut self) -> (r: &mut Self)
        ensures
            r.lines() == lines_after(old(self).lines(), Command::Coast),
            r.pwm() == old(self).pwm(),
            *final(self) == *final(r),
    {
        self.in1.set_low();
        self.in2.set_low();
        self
    }
}

/// A motor driver with phase (0/1) and enable (PWM) inputs, owned for the motor's
/// lifetime, driven by the chip `IC`.
pub struct PhaseEnableMotor<IN, PWM, IC>
where
    IN: OutputPin,
    PWM: PwmPin,
{
    phase: IN,
    enable: PWM,
    _ic: PhantomData<IC>,
}

impl<IN, PWM, IC> PhaseEnableMotor<IN, PWM, IC>
where
    IN: OutputPin,
    PWM: PwmPin,
{
    /// Whether the phase line was last driven HIGH.
    pub closed spec fn phase(&self) -> bool {
        self.phase.is_set_high()
    }

    /// The PWM channel on the enable input.
    pub closed spec fn enable(&self) -> PWM {
        self.enable
    }

    /// Makes the motor spin in CounterClockWise direction
    pub fn ccw(&mut self) -> (r: &mut Self)
        ensures
            r.phase() == phase_after(old(self).phase(), Command::CounterClockwise),
            r.enable() == old(self).enable(),
            *final(self) == *final(r),
    {
        self.phase.set_low();
        self
    }

    /// Makes the motor spin in ClockWise direction
    pub fn cw(&mut self) -> (r: &mut Self)
        ensures
            r.phase() == phase_after(old(self).phase(), Command::Clockwise),
            r.enable() == old(self).enable(),
            *final(self) == *final(r),
    {
        self.phase.set_high();
        self
    }

    /// Returns the maximum duty cycle of the PWM channel
    pub fn get_max_duty(&mut self) -> (r: PWM::Duty)
        ensures
            r == old(self).enable().max_duty(),
            *final(self) == *old(self),
    {
        self.enable.get_max_duty()
    }

    /// Changes the motor speed
    ///
    /// If duty is zero, the motor brakes (both motor lines are shorted to
    /// ground)
    pub fn duty(&mut self, duty: PWM::Duty) -> (r: &mut Self)
        ensures
            r.phase() == old(self).phase(),
            r.enable().duty() == duty,
            r.enable().is_enabled() == old(self).enable().is_enabled(),
            r.enable().max_duty() == old(self).enable().max_duty(),
            *final(self) == *final(r),
    {
        self.enable.set_duty(duty);
        self
    }
}

impl<IN, PWM> PhaseEnableMotor<IN, PWM, ic::DRV8835PE>
where
    IN: OutputPin,
    PWM: PwmPin,
    PWM::Duty: From<u8>,
{
    /// Creates a new `PhaseEnableMotor`: zero duty (brake), phase LOW, channel enabled
    ///
    /// The zero duty is the `Duty` that `From<u8>` makes of `0`; where that
    /// conversion has a specification (the integer types), the last clause says so.
    pub fn drv8835pe(phase: IN, enable: PWM) -> (r: Self)
        ensures
            !r.phase(),
            r.enable().is_enabled(),
            r.enable().max_duty() == enable.max_duty(),
            <PWM::Duty as vstd::std_specs::convert::FromSpec<u8>>::obeys_from_spec() ==> r.enable().duty()
                == <PWM::Duty as vstd::std_specs::convert::FromSpec<u8>>::from_spec(0u8),
    {
        let mut phase = phase;
        let mut enable = enable;
        // initial state: brake, phase low, before the channel is enabled
        enable.set_duty(PWM::Duty::from(0u8));
        phase.set_low();

        enable.enable();

        PhaseEnableMotor { phase, enable, _ic: PhantomData }
    }
}

} // verus!
