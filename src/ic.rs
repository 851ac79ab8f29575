//! Supported ICs (integrated circuits), as type-level tags of a motor.
use vstd::prelude::*;

verus! {

/// TB6612FNG, dual DC motor driver.
///
/// Connections: IN1 = xIN1, IN2 = xIN2, PWM = PWMx, where x = A or B.
/// The STANDBY (STBY) pin needs to be driven high.
pub struct TB6612FNG;

/// L298, dual full-bridge driver.
///
/// Connections: (IN1, IN2, PWM) = (In1, In2, EnA) or (In3, In4, EnB).
pub struct L298;

/// DRV8835 in phase/enable mode.
///
/// Connections: PHASE = xPHASE, ENABLE = xENABLE, where x = A or B.
/// The MODE pin needs to be driven high.
pub struct DRV8835PE;

} // verus!
