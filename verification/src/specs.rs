//! Static nameplate ratings of the monitored motor.

use vstd::prelude::*;

verus! {

/// The motor's rated figures, loaded once at startup and never mutated.
/// Each field is in thousandths of its engineering unit.
#[derive(Clone, Copy, PartialEq, Eq, Structural, Debug)]
pub struct MotorSpecs {
    /// Rated power, thousandths of a kilowatt.
    pub rated_power: i64,
    /// Rated torque, thousandths of a newton-metre.
    pub rated_torque: i64,
    /// Rated speed, thousandths of an rpm.
    pub rated_speed: i64,
    /// Peak torque, thousandths of a newton-metre.
    pub peak_torque: i64,
    /// Maximum speed, thousandths of an rpm.
    pub max_speed: i64,
}

impl MotorSpecs {
    pub fn new(
        rated_power: i64,
        rated_torque: i64,
        rated_speed: i64,
        peak_torque: i64,
        max_speed: i64,
    ) -> (s: MotorSpecs)
        ensures
            s.rated_power == rated_power,
            s.rated_torque == rated_torque,
            s.rated_speed == rated_speed,
            s.peak_torque == peak_torque,
            s.max_speed == max_speed,
    {
        MotorSpecs { rated_power, rated_torque, rated_speed, peak_torque, max_speed }
    }
}

} // verus!
