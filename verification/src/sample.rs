//! The immutable snapshot one acquisition cycle produces.

use vstd::prelude::*;

verus! {

/// One physical quantity tracked over time.
#[derive(Clone, Copy, PartialEq, Eq, Structural, Debug)]
pub enum Channel {
    Power,
    Torque,
    Speed,
    Heat,
    Cycles,
}

/// One acquisition cycle's result. Immutable once constructed.
/// Every value field is in thousandths of its engineering unit.
#[derive(Clone, Copy, PartialEq, Eq, Structural, Debug)]
pub struct MotorData {
    /// Wall-clock time of derivation, whole seconds since the epoch.
    pub timestamp: i64,
    /// Thousandths of a kilowatt.
    pub current_power: i64,
    /// Thousandths of a newton-metre.
    pub current_torque: i64,
    /// Thousandths of an rpm.
    pub current_speed: i64,
    /// Thousandths of a degree Celsius.
    pub current_heat: i64,
    /// Thousandths of the dimensionless torque-by-period accumulator; this
    /// field is the current tick's contribution alone, never a running total.
    pub current_cycles: i64,
}

impl MotorData {
    /// The value this sample carries on one channel.
    pub open spec fn channel_value(self, c: Channel) -> i64 {
        match c {
            Channel::Power => self.current_power,
            Channel::Torque => self.current_torque,
            Channel::Speed => self.current_speed,
            Channel::Heat => self.current_heat,
            Channel::Cycles => self.current_cycles,
        }
    }
}

} // verus!
