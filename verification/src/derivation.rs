//! Pure derivation of engineering values from raw register counts.
//!
//! Derivation is deterministic: the sample is a function of the raw words,
//! the configured torque placeholder, the tick period, the nameplate ratings
//! and the timestamp, and of nothing else.

use vstd::prelude::*;
use crate::sample::MotorData;
use crate::specs::MotorSpecs;

verus! {

/// Electrical power in thousandths of a kilowatt: a raw volt count times a
/// raw ampere count gives watts, and a watt is exactly a thousandth of a
/// kilowatt, so the plain product is the fixed-point value of
/// `volts * amps / 1000` kilowatts, with nothing lost.
pub open spec fn power_milli(volts: u16, amps: u16) -> int {
    volts as int * amps as int
}

/// The current tick's cycle contribution, `torque * period` in fixed point:
/// thousandths times thousandths scaled back to thousandths, truncating.
pub open spec fn cycles_milli(torque: i64, period: i64) -> int {
    (torque as int * period as int) / 1000
}

/// The sample derived from one cycle's raw words. `torque` is the configured
/// placeholder (no torque sensor input exists), `period` the tick period in
/// thousandths of a second. The nameplate ratings are reference constants of
/// derivation; none of today's formulas reads them, which this definition
/// makes plain.
pub open spec fn spec_derived(
    raw_voltage: u16,
    raw_current: u16,
    raw_heat: u16,
    raw_speed: u16,
    torque: i64,
    period: i64,
    specs: MotorSpecs,
    timestamp: i64,
) -> MotorData {
    MotorData {
        timestamp,
        current_power: power_milli(raw_voltage, raw_current) as i64,
        current_torque: torque,
        current_speed: (raw_speed as int * 1000) as i64,
        current_heat: (raw_heat as int * 1000) as i64,
        current_cycles: cycles_milli(torque, period) as i64,
    }
}

/// Computes `power_milli` exactly.
pub fn calculate_power(volts: u16, amps: u16) -> (p: i64)
    ensures
        p == power_milli(volts, amps),
{
    proof {
        assert((volts as int) * (amps as int) <= 65535 * 65535) by (nonlinear_arith)
            requires
                volts <= 65535,
                amps <= 65535,
        ;
        assert(0 <= (volts as int) * (amps as int)) by (nonlinear_arith);
    }
    (volts as i64) * (amps as i64)
}

/// Computes `cycles_milli` exactly. The bound on the product is forced by the
/// machine word; the tick period and torque placeholder are far below it.
pub fn calculate_cycles(torque: i64, period: i64) -> (c: i64)
    requires
        0 <= torque,
        0 <= period,
        torque * period <= i64::MAX,
    ensures
        c == cycles_milli(torque, period),
{
    proof {
        assert(0 <= (torque as int) * (period as int)) by (nonlinear_arith)
            requires
                0 <= torque,
                0 <= period,
        ;
    }
    (torque * period) / 1000
}

/// Derives one cycle's sample from the four raw register words.
#[allow(unused_variables)]
pub fn derive_sample(
    raw_voltage: u16,
    raw_current: u16,
    raw_heat: u16,
    raw_speed: u16,
    torque: i64,
    period: i64,
    specs: &MotorSpecs,
    timestamp: i64,
) -> (d: MotorData)
    requires
        0 <= torque,
        0 <= period,
        torque * period <= i64::MAX,
    ensures
        d == spec_derived(
            raw_voltage,
            raw_current,
            raw_heat,
            raw_speed,
            torque,
            period,
            *specs,
            timestamp,
        ),
{
    let current_power = calculate_power(raw_voltage, raw_current);
    let current_cycles = calculate_cycles(torque, period);
    MotorData {
        timestamp,
        current_power,
        current_torque: torque,
        current_speed: (raw_speed as i64) * 1000,
        current_heat: (raw_heat as i64) * 1000,
        current_cycles,
    }
}

/// Derivation is pure: two derivations from the same raw words, torque
/// placeholder, period and ratings agree on every field but the timestamp,
/// whatever the two clocks read.
pub proof fn lemma_derive_deterministic(
    raw_voltage: u16,
    raw_current: u16,
    raw_heat: u16,
    raw_speed: u16,
    torque: i64,
    period: i64,
    specs: MotorSpecs,
    t1: i64,
    t2: i64,
)
    ensures
        ({
            let a = spec_derived(raw_voltage, raw_current, raw_heat, raw_speed, torque, period, specs, t1);
            let b = spec_derived(raw_voltage, raw_current, raw_heat, raw_speed, torque, period, specs, t2);
            &&& a.current_power == b.current_power
            &&& a.current_torque == b.current_torque
            &&& a.current_speed == b.current_speed
            &&& a.current_heat == b.current_heat
            &&& a.current_cycles == b.current_cycles
            &&& a.timestamp == t1
            &&& b.timestamp == t2
        }),
{
}

/// Power vanishes exactly when a factor does: with either the volt or the
/// ampere count at zero the derived power is zero, and with both positive it
/// is positive.
pub proof fn lemma_power_boundary(volts: u16, amps: u16)
    ensures
        volts == 0 || amps == 0 ==> power_milli(volts, amps) == 0,
        volts > 0 && amps > 0 ==> power_milli(volts, amps) > 0,
{
    if volts == 0 || amps == 0 {
        assert((volts as int) * (amps as int) == 0) by (nonlinear_arith)
            requires
                volts == 0 || amps == 0,
        ;
    }
    if volts > 0 && amps > 0 {
        assert((volts as int) * (amps as int) > 0) by (nonlinear_arith)
            requires
                volts as int > 0,
                amps as int > 0,
        ;
    }
}

} // verus!
