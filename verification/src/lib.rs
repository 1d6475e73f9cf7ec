//! Motor telemetry core: derivation of engineering values from raw field-bus
//! registers, a per-channel rolling history, chart axis computation, and the
//! per-tick acquisition step.
//!
//! Engineering quantities are carried as fixed-point integers: a value `x`
//! stands for `x / 1000` of the engineering unit (thousandths of a kilowatt,
//! of a newton-metre, of an rpm, of a degree Celsius). Raw register words,
//! which are integer counts of volts, amperes, degrees and rpm, convert into
//! this representation without loss.

pub mod buffer;
pub mod chart;
pub mod derivation;
pub mod sample;
pub mod scheduler;
pub mod specs;
