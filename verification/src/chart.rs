//! Axis computation for the per-channel line charts.
//!
//! The drawing backend is an external collaborator; what is decided here is
//! the part a chart's correctness rests on: when a series is renderable at
//! all, and which axis ranges it gets. The x axis spans the first to the
//! last timestamp, the y axis spans zero to the largest value.

use vstd::prelude::*;
use crate::sample::Channel;

verus! {

/// Why a chart could not be produced.
#[derive(Clone, Copy, PartialEq, Eq, Structural, Debug)]
pub enum RenderError {
    /// The series holds no point at all; there is nothing to span the axes
    /// with.
    EmptySeries,
}

/// Axis ranges for one chart: x spans `[x_min, x_max]`, y spans
/// `[0, y_max]` (`y_max` in thousandths, like the series values).
#[derive(Clone, Copy, PartialEq, Eq, Structural, Debug)]
pub struct ChartBounds {
    pub x_min: i64,
    pub x_max: i64,
    pub y_max: i64,
}

/// The largest value in a non-empty series.
pub open spec fn max_value(s: Seq<(i64, i64)>) -> int
    decreases s.len(),
{
    if s.len() <= 1 {
        s[0].1 as int
    } else {
        let rest = max_value(s.drop_last());
        if s.last().1 as int > rest {
            s.last().1 as int
        } else {
            rest
        }
    }
}

/// The largest value of a non-empty series is one of its values, and no
/// value exceeds it.
pub proof fn lemma_max_value_is_max(s: Seq<(i64, i64)>)
    requires
        s.len() > 0,
    ensures
        exists|i: int| 0 <= i < s.len() && (#[trigger] s[i]).1 == max_value(s),
        forall|i: int| 0 <= i < s.len() ==> (#[trigger] s[i]).1 <= max_value(s),
    decreases s.len(),
{
    if s.len() == 1 {
        assert(s[0].1 == max_value(s));
    } else {
        lemma_max_value_is_max(s.drop_last());
        let rest = max_value(s.drop_last());
        let wit = choose|i: int| 0 <= i < s.drop_last().len() && (#[trigger] s.drop_last()[i]).1 == rest;
        if s.last().1 as int > rest {
            assert(s[s.len() - 1].1 == max_value(s));
        } else {
            assert(s.drop_last()[wit] == s[wit]);
            assert(s[wit].1 == max_value(s));
        }
        assert forall|i: int| 0 <= i < s.len() implies (#[trigger] s[i]).1 <= max_value(s) by {
            if i < s.len() - 1 {
                assert(s.drop_last()[i] == s[i]);
            }
        }
    }
}

/// Decides whether a series is renderable and, if so, with which axis
/// ranges. A single point still yields a (degenerate) chart; only an empty
/// series is refused.
pub fn chart_bounds(series: &Vec<(i64, i64)>) -> (r: Result<ChartBounds, RenderError>)
    ensures
        match r {
            Ok(b) => {
                &&& series@.len() > 0
                &&& b.x_min == series@[0].0
                &&& b.x_max == series@.last().0
                &&& b.y_max == max_value(series@)
            },
            Err(e) => series@.len() == 0 && e == RenderError::EmptySeries,
        },
{
    if series.len() == 0 {
        return Err(RenderError::EmptySeries);
    }
    let mut y_max: i64 = series[0].1;
    let mut i: usize = 1;
    while i < series.len()
        invariant
            1 <= i <= series@.len(),
            y_max == max_value(series@.subrange(0, i as int)),
        decreases series@.len() - i,
    {
        proof {
            let pre = series@.subrange(0, i as int);
            let post = series@.subrange(0, i as int + 1);
            assert(post.drop_last() =~= pre);
            assert(post.last() == series@[i as int]);
        }
        if series[i].1 > y_max {
            y_max = series[i].1;
        }
        i = i + 1;
    }
    proof {
        assert(series@.subrange(0, series@.len() as int) =~= series@);
    }
    Ok(ChartBounds { x_min: series[0].0, x_max: series[series.len() - 1].0, y_max })
}

/// The fixed name of a channel's chart artifact, regenerated in place every
/// cycle.
pub fn channel_file_name(c: Channel) -> (r: &'static str)
    ensures
        r@ == (match c {
            Channel::Power => "current_power.png"@,
            Channel::Torque => "current_torque.png"@,
            Channel::Speed => "current_speed.png"@,
            Channel::Heat => "current_heat.png"@,
            Channel::Cycles => "current_cycles.png"@,
        }),
{
    match c {
        Channel::Power => "current_power.png",
        Channel::Torque => "current_torque.png",
        Channel::Speed => "current_speed.png",
        Channel::Heat => "current_heat.png",
        Channel::Cycles => "current_cycles.png",
    }
}

/// The caption of a channel's chart.
pub fn channel_title(c: Channel) -> (r: &'static str)
    ensures
        r@ == (match c {
            Channel::Power => "Current Power"@,
            Channel::Torque => "Current Torque"@,
            Channel::Speed => "Current Speed"@,
            Channel::Heat => "Current Heat"@,
            Channel::Cycles => "Current Cycles"@,
        }),
{
    match c {
        Channel::Power => "Current Power",
        Channel::Torque => "Current Torque",
        Channel::Speed => "Current Speed",
        Channel::Heat => "Current Heat",
        Channel::Cycles => "Current Cycles",
    }
}

/// The y-axis description of a channel's chart; the x axis is always time.
pub fn channel_y_label(c: Channel) -> (r: &'static str)
    ensures
        r@ == (match c {
            Channel::Power => "Power (kW)"@,
            Channel::Torque => "Torque (Nm)"@,
            Channel::Speed => "Speed (rpm)"@,
            Channel::Heat => "Heat (degC)"@,
            Channel::Cycles => "Cycles (Nm.s)"@,
        }),
{
    match c {
        Channel::Power => "Power (kW)",
        Channel::Torque => "Torque (Nm)",
        Channel::Speed => "Speed (rpm)",
        Channel::Heat => "Heat (degC)",
        Channel::Cycles => "Cycles (Nm.s)",
    }
}

} // verus!
