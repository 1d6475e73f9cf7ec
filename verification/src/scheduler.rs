//! The per-tick acquisition step: raw words in, sample out, history grown.
//!
//! The fixed-cadence timer, the field-bus exchange, the asynchronous
//! persistence dispatch and the chart drawing are outside collaborators.
//! What is decided here is everything between them: a cycle either fails
//! fast with the transport error and leaves the history untouched, or it
//! derives the sample, appends it to every channel at once, and hands it
//! back for the caller to persist and render. The caller must not wait for
//! persistence before the next tick; the sample is returned by value so the
//! dispatch can be detached.

use vstd::prelude::*;
use crate::buffer::{appended, lemma_append_keeps_order, time_ordered, RollingBuffer};
use crate::derivation::{derive_sample, spec_derived};
use crate::sample::{Channel, MotorData};
use crate::specs::MotorSpecs;

verus! {

/// A failed field-bus exchange; any one aborts derivation for its cycle.
#[derive(Clone, Copy, PartialEq, Eq, Structural, Debug)]
pub enum TransportError {
    /// The serial exchange itself failed.
    Io,
    /// The device did not answer in time.
    Timeout,
    /// The answer did not parse as the requested registers.
    MalformedResponse,
}

/// The four raw register words of one cycle, in fixed bus order
/// (addresses 0 to 3: voltage, current, heat, speed).
#[derive(Clone, Copy, PartialEq, Eq, Structural, Debug)]
pub struct RawReading {
    pub voltage: u16,
    pub current: u16,
    pub heat: u16,
    pub speed: u16,
}

/// The acquisition scheduler: the motor's ratings, the configured torque
/// placeholder and tick period, and the rolling history it alone writes.
pub struct Scheduler {
    /// Nameplate ratings, reference constants for derivation.
    pub specs: MotorSpecs,
    /// Torque placeholder, thousandths of a newton-metre; configured, not
    /// read from the bus.
    pub torque: i64,
    /// Tick period, thousandths of a second.
    pub period: i64,
    /// The rolling history. The scheduler is its sole writer; readers take
    /// copies through [`Scheduler::snapshot`], never a live reference.
    pub buffer: RollingBuffer,
}

/// `post`'s history is `pre`'s with exactly `d`'s entry appended to every
/// channel.
pub open spec fn appended_history(pre: Scheduler, post: Scheduler, d: MotorData) -> bool {
    forall|c: Channel|
        #[trigger] post.history(c) == pre.history(c).push((d.timestamp, d.channel_value(c)))
}

impl Scheduler {
    /// One channel's rolling history, oldest first.
    pub open spec fn history(self, c: Channel) -> Seq<(i64, i64)> {
        self.buffer.channel_seq(c)
    }

    /// How many cycles have completed since startup.
    pub open spec fn cycles_done(self) -> nat {
        self.history(Channel::Power).len()
    }

    /// The scheduler's invariant: uniform channel lengths, and a torque and
    /// period derivation can always consume.
    pub open spec fn wf(self) -> bool {
        &&& self.buffer.well_formed()
        &&& 0 <= self.torque
        &&& 0 <= self.period
        &&& self.torque * self.period <= i64::MAX
    }

    pub fn new(specs: MotorSpecs, torque: i64, period: i64) -> (s: Scheduler)
        requires
            0 <= torque,
            0 <= period,
            torque * period <= i64::MAX,
        ensures
            s.wf(),
            s.specs == specs,
            s.torque == torque,
            s.period == period,
            s.cycles_done() == 0,
            forall|c: Channel| (#[trigger] s.history(c)).len() == 0,
    {
        Scheduler { specs, torque, period, buffer: RollingBuffer::new() }
    }

    /// One cycle, given the outcome of the cycle's register reads and the
    /// wall-clock time of derivation. A failed read fails the whole cycle
    /// and changes nothing; a successful one derives the sample, appends it
    /// to every channel together, and returns it for persistence.
    pub fn on_tick(
        &mut self,
        reading: Result<RawReading, TransportError>,
        now: i64,
    ) -> (r: Result<MotorData, TransportError>)
        requires
            old(self).wf(),
        ensures
            final(self).wf(),
            final(self).specs == old(self).specs,
            final(self).torque == old(self).torque,
            final(self).period == old(self).period,
            match reading {
                Ok(raw) => ({
                    let d = spec_derived(
                        raw.voltage,
                        raw.current,
                        raw.heat,
                        raw.speed,
                        old(self).torque,
                        old(self).period,
                        old(self).specs,
                        now,
                    );
                    r == Ok::<MotorData, TransportError>(d)
                        && appended_history(*old(self), *final(self), d)
                }),
                Err(e) => r == Err::<MotorData, TransportError>(e) && *final(self) == *old(self),
            },
    {
        match reading {
            Err(e) => Err(e),
            Ok(raw) => {
                let specs = self.specs;
                let d = derive_sample(
                    raw.voltage,
                    raw.current,
                    raw.heat,
                    raw.speed,
                    self.torque,
                    self.period,
                    &specs,
                    now,
                );
                self.buffer.append(&d);
                Ok(d)
            },
        }
    }

    /// One cycle stamped with the wall clock. The timestamp is the one field
    /// no contract can pin; everything else is exactly `on_tick` at the time
    /// the clock read.
    pub fn process_tick(
        &mut self,
        reading: Result<RawReading, TransportError>,
    ) -> (r: Result<MotorData, TransportError>)
        requires
            old(self).wf(),
        ensures
            final(self).wf(),
            final(self).specs == old(self).specs,
            final(self).torque == old(self).torque,
            final(self).period == old(self).period,
            match reading {
                Ok(raw) => (match r {
                    Ok(d) => d == spec_derived(
                        raw.voltage,
                        raw.current,
                        raw.heat,
                        raw.speed,
                        old(self).torque,
                        old(self).period,
                        old(self).specs,
                        d.timestamp,
                    ) && appended_history(*old(self), *final(self), d),
                    Err(_) => false,
                }),
                Err(e) => r == Err::<MotorData, TransportError>(e) && *final(self) == *old(self),
            },
    {
        let now = now_timestamp();
        self.on_tick(reading, now)
    }

    /// A consistent copy of one channel's history for rendering. The caller
    /// owns the copy, so nothing is held while drawing or writing files.
    pub fn snapshot(&self, c: Channel) -> (r: Vec<(i64, i64)>)
        ensures
            r@ == self.history(c),
    {
        self.buffer.snapshot(c)
    }

    /// How many entries one channel holds.
    pub fn channel_len(&self, c: Channel) -> (n: usize)
        ensures
            n == self.history(c).len(),
    {
        self.buffer.channel_len(c)
    }
}

/// Under a clock that never steps backwards, successive samples never do
/// either: a successful tick stamped no earlier than the newest entry keeps
/// every channel's history in non-decreasing timestamp order.
pub proof fn lemma_tick_keeps_order(pre: Scheduler, post: Scheduler, d: MotorData)
    requires
        appended_history(pre, post, d),
        forall|c: Channel| time_ordered(#[trigger] pre.history(c)),
        forall|c: Channel|
            (#[trigger] pre.history(c)).len() > 0 ==> pre.history(c).last().0 <= d.timestamp,
    ensures
        forall|c: Channel| time_ordered(#[trigger] post.history(c)),
{
    assert forall|c: Channel|
        #[trigger] post.buffer.channel_seq(c)
            == pre.buffer.channel_seq(c).push((d.timestamp, d.channel_value(c))) by {
        assert(post.history(c) == pre.history(c).push((d.timestamp, d.channel_value(c))));
    }
    assert(appended(pre.buffer, post.buffer, d));
    assert forall|c: Channel| time_ordered(#[trigger] pre.buffer.channel_seq(c)) by {
        assert(time_ordered(pre.history(c)));
    }
    assert forall|c: Channel|
        (#[trigger] pre.buffer.channel_seq(c)).len() > 0
            ==> pre.buffer.channel_seq(c).last().0 <= d.timestamp by {
        assert(pre.history(c).len() > 0 ==> pre.history(c).last().0 <= d.timestamp);
    }
    lemma_append_keeps_order(pre.buffer, post.buffer, d);
    assert forall|c: Channel| time_ordered(#[trigger] post.history(c)) by {
        assert(time_ordered(post.buffer.channel_seq(c)));
    }
}

/// Relies on chrono::Local::now for the wall-clock time of derivation, as
/// whole seconds since the epoch. Nothing is assumed of the value: every
/// caller's contract must hold for any reading of the clock.
#[verifier::external_body]
fn now_timestamp() -> i64 {
    chrono::Local::now().timestamp()
}

} // verus!
