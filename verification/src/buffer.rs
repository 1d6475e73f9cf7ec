//! The rolling buffer: an append-only, per-channel in-memory history of
//! (timestamp, value) pairs, written once per cycle and read by the renderer.
//!
//! The five channel sequences only ever grow together: one append adds one
//! entry to each of them, so their lengths stay uniform and a reader holding
//! the buffer can never see some channels updated and others stale.

use vstd::prelude::*;
use crate::sample::{Channel, MotorData};

verus! {

/// Per-channel, insertion-ordered history. No entry is ever removed or
/// mutated; eviction is deliberately out of scope.
pub struct RollingBuffer {
    power: Vec<(i64, i64)>,
    torque: Vec<(i64, i64)>,
    speed: Vec<(i64, i64)>,
    heat: Vec<(i64, i64)>,
    cycles: Vec<(i64, i64)>,
}

/// A sequence of (timestamp, value) entries in non-decreasing timestamp
/// order.
pub open spec fn time_ordered(s: Seq<(i64, i64)>) -> bool {
    forall|i: int, j: int| 0 <= i <= j < s.len() ==> (#[trigger] s[i]).0 <= (#[trigger] s[j]).0
}

/// `post` is `pre` with exactly `d`'s entry appended to every channel.
pub open spec fn appended(pre: RollingBuffer, post: RollingBuffer, d: MotorData) -> bool {
    forall|c: Channel|
        #[trigger] post.channel_seq(c) == pre.channel_seq(c).push((d.timestamp, d.channel_value(c)))
}

impl RollingBuffer {
    /// The history of one channel, oldest first.
    pub closed spec fn channel_seq(self, c: Channel) -> Seq<(i64, i64)> {
        match c {
            Channel::Power => self.power@,
            Channel::Torque => self.torque@,
            Channel::Speed => self.speed@,
            Channel::Heat => self.heat@,
            Channel::Cycles => self.cycles@,
        }
    }

    /// How many completed cycles the buffer holds.
    pub open spec fn count(self) -> nat {
        self.channel_seq(Channel::Power).len()
    }

    /// Every channel holds one entry per completed cycle.
    pub open spec fn well_formed(self) -> bool {
        forall|c: Channel| (#[trigger] self.channel_seq(c)).len() == self.count()
    }

    pub fn new() -> (b: RollingBuffer)
        ensures
            b.well_formed(),
            b.count() == 0,
            forall|c: Channel| (#[trigger] b.channel_seq(c)).len() == 0,
    {
        RollingBuffer {
            power: Vec::new(),
            torque: Vec::new(),
            speed: Vec::new(),
            heat: Vec::new(),
            cycles: Vec::new(),
        }
    }

    /// Appends one sample: every channel gains exactly the sample's entry,
    /// all five together, and nothing already stored changes.
    pub fn append(&mut self, d: &MotorData)
        ensures
            appended(*old(self), *final(self), *d),
            old(self).well_formed() ==> final(self).well_formed(),
            final(self).count() == old(self).count() + 1,
    {
        self.power.push((d.timestamp, d.current_power));
        self.torque.push((d.timestamp, d.current_torque));
        self.speed.push((d.timestamp, d.current_speed));
        self.heat.push((d.timestamp, d.current_heat));
        self.cycles.push((d.timestamp, d.current_cycles));
        proof {
            assert forall|c: Channel|
                #[trigger] final(self).channel_seq(c)
                    == old(self).channel_seq(c).push((d.timestamp, d.channel_value(c))) by {
                match c {
                    Channel::Power => {},
                    Channel::Torque => {},
                    Channel::Speed => {},
                    Channel::Heat => {},
                    Channel::Cycles => {},
                }
            }
        }
    }

    /// A consistent copy of one channel's history for rendering; the caller
    /// is handed its own vector, so no lock need be held while drawing.
    pub fn snapshot(&self, c: Channel) -> (r: Vec<(i64, i64)>)
        ensures
            r@ == self.channel_seq(c),
    {
        let src: &Vec<(i64, i64)> = match c {
            Channel::Power => &self.power,
            Channel::Torque => &self.torque,
            Channel::Speed => &self.speed,
            Channel::Heat => &self.heat,
            Channel::Cycles => &self.cycles,
        };
        let mut r: Vec<(i64, i64)> = Vec::new();
        let mut i: usize = 0;
        while i < src.len()
            invariant
                i <= src.len(),
                r@ == src@.subrange(0, i as int),
                src@ == self.channel_seq(c),
            decreases src.len() - i,
        {
            r.push(src[i]);
            proof {
                assert(src@.subrange(0, i as int).push(src@[i as int])
                    =~= src@.subrange(0, i as int + 1));
            }
            i = i + 1;
        }
        proof {
            assert(src@.subrange(0, src@.len() as int) =~= src@);
        }
        r
    }

    /// How many entries one channel holds.
    pub fn channel_len(&self, c: Channel) -> (n: usize)
        ensures
            n == self.channel_seq(c).len(),
    {
        match c {
            Channel::Power => self.power.len(),
            Channel::Torque => self.torque.len(),
            Channel::Speed => self.speed.len(),
            Channel::Heat => self.heat.len(),
            Channel::Cycles => self.cycles.len(),
        }
    }
}

/// After an append, every channel has exactly one entry more, the new entry
/// is the appended sample's, and every older entry is untouched: appends are
/// atomic across the five channels.
pub proof fn lemma_append_uniform(pre: RollingBuffer, post: RollingBuffer, d: MotorData)
    requires
        pre.well_formed(),
        appended(pre, post, d),
    ensures
        post.well_formed(),
        post.count() == pre.count() + 1,
        forall|c: Channel| (#[trigger] post.channel_seq(c)).len() == pre.count() + 1,
        forall|c: Channel|
            (#[trigger] post.channel_seq(c))[pre.count() as int]
                == (d.timestamp, d.channel_value(c)),
        forall|c: Channel, i: int|
            0 <= i < pre.count() ==> (#[trigger] post.channel_seq(c)[i]) == pre.channel_seq(c)[i],
{
}

/// Appending a sample no earlier than the newest entry keeps every channel in
/// non-decreasing timestamp order.
pub proof fn lemma_append_keeps_order(pre: RollingBuffer, post: RollingBuffer, d: MotorData)
    requires
        appended(pre, post, d),
        forall|c: Channel| time_ordered(#[trigger] pre.channel_seq(c)),
        forall|c: Channel|
            (#[trigger] pre.channel_seq(c)).len() > 0 ==> pre.channel_seq(c).last().0 <= d.timestamp,
    ensures
        forall|c: Channel| time_ordered(#[trigger] post.channel_seq(c)),
{
    assert forall|c: Channel| time_ordered(#[trigger] post.channel_seq(c)) by {
        let s = pre.channel_seq(c);
        let t = post.channel_seq(c);
        assert(t == s.push((d.timestamp, d.channel_value(c))));
        assert forall|i: int, j: int| 0 <= i <= j < t.len() implies (t[i]).0 <= (t[j]).0 by {
            if j < s.len() as int {
                assert(t[i] == s[i] && t[j] == s[j]);
            } else {
                assert(t[j] == (d.timestamp, d.channel_value(c)));
                if i < s.len() as int {
                    assert(t[i] == s[i]);
                    assert(s[i].0 <= s.last().0);
                }
            }
        }
    }
}

} // verus!
