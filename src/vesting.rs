use vstd::prelude::*;

verus! {

/// A linear release schedule: `rate` units per second accrue from
/// `last_claimed` up to an end time shared with the other tracks.
#[derive(Debug, Clone, Copy, PartialEq, Eq, Structural)]
pub struct AccrualTrack {
    pub rate: u128,
    pub last_claimed: u64,
}

/// What has accrued at time `now` and not been claimed: the seconds from
/// `last_claimed` to `now`, counted no further than `end`, times `rate`.
pub open spec fn accrued(rate: u128, last_claimed: u64, end: u64, now: u64) -> nat {
    let effective = if now > end {
        end
    } else {
        now
    };
    if last_claimed >= effective {
        0
    } else {
        ((effective - last_claimed) * rate) as nat
    }
}

impl AccrualTrack {
    /// The rate is small enough that any span of seconds times it fits.
    pub open spec fn wf(&self) -> bool {
        self.rate <= u64::MAX
    }

    pub open spec fn pending_at(&self, end: u64, now: u64) -> nat {
        accrued(self.rate, self.last_claimed, end, now)
    }

    /// A track that starts accruing at `start`.
    pub fn new(rate: u128, start: u64) -> (r: AccrualTrack)
        requires
            rate <= u64::MAX,
        ensures
            r.wf(),
            r.rate == rate,
            r.last_claimed == start,
    {
        AccrualTrack { rate, last_claimed: start }
    }

    /// What has accrued at `now` and not been claimed; never underflows when
    /// `now` lies before `last_claimed`.
    pub fn pending(&self, end: u64, now: u64) -> (r: u128)
        requires
            self.wf(),
        ensures
            r == self.pending_at(end, now),
    {
        let effective = if now > end {
            end
        } else {
            now
        };
        if self.last_claimed >= effective {
            return 0;
        }
        let span = (effective - self.last_claimed) as u128;
        proof {
            assert(span * self.rate <= u64::MAX * u64::MAX) by (nonlinear_arith)
                requires
                    span <= u64::MAX,
                    self.rate <= u64::MAX,
            ;
        }
        span * self.rate
    }

    /// Records a claim made at `now`.
    pub fn mark_claimed(&mut self, now: u64)
        ensures
            final(self).rate == old(self).rate,
            final(self).last_claimed == now,
    {
        self.last_claimed = now;
    }
}

/// Accrual never shrinks as time passes before the end, and stays fixed after it.
pub proof fn lemma_accrual_monotone(track: AccrualTrack, end: u64, t1: u64, t2: u64)
    requires
        t1 <= t2,
    ensures
        t2 <= end ==> track.pending_at(end, t1) <= track.pending_at(end, t2),
        end <= t1 ==> track.pending_at(end, t1) == track.pending_at(end, t2),
{
    let l = track.last_claimed as int;
    let r = track.rate as int;
    if t2 <= end && l < t1 {
        assert((t1 - l) * r <= (t2 - l) * r) by (nonlinear_arith)
            requires
                l < t1 <= t2,
                r >= 0,
        ;
    }
}

} // verus!
