//! The per-scope counter and its two states.

use vstd::prelude::*;

verus! {

/// The allowance of one scope.
///
/// Field `0` is the number of requests remaining, field `1` the instant (in
/// nanoseconds on the caller's monotonic clock) at which the scope stops
/// cooling down. While that instant lies in the future the bucket is cooling
/// down; otherwise it is counting.
#[derive(Clone, Copy, Debug, PartialEq, Eq, Hash, Structural)]
pub struct Bucket(pub u32, pub u64);

impl Bucket {
    /// The bucket a scope gets when it is first seen at `now`: a full
    /// allowance, counting.
    pub open spec fn fresh(rate: u32, now: u64) -> Bucket {
        Bucket(rate, now)
    }

    /// Whether the bucket is cooling down at `now`.
    pub open spec fn cooling(self, now: u64) -> bool {
        self.1 > now
    }

    /// The time left at `now` until the bucket stops cooling down; zero once
    /// it has.
    pub open spec fn wait(self, now: u64) -> nat {
        if self.1 > now {
            (self.1 - now) as nat
        } else {
            0
        }
    }

    /// The bucket after one request has been counted at `now`.
    ///
    /// The last remaining request refills the allowance and starts the
    /// cooldown in the same step, so the count never rests at zero. A bucket
    /// that was handed over with nothing remaining is treated as spent.
    pub open spec fn counted(self, rate: u32, per: u64, now: u64) -> Bucket {
        if self.0 <= 1 {
            Bucket(rate, (now + per) as u64)
        } else {
            Bucket((self.0 - 1) as u32, self.1)
        }
    }

    /// The bucket after a request at `now` when, during a cooldown, the
    /// bucket is left as it is.
    pub open spec fn served(self, rate: u32, per: u64, now: u64) -> Bucket {
        if self.cooling(now) {
            self
        } else {
            self.counted(rate, per, now)
        }
    }

    /// The bucket after the requests at `times`, first to last, each served
    /// as [`Bucket::served`] says.
    pub open spec fn served_all(self, rate: u32, per: u64, times: Seq<u64>) -> Bucket
        decreases times.len(),
    {
        if times.len() == 0 {
            self
        } else {
            self.served_all(rate, per, times.drop_last()).served(rate, per, times.last())
        }
    }

    /// Returns the number of requests remaining.
    pub fn remaining(&self) -> (r: u32)
        ensures
            r == self.0,
    {
        self.0
    }

    /// Returns the instant at which the bucket stops cooling down.
    pub fn reset(&self) -> (r: u64)
        ensures
            r == self.1,
    {
        self.1
    }

    /// Returns the time from `now` until [`Bucket::reset`], zero if that
    /// instant has passed.
    pub fn retry_after(&self, now: u64) -> (r: u64)
        ensures
            r == self.wait(now),
    {
        if self.1 > now {
            self.1 - now
        } else {
            0
        }
    }

    /// Tells whether the bucket is cooling down at `now`.
    pub fn in_cooldown(&self, now: u64) -> (r: bool)
        ensures
            r == self.cooling(now),
    {
        self.1 > now
    }

    /// Counts one request at `now` against an allowance of `rate` requests
    /// per window of length `per`.
    ///
    /// Where this request uses up the allowance, the end of the cooldown,
    /// `now + per`, must be an instant that a `u64` can hold.
    pub fn count(&mut self, rate: u32, per: u64, now: u64)
        requires
            old(self).0 <= 1 ==> now + per <= u64::MAX,
        ensures
            *final(self) == old(self).counted(rate, per, now),
    {
        if self.0 <= 1 {
            self.0 = rate;
            self.1 = now + per;
        } else {
            self.0 = self.0 - 1;
        }
    }
}

/// The first `rate` requests of a new scope are all counted.
///
/// A scope first seen at `created` is asked for at `times`, none earlier than
/// `created` and no more than `rate` of them. Then none of these requests
/// finds the bucket cooling down. While fewer than `rate` were made the
/// bucket holds what is left of the allowance; the request that uses up the
/// allowance leaves it full again, cooling down until one window after that
/// request.
pub proof fn lemma_allowance_is_counted(rate: u32, per: u64, created: u64, times: Seq<u64>)
    requires
        rate >= 1,
        times.len() <= rate,
        forall|i: int| 0 <= i < times.len() ==> created <= #[trigger] times[i],
    ensures
        forall|k: int|
            0 <= k < times.len() ==> !(#[trigger] Bucket::fresh(rate, created).served_all(
                rate,
                per,
                times.take(k),
            )).cooling(times[k]),
        times.len() < rate ==> Bucket::fresh(rate, created).served_all(rate, per, times) == Bucket(
            (rate - times.len()) as u32,
            created,
        ),
        times.len() == rate ==> Bucket::fresh(rate, created).served_all(rate, per, times) == Bucket(
            rate,
            (times.last() + per) as u64,
        ),
    decreases times.len(),
{
    let start = Bucket::fresh(rate, created);
    if times.len() > 0 {
        let earlier = times.drop_last();
        lemma_allowance_is_counted(rate, per, created, earlier);
        assert(start.served_all(rate, per, earlier) == Bucket(
            (rate - earlier.len()) as u32,
            created,
        ));
        assert forall|k: int| 0 <= k < times.len() implies !(#[trigger] start.served_all(
            rate,
            per,
            times.take(k),
        )).cooling(times[k]) by {
            if k < earlier.len() {
                assert(times.take(k) == earlier.take(k));
                assert(times[k] == earlier[k]);
            } else {
                assert(times.take(k) == earlier);
            }
        }
    }
}

/// Once the allowance is used up the scope cools down for one window, and
/// nothing is counted meanwhile.
///
/// The request at `now` finds the bucket counting with at most one request
/// remaining. Every instant `later` before `now + per` then finds the bucket
/// cooling down, full, and a request served at `later` leaves it as it is.
pub proof fn lemma_spent_allowance_cools_down(
    bucket: Bucket,
    rate: u32,
    per: u64,
    now: u64,
    later: u64,
)
    requires
        !bucket.cooling(now),
        bucket.0 <= 1,
        now + per <= u64::MAX,
        later < now + per,
    ensures
        bucket.served(rate, per, now) == Bucket(rate, (now + per) as u64),
        bucket.served(rate, per, now).cooling(later),
        bucket.served(rate, per, now).served(rate, per, later) == bucket.served(rate, per, now),
{
}

/// When the window has passed, the next request is counted again, from a
/// full allowance.
///
/// `bucket` is a bucket as the request that used up the allowance left it:
/// full, with the cooldown ending at `bucket.1`. A request at `now`, no
/// earlier than that, is counted: it takes one from the full allowance, or,
/// where the allowance is a single request, uses it up at once.
pub proof fn lemma_cooldown_lapses(bucket: Bucket, rate: u32, per: u64, now: u64)
    requires
        rate >= 1,
        bucket.0 == rate,
        bucket.1 <= now,
    ensures
        !bucket.cooling(now),
        rate > 1 ==> bucket.served(rate, per, now) == Bucket((rate - 1) as u32, bucket.1),
        rate == 1 ==> bucket.served(rate, per, now) == Bucket(rate, (now + per) as u64),
{
}

/// The count stays between one and the allowance.
///
/// A bucket that holds no more than `rate` still holds no more than `rate`
/// after a request, and at least one. Right after the request that used up
/// the allowance it holds `rate`, not zero.
pub proof fn lemma_remaining_in_range(bucket: Bucket, rate: u32, per: u64, now: u64)
    requires
        rate >= 1,
        bucket.0 <= rate,
    ensures
        1 <= bucket.counted(rate, per, now).0 <= rate,
        bucket.0 >= 1 ==> 1 <= bucket.served(rate, per, now).0 <= rate,
        bucket.0 <= 1 ==> bucket.counted(rate, per, now).0 == rate,
{
}

} // verus!
