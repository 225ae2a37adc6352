//! The limiter: its settings and the bucket of every scope it has seen.

use crate::bucket::Bucket;
use crate::handler::{
    answers, answers_with_limited_headers, Admission, RatelimitHandler, ResponseTemplate,
};
use std::collections::HashMap;
use std::hash::Hash;
use vstd::prelude::*;
use vstd::std_specs::hash::obeys_key_model;

verus! {

/// Why a limiter could not be made.
#[derive(Clone, Copy, Debug, PartialEq, Eq, Structural)]
pub enum InvalidPolicy {
    /// The allowance is zero requests.
    ZeroRate,
    /// The window has no length.
    ZeroPeriod,
}

/// A rate limit and the buckets of the scopes that it has been asked about.
///
/// `K` is the scope: whatever requests are told apart by. A scope gets its
/// bucket when it is first asked about, full and counting, and keeps it.
/// The limit itself never changes.
#[derive(Debug)]
pub struct RatelimitProvider<K> {
    rate: u32,
    per: u64,
    buckets: HashMap<K, Bucket>,
}

impl<K> View for RatelimitProvider<K> {
    type V = Map<K, Bucket>;

    /// The bucket of every scope seen so far.
    closed spec fn view(&self) -> Map<K, Bucket> {
        self.buckets@
    }
}

impl<K> RatelimitProvider<K> {
    #[verifier::type_invariant]
    spec fn valid(self) -> bool {
        &&& self.rate >= 1
        &&& self.per >= 1
        &&& obeys_key_model::<K>()
    }

    /// The requests allowed per window.
    pub closed spec fn spec_rate(&self) -> u32 {
        self.rate
    }

    /// The length of the window in nanoseconds.
    pub closed spec fn spec_per(&self) -> u64 {
        self.per
    }

    /// Returns the requests allowed per window.
    #[verifier::when_used_as_spec(spec_rate)]
    pub fn rate(&self) -> (r: u32)
        ensures
            r == self.spec_rate(),
            r >= 1,
    {
        proof {
            use_type_invariant(self);
        }
        self.rate
    }

    /// Returns the length of the window in nanoseconds.
    #[verifier::when_used_as_spec(spec_per)]
    pub fn per(&self) -> (r: u64)
        ensures
            r == self.spec_per(),
            r >= 1,
    {
        proof {
            use_type_invariant(self);
        }
        self.per
    }

    /// The buckets of a limiter that has seen no scope.
    pub open spec fn unseen() -> Map<K, Bucket> {
        Map::empty()
    }

    /// The bucket that a request of `key` at `now` starts from: the one
    /// kept for `key`, or a fresh one if there is none yet.
    pub open spec fn starting(&self, key: K, now: u64) -> Bucket {
        if self@.contains_key(key) {
            self@[key]
        } else {
            Bucket::fresh(self.spec_rate(), now)
        }
    }

    /// Whether every bucket holds no more than the allowance.
    pub open spec fn within_allowance(&self) -> bool {
        forall|key: K| #[trigger] self@.contains_key(key) ==> self@[key].0 <= self.spec_rate()
    }
}

impl<K: Eq + Hash> RatelimitProvider<K> {
    /// Makes a limiter that allows `rate` requests per window of `per`
    /// nanoseconds and has seen no scope yet.
    ///
    /// Both must be positive.
    pub fn new(rate: u32, per: u64) -> (made: Result<Self, InvalidPolicy>)
        requires
            obeys_key_model::<K>(),
        ensures
            rate == 0 ==> made matches Err(InvalidPolicy::ZeroRate),
            rate > 0 && per == 0 ==> made matches Err(InvalidPolicy::ZeroPeriod),
            rate > 0 && per > 0 ==> (made matches Ok(provider) && provider.spec_rate() == rate
                && provider.spec_per() == per && provider@ == Self::unseen()),
    {
        if rate == 0 {
            Err(InvalidPolicy::ZeroRate)
        } else if per == 0 {
            Err(InvalidPolicy::ZeroPeriod)
        } else {
            Ok(RatelimitProvider { rate, per, buckets: HashMap::new() })
        }
    }

    /// Returns the bucket kept for `key`, if `key` has been seen.
    pub fn bucket(&self, key: &K) -> (found: Option<Bucket>)
        ensures
            found == if self@.contains_key(*key) {
                Some(self@[*key])
            } else {
                None::<Bucket>
            },
    {
        broadcast use vstd::std_specs::hash::group_hash_axioms;

        proof {
            use_type_invariant(self);
        }
        match self.buckets.get(key) {
            Some(bucket) => Some(*bucket),
            None => None,
        }
    }

    /// Returns the bucket that a request of `key` at `now` starts from.
    fn peek(&self, key: &K, now: u64) -> (bucket: Bucket)
        ensures
            bucket == self.starting(*key, now),
    {
        match self.bucket(key) {
            Some(bucket) => bucket,
            None => Bucket(self.rate, now),
        }
    }

    /// Keeps `bucket` for `key`, in place of the one kept before if there
    /// was one.
    fn keep(&mut self, key: K, bucket: Bucket)
        ensures
            final(self)@ == old(self)@.insert(key, bucket),
            final(self).spec_rate() == old(self).spec_rate(),
            final(self).spec_per() == old(self).spec_per(),
    {
        broadcast use vstd::std_specs::hash::group_hash_axioms;

        proof {
            use_type_invariant(&*self);
        }
        let mut buckets: HashMap<K, Bucket> = HashMap::new();
        std::mem::swap(&mut self.buckets, &mut buckets);
        buckets.insert(key, bucket);
        std::mem::swap(&mut self.buckets, &mut buckets);
    }

    /// Returns the bucket of `key`, making it first if `key` is new.
    ///
    /// A new scope gets a full allowance and is counting from `now`. A
    /// scope that was seen before keeps its bucket as it is; no other bucket
    /// is touched, and none is ever removed.
    pub fn get_or_create(&mut self, key: K, now: u64) -> (bucket: Bucket)
        ensures
            bucket == old(self).starting(key, now),
            final(self)@ == old(self)@.insert(key, bucket),
            final(self).spec_rate() == old(self).spec_rate(),
            final(self).spec_per() == old(self).spec_per(),
            old(self).within_allowance() ==> final(self).within_allowance(),
    {
        broadcast use vstd::std_specs::hash::group_hash_axioms;

        proof {
            use_type_invariant(&*self);
        }
        let bucket = self.peek(&key, now);
        self.keep(key, bucket);
        bucket
    }

    /// Handles one request of the scope `key`, made at `now`.
    ///
    /// Where the scope is not cooling down the request is counted and
    /// proceeds, and the handler is not asked. Where it is cooling down the
    /// handler decides, on the bucket as it stands; nothing is counted, and
    /// the bucket is kept as the handler leaves it. A response that the
    /// handler rejects with is sent with the handler's headers for a
    /// rejection added. `unix_now` is the wall clock's reading at `now`, in
    /// nanoseconds since the Unix epoch, for those headers.
    ///
    /// Only the bucket of `key` changes. Counting keeps a bucket between
    /// one and the allowance, so as long as the handler leaves no more than the
    /// allowance in a bucket, no bucket ever holds more. Where the request
    /// uses up the allowance, the end of the cooldown, `now + per`, must be an
    /// instant that a `u64` can hold.
    pub fn handle_request<Req, H: RatelimitHandler<Req>>(
        &mut self,
        handler: &mut H,
        request: &Req,
        key: K,
        now: u64,
        unix_now: u64,
    ) -> (outcome: Admission)
        requires
            !old(self).starting(key, now).cooling(now) && old(self).starting(key, now).0 <= 1
                ==> now + old(self).spec_per() <= u64::MAX,
        ensures
            final(self).spec_rate() == old(self).spec_rate(),
            final(self).spec_per() == old(self).spec_per(),
            final(self)@ == old(self)@.insert(key, outcome.bucket),
            old(self).within_allowance() && !old(self).starting(key, now).cooling(now) ==> 1
                <= outcome.bucket.0 <= old(self).spec_rate(),
            old(self).within_allowance() && outcome.bucket.0 <= old(self).spec_rate()
                ==> final(self).within_allowance(),
            !old(self).starting(key, now).cooling(now) ==> {
                &&& outcome.verdict is Ok
                &&& outcome.annotated is Ok
                &&& outcome.bucket == old(self).starting(key, now).counted(
                    old(self).spec_rate(),
                    old(self).spec_per(),
                    now,
                )
                &&& *final(handler) == *old(handler)
            },
            old(self).starting(key, now).cooling(now) ==> exists|
                decided: Result<(), ResponseTemplate>,
            |
                {
                    &&& #[trigger] old(handler).decides(
                        request,
                        old(self).starting(key, now),
                        now,
                        outcome.bucket,
                        decided,
                    )
                    &&& answers(decided, outcome.verdict)
                    &&& decided is Ok ==> outcome.annotated is Ok
                    &&& H::writes_standard_headers() ==> answers_with_limited_headers(
                        decided,
                        outcome.verdict,
                        outcome.bucket,
                        now,
                        unix_now,
                        outcome.annotated,
                    )
                },
    {
        broadcast use vstd::std_specs::hash::group_hash_axioms;

        proof {
            use_type_invariant(&*self);
        }
        let mut bucket = self.peek(&key, now);
        if bucket.in_cooldown(now) {
            let decided = handler.handle_ratelimit(request, &mut bucket, now);
            self.keep(key, bucket);
            let ghost witness = decided;
            let outcome = Admission::conclude(&*handler, decided, bucket, now, unix_now);
            assert(old(handler).decides(
                request,
                old(self).starting(key, now),
                now,
                outcome.bucket,
                witness,
            ));
            outcome
        } else {
            bucket.count(self.rate, self.per, now);
            self.keep(key, bucket);
            Admission { verdict: Ok(()), bucket, annotated: Ok(()) }
        }
    }
}

} // verus!
