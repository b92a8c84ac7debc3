//! Weighted multi-bucket admission control.
//!
//! Time is a monotonic clock reading in nanoseconds (`u64`); durations are
//! nanoseconds too. The dispatcher's decisions are made here as plain state
//! transitions: [`RateLimiter::timeout`] computes how long a request must wait
//! and [`RateLimiter::set_costs`] commits its costs once the wait is over.
use vstd::prelude::*;

use crate::costs::{
    lemma_lookup_absent, lemma_lookup_at, lemma_lookup_found, lemma_lookup_some_iff, lookup,
    unique_keys, KeyedVec, TaskCosts,
};
use crate::error::LibError;

verus! {

/// Quota state of one named rate dimension, with a fixed counting window.
#[derive(Clone, Copy, Debug, PartialEq, Eq)]
pub struct RateLimiterBucket {
    /// Start of the current counting window.
    pub time_instant: u64,
    /// Earliest instant at which the bucket may be used at all.
    pub delay: u64,
    /// Window length.
    pub interval: u64,
    /// Largest cumulative cost admissible within one window.
    pub limit: u32,
    /// Cost committed in the current window.
    pub amount: u32,
}

/// Time elapsed from `since` to `now`, zero when `now` is not later.
pub open spec fn elapsed(since: u64, now: u64) -> u64 {
    if now > since { (now - since) as u64 } else { 0 }
}

/// The bucket with its window rolled over at `now` if the window has expired.
pub open spec fn rolled(b: RateLimiterBucket, now: u64) -> RateLimiterBucket {
    if elapsed(b.time_instant, now) > b.interval {
        RateLimiterBucket { time_instant: now, amount: 0, ..b }
    } else {
        b
    }
}

/// Whether the bucket is still in its activation cool-down at `now`.
pub open spec fn pending(b: RateLimiterBucket, now: u64) -> bool {
    now < b.delay
}

/// How long a request costing `cost` must wait on this bucket alone at `now`.
pub open spec fn bucket_wait(b: RateLimiterBucket, cost: u32, now: u64) -> int {
    if pending(b, now) {
        b.delay - now
    } else {
        let r = rolled(b, now);
        if r.amount + cost > r.limit {
            r.interval - elapsed(r.time_instant, now)
        } else {
            0
        }
    }
}

/// The bucket after `cost` is committed to it at `now` (saturating at `u32::MAX`).
pub open spec fn charged(b: RateLimiterBucket, cost: u32, now: u64) -> RateLimiterBucket {
    let r = rolled(b, now);
    let sum = r.amount + cost;
    RateLimiterBucket { amount: if sum > u32::MAX { u32::MAX } else { sum as u32 }, ..r }
}

impl RateLimiterBucket {
    /// A bucket created at `now`: no delay, zero interval, zero limit.
    pub fn new(now: u64) -> (r: Self)
        ensures
            r == (RateLimiterBucket { time_instant: now, delay: now, interval: 0, limit: 0, amount: 0 }),
    {
        RateLimiterBucket { time_instant: now, delay: now, interval: 0, limit: 0, amount: 0 }
    }

    /// Holds the bucket back until `delay` after its creation.
    pub fn delay(self, delay: u64) -> (r: Self)
        ensures
            r == (RateLimiterBucket {
                delay: if self.time_instant + delay > u64::MAX { u64::MAX } else { (self.time_instant + delay) as u64 },
                ..self
            }),
    {
        RateLimiterBucket { delay: self.time_instant.saturating_add(delay), ..self }
    }

    pub fn interval(self, interval: u64) -> (r: Self)
        ensures
            r == (RateLimiterBucket { interval, ..self }),
    {
        RateLimiterBucket { interval, ..self }
    }

    pub fn limit(self, limit: u32) -> (r: Self)
        ensures
            r == (RateLimiterBucket { limit, ..self }),
    {
        RateLimiterBucket { limit, ..self }
    }

    /// Starts a new window at `now` if the current one has expired.
    pub fn reset_outdated(&mut self, now: u64)
        ensures
            *final(self) == rolled(*old(self), now),
    {
        let elapsed: u64 = if now > self.time_instant { now - self.time_instant } else { 0 };
        if elapsed > self.interval {
            self.time_instant = now;
            self.amount = 0;
        }
    }

    /// How long a request costing `cost` must wait on this bucket at `now`.
    pub fn wait(&self, cost: u32, now: u64) -> (r: u64)
        ensures
            r == bucket_wait(*self, cost, now),
    {
        if now < self.delay {
            return self.delay - now;
        }
        let mut b = *self;
        b.reset_outdated(now);
        if b.amount as u64 + cost as u64 > b.limit as u64 {
            let elapsed: u64 = if now > b.time_instant { now - b.time_instant } else { 0 };
            b.interval - elapsed
        } else {
            0
        }
    }

    /// Commits `cost` to the bucket at `now`, rolling the window first.
    pub fn charge(&mut self, cost: u32, now: u64)
        ensures
            *final(self) == charged(*old(self), cost, now),
    {
        self.reset_outdated(now);
        self.amount = self.amount.saturating_add(cost);
    }
}

/// Whether every bucket the request names is in the registry.
pub open spec fn all_defined(
    reg: Seq<(Seq<char>, RateLimiterBucket)>,
    costs: Seq<(Seq<char>, u32)>,
) -> bool {
    forall|i: int| 0 <= i < costs.len() ==> #[trigger] lookup(reg, costs[i].0).is_some()
}

/// The error names a bucket that the request costs against and the registry
/// does not have.
pub open spec fn undefined_named(
    e: LibError,
    reg: Seq<(Seq<char>, RateLimiterBucket)>,
    costs: Seq<(Seq<char>, u32)>,
) -> bool {
    match e {
        LibError::UndefinedBucket(name) => lookup(costs, name@).is_some() && lookup(reg, name@).is_none(),
        _ => false,
    }
}

/// The wait of a whole request: the largest wait of any bucket it costs against.
pub open spec fn request_wait(
    reg: Seq<(Seq<char>, RateLimiterBucket)>,
    costs: Seq<(Seq<char>, u32)>,
    now: u64,
) -> int
    decreases costs.len(),
{
    if costs.len() == 0 {
        0
    } else {
        let rest = request_wait(reg, costs.drop_last(), now);
        let w = match lookup(reg, costs.last().0) {
            Some(b) => bucket_wait(b, costs.last().1, now),
            None => 0,
        };
        if w > rest {
            w
        } else {
            rest
        }
    }
}

/// The registry after the wait pass at `now`: every bucket the request costs
/// against, unless still in its cool-down, has its window rolled.
pub open spec fn waited(
    reg: Seq<(Seq<char>, RateLimiterBucket)>,
    costs: Seq<(Seq<char>, u32)>,
    now: u64,
) -> Seq<(Seq<char>, RateLimiterBucket)> {
    Seq::new(
        reg.len(),
        |i: int|
            (
                reg[i].0,
                if lookup(costs, reg[i].0).is_some() && !pending(reg[i].1, now) {
                    rolled(reg[i].1, now)
                } else {
                    reg[i].1
                },
            ),
    )
}

/// The registry after the request's costs are committed at `now`.
pub open spec fn committed(
    reg: Seq<(Seq<char>, RateLimiterBucket)>,
    costs: Seq<(Seq<char>, u32)>,
    now: u64,
) -> Seq<(Seq<char>, RateLimiterBucket)> {
    Seq::new(
        reg.len(),
        |i: int|
            (
                reg[i].0,
                match lookup(costs, reg[i].0) {
                    Some(c) => charged(reg[i].1, c, now),
                    None => reg[i].1,
                },
            ),
    )
}

proof fn lemma_take_step<V>(s: Seq<(Seq<char>, V)>, i: int)
    requires
        0 <= i < s.len(),
    ensures
        s.take(i + 1).drop_last() == s.take(i),
        s.take(i + 1).last() == s[i],
        s.take(i + 1).len() == i + 1,
{
    assert(s.take(i + 1).drop_last() =~= s.take(i));
}

proof fn lemma_bucket_wait_fits(b: RateLimiterBucket, cost: u32, now: u64)
    ensures
        0 <= bucket_wait(b, cost, now) <= u64::MAX,
{
}

/// The wait of a request is the largest of the waits of its buckets taken
/// one by one: never less than any of them, and equal to one of them (zero for
/// a request with no costs).
pub proof fn lemma_conjunctive_wait(
    reg: Seq<(Seq<char>, RateLimiterBucket)>,
    costs: Seq<(Seq<char>, u32)>,
    now: u64,
)
    requires
        all_defined(reg, costs),
    ensures
        forall|i: int|
            0 <= i < costs.len() ==> request_wait(reg, costs, now) >= bucket_wait(
                #[trigger] lookup(reg, costs[i].0).unwrap(),
                costs[i].1,
                now,
            ),
        costs.len() == 0 ==> request_wait(reg, costs, now) == 0,
        costs.len() > 0 ==> exists|i: int|
            0 <= i < costs.len() && request_wait(reg, costs, now) == bucket_wait(
                #[trigger] lookup(reg, costs[i].0).unwrap(),
                costs[i].1,
                now,
            ),
    decreases costs.len(),
{
    if costs.len() > 0 {
        let rest = costs.drop_last();
        assert(all_defined(reg, rest)) by {
            assert forall|i: int| 0 <= i < rest.len() implies #[trigger] lookup(reg, rest[i].0).is_some() by {
                assert(rest[i] == costs[i]);
                assert(lookup(reg, costs[i].0).is_some());
            }
        }
        lemma_conjunctive_wait(reg, rest, now);
        let n = costs.len() - 1;
        assert(lookup(reg, costs[n].0).is_some());
        assert forall|i: int|
            0 <= i < costs.len() implies request_wait(reg, costs, now) >= bucket_wait(
                #[trigger] lookup(reg, costs[i].0).unwrap(),
                costs[i].1,
                now,
            ) by {
            if i < n {
                assert(rest[i] == costs[i]);
            }
        }
        if rest.len() > 0 {
            let j = choose|j: int|
                0 <= j < rest.len() && request_wait(reg, rest, now) == bucket_wait(
                    #[trigger] lookup(reg, rest[j].0).unwrap(),
                    rest[j].1,
                    now,
                );
            assert(rest[j] == costs[j]);
            if request_wait(reg, costs, now) != request_wait(reg, rest, now) {
                assert(request_wait(reg, costs, now) == bucket_wait(
                    lookup(reg, costs[n].0).unwrap(),
                    costs[n].1,
                    now,
                ));
            }
        } else {
            lemma_bucket_wait_fits(lookup(reg, costs[n].0).unwrap(), costs[n].1, now);
        }
    }
}

/// Once a bucket's window has run out, a cost up to its limit is admitted at
/// once and opens a fresh window holding just that cost.
pub proof fn lemma_window_reset(b: RateLimiterBucket, cost: u32, now: u64)
    requires
        !pending(b, now),
        elapsed(b.time_instant, now) > b.interval,
        cost <= b.limit,
    ensures
        bucket_wait(b, cost, now) == 0,
        charged(b, cost, now).amount == cost,
        charged(b, cost, now).time_instant == now,
{
}

/// Within a window, a cost that would take the bucket past its limit waits
/// exactly for the rest of the window.
pub proof fn lemma_over_limit_waits_out_window(b: RateLimiterBucket, cost: u32, now: u64)
    requires
        !pending(b, now),
        elapsed(b.time_instant, now) <= b.interval,
        b.amount + cost > b.limit,
    ensures
        bucket_wait(b, cost, now) == b.interval - elapsed(b.time_instant, now),
{
}

/// A request that waits out the wait granted at `now` and commits strictly
/// after it leaves each bucket it costs against at or under its limit, if the
/// bucket was at or under it before, is past its cool-down, its window did not
/// start after `now`, and the request's cost on it fits the limit alone. So
/// requests taken in turn never both spend the same spare capacity.
pub proof fn lemma_no_overshoot(
    reg: Seq<(Seq<char>, RateLimiterBucket)>,
    costs: Seq<(Seq<char>, u32)>,
    now: u64,
    t: u64,
    i: int,
)
    requires
        unique_keys(reg),
        all_defined(reg, costs),
        0 <= i < reg.len(),
        lookup(costs, reg[i].0).is_some(),
        lookup(costs, reg[i].0).unwrap() <= reg[i].1.limit,
        reg[i].1.amount <= reg[i].1.limit,
        reg[i].1.time_instant <= now,
        !pending(reg[i].1, now),
        t > now + request_wait(reg, costs, now),
    ensures
        committed(waited(reg, costs, now), costs, t)[i].1.amount <= reg[i].1.limit,
{
    let b = reg[i].1;
    let k = reg[i].0;
    let c = lookup(costs, k).unwrap();
    lemma_lookup_found(costs, k);
    let m = choose|m: int| 0 <= m < costs.len() && costs[m].0 == k && lookup(costs, k) == Some(costs[m].1);
    lemma_lookup_at(reg, i);
    lemma_conjunctive_wait(reg, costs, now);
    assert(request_wait(reg, costs, now) >= bucket_wait(lookup(reg, costs[m].0).unwrap(), costs[m].1, now));
    assert(request_wait(reg, costs, now) >= bucket_wait(b, c, now));
    let w = waited(reg, costs, now);
    assert(w[i].1 == rolled(b, now));
    assert(committed(w, costs, t)[i].1 == charged(rolled(b, now), c, t));
}

/// Accumulates the bucket configurations before the dispatcher starts.
pub struct RateLimiterBuilder {
    buckets: KeyedVec<RateLimiterBucket>,
}

impl RateLimiterBuilder {
    pub closed spec fn view(&self) -> Seq<(Seq<char>, RateLimiterBucket)> {
        self.buckets@
    }

    pub closed spec fn wf(&self) -> bool {
        self.buckets.wf()
    }

    /// A builder with no buckets.
    pub fn new() -> (r: Self)
        ensures
            r.wf(),
            r@ == Seq::<(Seq<char>, RateLimiterBucket)>::empty(),
    {
        RateLimiterBuilder { buckets: KeyedVec::new() }
    }

    /// Configures the bucket `key`; a later configuration of the same name
    /// replaces the earlier one.
    pub fn bucket(self, key: String, bucket: RateLimiterBucket) -> (r: Self)
        requires
            self.wf(),
        ensures
            r.wf(),
            forall|k: Seq<char>| #[trigger] lookup(r@, k) == if k == key@ {
                Some(bucket)
            } else {
                lookup(self@, k)
            },
    {
        let mut buckets = self.buckets;
        buckets.insert(key, bucket);
        RateLimiterBuilder { buckets }
    }

    /// Freezes the bucket set and hands out the registry that the dispatcher
    /// drives.
    pub fn start(self) -> (r: RateLimiter)
        requires
            self.wf(),
        ensures
            r.wf(),
            r@ == self@,
    {
        RateLimiter { buckets: self.buckets }
    }
}

impl Default for RateLimiterBuilder {
    fn default() -> (r: Self)
        ensures
            r.wf(),
            r@ == Seq::<(Seq<char>, RateLimiterBucket)>::empty(),
    {
        RateLimiterBuilder::new()
    }
}

/// The frozen bucket registry, and the dispatcher's decisions over it.
pub struct RateLimiter {
    buckets: KeyedVec<RateLimiterBucket>,
}

impl RateLimiter {
    pub closed spec fn view(&self) -> Seq<(Seq<char>, RateLimiterBucket)> {
        self.buckets@
    }

    pub closed spec fn wf(&self) -> bool {
        self.buckets.wf()
    }

    /// Starts a request around `request`, with no costs declared yet.
    pub fn task<R>(&self, request: R) -> (r: TaskBuilder<R>)
        ensures
            r.costs.wf(),
            r.costs@ == Seq::<(Seq<char>, u32)>::empty(),
            r.request == request,
    {
        TaskBuilder { request, costs: TaskCosts::new() }
    }

    /// The current state of the bucket `key`.
    pub fn get(&self, key: &str) -> (r: Option<RateLimiterBucket>)
        requires
            self.wf(),
        ensures
            r == lookup(self@, key@),
    {
        self.buckets.get(key)
    }

    /// Checks that every bucket the request names exists.
    fn check_defined(&self, costs: &TaskCosts) -> (r: Result<(), LibError>)
        requires
            self.wf(),
            costs.wf(),
        ensures
            r.is_ok() == all_defined(self@, costs@),
            r matches Err(e) ==> undefined_named(e, self@, costs@),
    {
        let mut i: usize = 0;
        while i < costs.len()
            invariant
                self.wf(),
                costs.wf(),
                i <= costs@.len(),
                forall|j: int| 0 <= j < i ==> #[trigger] lookup(self@, costs@[j].0).is_some(),
            decreases costs@.len() - i,
        {
            let (name, _) = costs.entry(i);
            proof {
                lemma_lookup_some_iff(self@, costs@[i as int].0);
            }
            if self.buckets.index_of(name).is_none() {
                proof {
                    lemma_lookup_some_iff(costs@, costs@[i as int].0);
                }
                return Err(LibError::UndefinedBucket(name.clone()));
            }
            i = i + 1;
        }
        Ok(())
    }

    /// The wait pass: how long the request must wait before its costs may be
    /// committed. Buckets it costs against that are past their cool-down have
    /// their windows rolled. Fails, touching nothing, when it names a bucket
    /// the registry does not have.
    pub fn timeout(&mut self, costs: &TaskCosts, now: u64) -> (r: Result<u64, LibError>)
        requires
            old(self).wf(),
            costs.wf(),
        ensures
            final(self).wf(),
            match r {
                Ok(w) => {
                    &&& all_defined(old(self)@, costs@)
                    &&& w == request_wait(old(self)@, costs@, now)
                    &&& final(self)@ == waited(old(self)@, costs@, now)
                },
                Err(e) => {
                    &&& !all_defined(old(self)@, costs@)
                    &&& undefined_named(e, old(self)@, costs@)
                    &&& final(self)@ == old(self)@
                },
            },
    {
        self.check_defined(costs)?;
        let ghost reg = self@;
        let mut wait: u64 = 0;
        let mut i: usize = 0;
        assert(waited(reg, costs@.take(0), now) =~= reg);
        while i < costs.len()
            invariant
                self.wf(),
                costs.wf(),
                i <= costs@.len(),
                all_defined(reg, costs@),
                unique_keys(reg),
                self@ == waited(reg, costs@.take(i as int), now),
                wait == request_wait(reg, costs@.take(i as int), now),
            decreases costs@.len() - i,
        {
            let (name, cost) = costs.entry(i);
            let ghost k = costs@[i as int].0;
            proof {
                lemma_take_step(costs@, i as int);
                assert(lookup(reg, k).is_some());
                lemma_lookup_some_iff(reg, k);
            }
            let p = match self.buckets.index_of(name) {
                Some(p) => p,
                None => {
                    proof {
                        assert(self@.len() == reg.len());
                        let q = choose|q: int| 0 <= q < reg.len() && reg[q].0 == k;
                        assert(self@[q].0 == reg[q].0);
                    }
                    return Err(LibError::UndefinedBucket(name.clone()));
                },
            };
            let (_, b) = self.buckets.entry(p);
            proof {
                assert(self@[p as int].0 == reg[p as int].0);
                lemma_lookup_at(reg, p as int);
                assert forall|j: int| 0 <= j < costs@.take(i as int).len() implies costs@.take(
                    i as int,
                )[j].0 != k by {
                    assert(costs@.take(i as int)[j] == costs@[j]);
                }
                lemma_lookup_absent(costs@.take(i as int), k);
                assert(b == reg[p as int].1);
                lemma_bucket_wait_fits(b, cost, now);
            }
            let w = b.wait(cost, now);
            if w > wait {
                wait = w;
            }
            if now >= b.delay {
                let mut nb = b;
                nb.reset_outdated(now);
                self.buckets.set_value(p, nb);
            }
            proof {
                let t1 = costs@.take(i as int + 1);
                assert forall|q: int| 0 <= q < reg.len() implies #[trigger] lookup(t1, reg[q].0) == if reg[q].0 == k {
                    Some(cost)
                } else {
                    lookup(costs@.take(i as int), reg[q].0)
                } by {}
                assert(self@ =~= waited(reg, t1, now));
            }
            i = i + 1;
        }
        assert(costs@.take(costs@.len() as int) =~= costs@);
        Ok(wait)
    }

    /// The commit pass: adds each cost of the request to its bucket at `now`,
    /// rolling expired windows first. Fails, touching nothing, when the request
    /// names a bucket the registry does not have.
    pub fn set_costs(&mut self, costs: &TaskCosts, now: u64) -> (r: Result<(), LibError>)
        requires
            old(self).wf(),
            costs.wf(),
        ensures
            final(self).wf(),
            match r {
                Ok(()) => {
                    &&& all_defined(old(self)@, costs@)
                    &&& final(self)@ == committed(old(self)@, costs@, now)
                },
                Err(e) => {
                    &&& !all_defined(old(self)@, costs@)
                    &&& undefined_named(e, old(self)@, costs@)
                    &&& final(self)@ == old(self)@
                },
            },
    {
        self.check_defined(costs)?;
        let ghost reg = self@;
        let mut i: usize = 0;
        assert(committed(reg, costs@.take(0), now) =~= reg);
        while i < costs.len()
            invariant
                self.wf(),
                costs.wf(),
                i <= costs@.len(),
                all_defined(reg, costs@),
                unique_keys(reg),
                self@ == committed(reg, costs@.take(i as int), now),
            decreases costs@.len() - i,
        {
            let (name, cost) = costs.entry(i);
            let ghost k = costs@[i as int].0;
            proof {
                lemma_take_step(costs@, i as int);
                assert(lookup(reg, k).is_some());
                lemma_lookup_some_iff(reg, k);
            }
            let p = match self.buckets.index_of(name) {
                Some(p) => p,
                None => {
                    proof {
                        let q = choose|q: int| 0 <= q < reg.len() && reg[q].0 == k;
                        assert(self@[q].0 == reg[q].0);
                    }
                    return Err(LibError::UndefinedBucket(name.clone()));
                },
            };
            let (_, b) = self.buckets.entry(p);
            proof {
                assert(self@[p as int].0 == reg[p as int].0);
                assert forall|j: int| 0 <= j < costs@.take(i as int).len() implies costs@.take(
                    i as int,
                )[j].0 != k by {
                    assert(costs@.take(i as int)[j] == costs@[j]);
                }
                lemma_lookup_absent(costs@.take(i as int), k);
                assert(b == reg[p as int].1);
            }
            let mut nb = b;
            nb.charge(cost, now);
            self.buckets.set_value(p, nb);
            proof {
                let t1 = costs@.take(i as int + 1);
                assert forall|q: int| 0 <= q < reg.len() implies #[trigger] lookup(t1, reg[q].0) == if reg[q].0 == k {
                    Some(cost)
                } else {
                    lookup(costs@.take(i as int), reg[q].0)
                } by {}
                assert(self@ =~= committed(reg, t1, now));
            }
            i = i + 1;
        }
        assert(costs@.take(costs@.len() as int) =~= costs@);
        Ok(())
    }
}

/// A request under construction, collecting the costs it will declare.
pub struct TaskBuilder<R> {
    pub request: R,
    pub costs: TaskCosts,
}

impl<R> TaskBuilder<R> {
    /// Declares `weight` against the bucket `key`, replacing any weight declared
    /// for it before.
    pub fn cost(self, key: String, weight: u32) -> (r: Self)
        requires
            self.costs.wf(),
        ensures
            r.costs.wf(),
            r.request == self.request,
            forall|k: Seq<char>| #[trigger] lookup(r.costs@, k) == if k == key@ {
                Some(weight)
            } else {
                lookup(self.costs@, k)
            },
    {
        let mut costs = self.costs;
        costs.insert(key, weight);
        TaskBuilder { request: self.request, costs }
    }

    /// Freezes the declared costs into a task.
    pub fn send(self) -> (r: Task<R>)
        requires
            self.costs.wf(),
        ensures
            r.costs().wf(),
            r.costs()@ == self.costs@,
            r.request() == self.request,
    {
        Task { request: self.request, costs: self.costs }
    }
}

/// One admission-gated call: the request, and the costs it was declared with.
pub struct Task<R> {
    request: R,
    costs: TaskCosts,
}

/// What a task will charge, for inspection without running it.
#[derive(Debug)]
pub struct TaskMetadata {
    pub costs: TaskCosts,
}

impl<R> Task<R> {
    pub closed spec fn costs(&self) -> TaskCosts {
        self.costs
    }

    pub closed spec fn request(&self) -> R {
        self.request
    }

    /// The frozen cost vector; nothing is admitted or sent.
    pub fn metadata(&self) -> (r: TaskMetadata)
        requires
            self.costs().wf(),
        ensures
            r.costs.wf(),
            r.costs@ == self.costs()@,
    {
        TaskMetadata { costs: self.costs.duplicate() }
    }

    /// Takes the task apart to run it.
    pub fn into_parts(self) -> (r: (R, TaskCosts))
        ensures
            r.0 == self.request(),
            r.1 == self.costs(),
    {
        (self.request, self.costs)
    }
}

} // verus!
