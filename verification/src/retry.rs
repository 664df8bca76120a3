//! A reconnection budget: an endless sequence of retries that ends once
//! more retries, in balance, came faster than a threshold than the budget
//! allows. Each fast retry takes one from the budget; each slow one gives
//! one back, down to none taken.
use std::time::Duration;
use std::time::SystemTime;
use vstd::prelude::*;

verus! {

/// The system clock's readings; opaque to the proofs.
#[verifier::external_type_specification]
#[verifier::external_body]
pub struct ExSystemTime(SystemTime);

/// `SystemTime::now`: a reading of the system clock. Nothing is stated of it:
/// it depends on the time.
#[verifier::external_body]
fn system_time_now() -> (now: SystemTime) {
    SystemTime::now()
}

/// The time from `earlier` to `later` in nanoseconds, as
/// `SystemTime::duration_since` and `Duration::as_nanos` give it; `None`
/// where `later` is earlier than `earlier`.
pub uninterp spec fn elapsed_between(later: SystemTime, earlier: SystemTime) -> Option<u128>;

/// `SystemTime::duration_since`, its `Duration` converted to nanoseconds and
/// its error (`later` is earlier than `earlier`: the clock went backwards)
/// to `None`, as named by `elapsed_between`: a function of the two readings.
#[verifier::external_body]
fn elapsed_nanos(later: &SystemTime, earlier: &SystemTime) -> (e: Option<u128>)
    ensures
        e == elapsed_between(*later, *earlier),
{
    match later.duration_since(*earlier) {
        Ok(d) => Some(d.as_nanos()),
        Err(_) => None,
    }
}

/// The whole length of a `Duration` in nanoseconds, as `Duration::as_nanos`
/// gives it.
pub uninterp spec fn duration_total_nanos(d: Duration) -> u128;

/// `Duration::as_nanos`, as named by `duration_total_nanos`.
#[verifier::external_body]
fn duration_nanos(d: &Duration) -> (n: u128)
    ensures
        n == duration_total_nanos(*d),
{
    d.as_nanos()
}

/// The model of a [`Retry`]: its budget, its threshold in nanoseconds, how
/// many retries it has handed out, how many fast retries it counts, and
/// whether a retry has been handed out yet.
pub struct RetryView {
    pub max: nat,
    pub threshold: nat,
    pub iterations: nat,
    pub over_threshold: nat,
    pub started: bool,
}

/// The count of fast retries once one more retry is asked for. `within` says
/// whether the time since the last retry was below the threshold; it does not
/// matter before the first retry. A slow retry when none is counted leaves
/// the count at zero.
pub open spec fn next_over_threshold(v: RetryView, within: bool) -> nat {
    if !v.started {
        v.over_threshold
    } else if within {
        v.over_threshold + 1
    } else if v.over_threshold == 0 {
        0
    } else {
        (v.over_threshold - 1) as nat
    }
}

/// What asking for one more retry yields: `None` once the fast retries exceed
/// the budget, else the retry's index and the number of fast retries left.
pub open spec fn retry_yield(v: RetryView, within: bool) -> Option<(nat, nat)> {
    let c = next_over_threshold(v, within);
    if c > v.max {
        None
    } else {
        Some((v.iterations, (v.max - c) as nat))
    }
}

/// The model after asking for one more retry.
pub open spec fn retry_after(v: RetryView, within: bool) -> RetryView {
    let c = next_over_threshold(v, within);
    if c > v.max {
        RetryView { over_threshold: c, ..v }
    } else {
        RetryView { iterations: v.iterations + 1, over_threshold: c, started: true, ..v }
    }
}

/// The counts stay within `usize` when one more retry is asked for.
pub open spec fn retry_can_step(v: RetryView, within: bool) -> bool {
    &&& v.started && within ==> v.over_threshold < usize::MAX
    &&& next_over_threshold(v, within) <= v.max ==> v.iterations < usize::MAX
}

/// Whether a retry, `elapsed` nanoseconds after the last one, is fast;
/// `None` where no time could be measured (the clock went backwards).
pub open spec fn spec_fast_after(elapsed: Option<u128>, threshold: nat) -> Option<bool> {
    match elapsed {
        None => None,
        Some(e) => Some(e < threshold),
    }
}

/// The model and the result after asking for one more retry, `elapsed` being
/// the time measured since the last retry (not consulted before the first).
/// Where the clock went backwards, or the counts would leave `usize`, the
/// sequence ends there and nothing changes.
pub open spec fn retry_outcome(v: RetryView, elapsed: Option<u128>) -> (RetryView, Option<(nat, nat)>) {
    let within = if v.started {
        spec_fast_after(elapsed, v.threshold)
    } else {
        Some(false)
    };
    match within {
        None => (v, None),
        Some(w) => if retry_can_step(v, w) {
            (retry_after(v, w), retry_yield(v, w))
        } else {
            (v, None)
        },
    }
}

/// The model of a fresh [`Retry`].
pub open spec fn fresh_retry(max: nat, threshold: nat) -> RetryView {
    RetryView { max, threshold, iterations: 0, over_threshold: 0, started: false }
}

/// `k` retries in a row, each measured `e` after the one before.
pub open spec fn burst(v: RetryView, e: u128, k: nat) -> RetryView
    decreases k,
{
    if k == 0 {
        v
    } else {
        burst(retry_outcome(v, Some(e)).0, e, (k - 1) as nat)
    }
}

pub open spec fn pair_view(r: Option<(usize, usize)>) -> Option<(nat, nat)> {
    match r {
        Some((i, rem)) => Some((i as nat, rem as nat)),
        None => None,
    }
}

/// The first retry is always handed out, with index 0 and the whole budget
/// left, whatever was measured.
pub proof fn lemma_first_retry_has_full_budget(max: nat, threshold: nat, elapsed: Option<u128>)
    ensures
        retry_outcome(fresh_retry(max, threshold), elapsed) == ((RetryView {
            max,
            threshold,
            iterations: 1,
            over_threshold: 0,
            started: true,
        }, Some((0nat, max)))),
{
}

/// After the first retry, a clock that went backwards ends the sequence there
/// and changes nothing.
pub proof fn lemma_clock_backwards_changes_nothing(v: RetryView)
    requires
        v.started,
    ensures
        retry_outcome(v, None) == (v, None::<(nat, nat)>),
{
}

proof fn lemma_burst_shape(max: nat, threshold: nat, e: u128, k: nat)
    requires
        e < threshold,
        k <= max,
        max < usize::MAX,
    ensures
        burst(retry_outcome(fresh_retry(max, threshold), None).0, e, k) == (RetryView {
            max,
            threshold,
            iterations: k + 1,
            over_threshold: k,
            started: true,
        }),
    decreases k,
{
    let v1 = retry_outcome(fresh_retry(max, threshold), None).0;
    if k > 0 {
        lemma_burst_shape(max, threshold, e, (k - 1) as nat);
        lemma_burst_split(v1, e, (k - 1) as nat);
    }
}

proof fn lemma_burst_split(v: RetryView, e: u128, k: nat)
    ensures
        burst(v, e, k + 1) == retry_outcome(burst(v, e, k), Some(e)).0,
    decreases k,
{
    reveal_with_fuel(burst, 2);
    if k > 0 {
        lemma_burst_split(retry_outcome(v, Some(e)).0, e, (k - 1) as nat);
        assert(burst(v, e, k + 1) == burst(retry_outcome(v, Some(e)).0, e, k));
        assert(burst(v, e, k) == burst(retry_outcome(v, Some(e)).0, e, (k - 1) as nat));
    }
}

/// A burst of rapid retries: on a fresh budget `max`, the first retry is
/// handed out as `(0, max)`; each following retry measured `e` below the
/// threshold after the one before is handed out as `(k, max - k)` for `k` up
/// to `max`; the one after that is refused.
pub proof fn lemma_burst_ends_after_budget(max: nat, threshold: nat, e: u128, k: nat)
    requires
        e < threshold,
        k <= max,
        max < usize::MAX,
    ensures
        retry_outcome(fresh_retry(max, threshold), None).1 == Some((0nat, max)),
        retry_outcome(burst(retry_outcome(fresh_retry(max, threshold), None).0, e, k), Some(e)).1
            == (if k < max {
            Some(((k + 1) as nat, (max - (k + 1)) as nat))
        } else {
            None::<(nat, nat)>
        }),
{
    lemma_burst_shape(max, threshold, e, k);
}


/// What a sequence of requests hands out, `es` being the times measured
/// before each of them.
pub open spec fn run_retries(v: RetryView, es: Seq<Option<u128>>) -> Seq<Option<(nat, nat)>>
    decreases es.len(),
{
    if es.len() == 0 {
        Seq::empty()
    } else {
        seq![retry_outcome(v, es[0]).1] + run_retries(retry_outcome(v, es[0]).0, es.drop_first())
    }
}

/// How many retries a sequence of results handed out.
pub open spec fn handed_out(s: Seq<Option<(nat, nat)>>) -> nat
    decreases s.len(),
{
    if s.len() == 0 {
        0
    } else {
        (if s[0] is Some {
            1nat
        } else {
            0nat
        }) + handed_out(s.drop_first())
    }
}

/// Retries measured `e` apart, `n` of them.
pub open spec fn rapid(n: nat, e: u128) -> Seq<Option<u128>> {
    Seq::new(n, |i: int| Some(e))
}

/// Over any sequence of requests, whatever was measured, each retry handed
/// out carries as its index the number handed out before it (counting from
/// those handed out before the sequence), and never more than the budget as
/// what is left; refusals do not move the index.
pub proof fn lemma_indices_count_handouts(v: RetryView, es: Seq<Option<u128>>)
    ensures
        run_retries(v, es).len() == es.len(),
        forall|i: int|
            0 <= i < es.len() ==> (#[trigger] run_retries(v, es)[i] matches Some((j, left)) ==> j
                == v.iterations + handed_out(run_retries(v, es).take(i)) && left <= v.max),
    decreases es.len(),
{
    if es.len() > 0 {
        let (v1, y) = retry_outcome(v, es[0]);
        let rest = run_retries(v1, es.drop_first());
        lemma_outcome_shape(v, es[0]);
        lemma_indices_count_handouts(v1, es.drop_first());
        let run = run_retries(v, es);
        assert(run == seq![y] + rest);
        assert forall|i: int| 0 <= i < es.len() implies (#[trigger] run[i] matches Some((j, left))
            ==> j == v.iterations + handed_out(run.take(i)) && left <= v.max) by {
            if i == 0 {
                assert(run.take(0) =~= Seq::<Option<(nat, nat)>>::empty());
            } else {
                assert(run[i] == rest[i - 1]);
                assert(run.take(i) =~= seq![y] + rest.take(i - 1));
                assert((seq![y] + rest.take(i - 1)).drop_first() =~= rest.take(i - 1));
                assert(handed_out(run.take(i)) == (if y is Some {
                    1nat
                } else {
                    0nat
                }) + handed_out(rest.take(i - 1)));
            }
        }
    }
}

proof fn lemma_run_rapid(v: RetryView, e: u128, n: nat, k: nat)
    requires
        k < n,
    ensures
        run_retries(v, rapid(n, e)).len() == n,
        run_retries(v, rapid(n, e))[k as int] == retry_outcome(burst(v, e, k), Some(e)).1,
    decreases k,
{
    lemma_indices_count_handouts(v, rapid(n, e));
    let v1 = retry_outcome(v, Some(e)).0;
    assert(rapid(n, e)[0] == Some(e));
    assert(rapid(n, e).drop_first() =~= rapid((n - 1) as nat, e));
    if k > 0 {
        lemma_run_rapid(v1, e, (n - 1) as nat, (k - 1) as nat);
        assert(burst(v, e, k) == burst(v1, e, (k - 1) as nat));
    }
}

/// A burst of rapid failures: on a fresh budget `max`, a first request and
/// then `max + 1` requests each measured `e` below the threshold after the
/// one before hand out `(k, max - k)` for `k` from 0 to `max`, then refuse.
pub proof fn lemma_rapid_requests_end_the_sequence(max: nat, threshold: nat, e: u128)
    requires
        e < threshold,
        max < usize::MAX,
    ensures
        ({
            let r = run_retries(fresh_retry(max, threshold), seq![None] + rapid(max + 1, e));
            &&& r.len() == max + 2
            &&& forall|k: int| 0 <= k <= max ==> r[k] == Some((k as nat, (max - k) as nat))
            &&& r[max + 1int] is None
        }),
{
    let es = seq![None] + rapid(max + 1, e);
    let f = fresh_retry(max, threshold);
    let v1 = retry_outcome(f, None).0;
    let r = run_retries(f, es);
    assert(es[0] == None::<u128>);
    assert(es.drop_first() =~= rapid(max + 1, e));
    lemma_first_retry_has_full_budget(max, threshold, None);
    lemma_indices_count_handouts(v1, rapid(max + 1, e));
    assert(r == seq![retry_outcome(f, None).1] + run_retries(v1, rapid(max + 1, e)));
    assert forall|k: int| 0 <= k <= max implies r[k] == Some((k as nat, (max - k) as nat)) by {
        if k > 0 {
            lemma_run_rapid(v1, e, max + 1, (k - 1) as nat);
            lemma_burst_ends_after_budget(max, threshold, e, (k - 1) as nat);
        }
    }
    lemma_run_rapid(v1, e, max + 1, max);
    lemma_burst_ends_after_budget(max, threshold, e, max);
}

/// Two retries in a row: after a retry handed out with `max - over` left
/// (`v.iterations` retries handed out in all), the next one measured `e`
/// after it is, below the threshold, handed out with one less left, or
/// refused where none was left; at or beyond the threshold, handed out with
/// one more left, or as many as before where none was taken.
pub proof fn lemma_consecutive_retries(v: RetryView, e: u128)
    requires
        v.started,
        v.over_threshold <= v.max,
        v.over_threshold < usize::MAX,
        v.iterations < usize::MAX,
    ensures
        e < v.threshold ==> retry_outcome(v, Some(e)).1 == (if v.max - v.over_threshold > 0 {
            Some((v.iterations, (v.max - v.over_threshold - 1) as nat))
        } else {
            None::<(nat, nat)>
        }),
        e >= v.threshold && v.over_threshold > 0 ==> retry_outcome(v, Some(e)).1 == Some(
            (v.iterations, (v.max - v.over_threshold + 1) as nat),
        ),
        e >= v.threshold && v.over_threshold == 0 ==> retry_outcome(v, Some(e)).1 == Some(
            (v.iterations, v.max),
        ),
{
}

/// A retry measured at or beyond the threshold after the last one counts as
/// slow: it gives one back to the budget (none where none was taken), and it
/// is never refused where the retry before was handed out.
pub proof fn lemma_slow_retry_counts_as_slow(v: RetryView, e: u128)
    requires
        v.started,
        e >= v.threshold,
        v.over_threshold <= v.max,
        v.iterations < usize::MAX,
    ensures
        retry_outcome(v, Some(e)).0.over_threshold == (if v.over_threshold > 0 {
            (v.over_threshold - 1) as nat
        } else {
            0nat
        }),
        retry_outcome(v, Some(e)).1 is Some,
        retry_outcome(v, Some(e)).0.iterations == v.iterations + 1,
{
}

/// A retry measured below the threshold after the last one counts as fast:
/// it takes one from the budget.
pub proof fn lemma_fast_retry_counts_as_fast(v: RetryView, e: u128)
    requires
        v.started,
        e < v.threshold,
        v.over_threshold < usize::MAX,
        v.iterations < usize::MAX,
    ensures
        retry_outcome(v, Some(e)).0.over_threshold == v.over_threshold + 1,
{
}

/// Once a fast retry is refused, every further fast retry is refused too, and
/// the index does not move.
pub proof fn lemma_refusal_persists(v: RetryView)
    requires
        v.started,
        retry_yield(v, true) is None,
    ensures
        retry_yield(retry_after(v, true), true) is None,
        retry_after(v, true).iterations == v.iterations,
{
}

/// Every retry handed out carries the number of retries handed out before it
/// as its index, and never more than the budget as what is left; the index
/// grows by one exactly when a retry is handed out; budget and threshold
/// never change.
pub proof fn lemma_outcome_shape(v: RetryView, elapsed: Option<u128>)
    ensures
        retry_outcome(v, elapsed).1 matches Some((i, left)) ==> i == v.iterations && left <= v.max,
        retry_outcome(v, elapsed).0.iterations == v.iterations + (if retry_outcome(v, elapsed).1 is Some {
            1nat
        } else {
            0nat
        }),
        retry_outcome(v, elapsed).0.max == v.max,
        retry_outcome(v, elapsed).0.threshold == v.threshold,
{
}

/// Hands out retries with their index and the number of fast retries that
/// are left, and ends once more than `max` retries came, in balance, faster
/// than the threshold: each fast retry takes one from the budget, each slow
/// one gives one back, down to none taken.
pub struct Retry {
    max: usize,
    threshold_nanos: u128,
    iterations: usize,
    over_threshold_iterations: usize,
    last_retry: Option<SystemTime>,
    measured: Ghost<Option<u128>>,
    reading: Ghost<Option<SystemTime>>,
}

impl View for Retry {
    type V = RetryView;

    closed spec fn view(&self) -> RetryView {
        RetryView {
            max: self.max as nat,
            threshold: self.threshold_nanos as nat,
            iterations: self.iterations as nat,
            over_threshold: self.over_threshold_iterations as nat,
            started: self.last_retry is Some,
        }
    }
}

impl Retry {
    /// The time of the last retry handed out.
    pub closed spec fn last_retry(&self) -> Option<SystemTime> {
        self.last_retry
    }

    /// The time, in nanoseconds, that the last call of [`Retry::next`]
    /// measured since the retry before (`None` where it measured nothing).
    pub closed spec fn measured(&self) -> Option<u128> {
        self.measured@
    }

    /// The clock reading that the last call of [`Retry::next`] took to
    /// measure the time since the retry before.
    pub closed spec fn reading(&self) -> Option<SystemTime> {
        self.reading@
    }

    /// A budget of `max` fast retries, a retry counting as fast when it comes
    /// less than `threshold_nanos` nanoseconds after the one before.
    pub fn with_threshold_nanos(max: usize, threshold_nanos: u128) -> (r: Retry)
        ensures
            r@ == fresh_retry(max as nat, threshold_nanos as nat),
            r.last_retry() is None,
            r.measured() is None,
            r.reading() is None,
    {
        Retry {
            max,
            threshold_nanos,
            last_retry: None,
            iterations: 0,
            over_threshold_iterations: 0,
            measured: Ghost(None),
            reading: Ghost(None),
        }
    }

    /// A budget of `max` fast retries, a retry counting as fast when it comes
    /// less than `threshold` after the one before. The threshold is kept in
    /// nanoseconds, as `Duration::as_nanos` gives it.
    pub fn new(max: usize, threshold: Duration) -> (r: Retry)
        ensures
            r@ == fresh_retry(max as nat, duration_total_nanos(threshold) as nat),
            r.last_retry() is None,
            r.measured() is None,
            r.reading() is None,
    {
        Retry::with_threshold_nanos(max, duration_nanos(&threshold))
    }

    /// The counts and the threshold of a `Retry` fit in the integers that
    /// hold them.
    pub proof fn lemma_view_bounds(&self)
        ensures
            self@.max <= usize::MAX,
            self@.iterations <= usize::MAX,
            self@.over_threshold <= usize::MAX,
            self@.threshold <= u128::MAX,
    {
    }

    /// The threshold, in nanoseconds.
    pub fn threshold_nanos(&self) -> (t: u128)
        ensures
            t == self@.threshold,
    {
        self.threshold_nanos
    }

    /// Whether [`Retry::advance`] may be called with `within`.
    pub fn can_step(&self, within: bool) -> (r: bool)
        ensures
            r == retry_can_step(self@, within),
    {
        let started = self.last_retry.is_some();
        if started && within && self.over_threshold_iterations == usize::MAX {
            return false;
        }
        let fits = if !started {
            self.over_threshold_iterations <= self.max
        } else if within {
            self.over_threshold_iterations < self.max
        } else if self.over_threshold_iterations == 0 {
            true
        } else {
            self.over_threshold_iterations - 1 <= self.max
        };
        !(fits && self.iterations == usize::MAX)
    }

    /// Asks for one more retry at time `now`; `within` says whether the time
    /// since the last retry was below the threshold.
    pub fn advance(&mut self, now: SystemTime, within: bool) -> (r: Option<(usize, usize)>)
        requires
            retry_can_step(old(self)@, within),
        ensures
            final(self)@ == retry_after(old(self)@, within),
            pair_view(r) == retry_yield(old(self)@, within),
            final(self).last_retry() == (if r is Some {
                Some(now)
            } else {
                old(self).last_retry()
            }),
            final(self).measured() == old(self).measured(),
            final(self).reading() == old(self).reading(),
    {
        if self.last_retry.is_some() {
            if within {
                self.over_threshold_iterations = self.over_threshold_iterations + 1;
            } else if self.over_threshold_iterations > 0 {
                self.over_threshold_iterations = self.over_threshold_iterations - 1;
            }
        }
        if self.over_threshold_iterations > self.max {
            return None;
        }
        self.last_retry = Some(now);
        self.iterations = self.iterations + 1;
        Some((self.iterations - 1, self.max - self.over_threshold_iterations))
    }

    /// Whether a retry `elapsed` nanoseconds after the last one is fast
    /// against `threshold_nanos`; `None` where nothing was measured.
    pub fn fast_after(elapsed: Option<u128>, threshold_nanos: u128) -> (w: Option<bool>)
        ensures
            w == spec_fast_after(elapsed, threshold_nanos as nat),
    {
        match elapsed {
            None => None,
            Some(e) => Some(e < threshold_nanos),
        }
    }

    /// Asks for one more retry, `elapsed` being the time in nanoseconds
    /// measured since the last retry (`None` where the clock went backwards;
    /// not consulted before the first retry), and `stamp` the time recorded
    /// for the retry if one is handed out.
    pub fn step(&mut self, elapsed: Option<u128>, stamp: SystemTime) -> (r: Option<(usize, usize)>)
        ensures
            (final(self)@, pair_view(r)) == retry_outcome(old(self)@, elapsed),
            final(self).last_retry() == (if r is Some {
                Some(stamp)
            } else {
                old(self).last_retry()
            }),
            final(self).measured() == elapsed,
            final(self).reading() == old(self).reading(),
    {
        self.measured = Ghost(elapsed);
        let within = if self.last_retry.is_some() {
            Retry::fast_after(elapsed, self.threshold_nanos)
        } else {
            Some(false)
        };
        match within {
            None => None,
            Some(w) => {
                if self.can_step(w) {
                    self.advance(stamp, w)
                } else {
                    None
                }
            },
        }
    }

    /// Asks for one more retry, measuring on the system clock the time since
    /// the last retry handed out (nothing before the first), and recording a
    /// fresh reading as the time of the retry if one is handed out. The
    /// outcome is that of [`Retry::step`] on what was measured, which
    /// `measured` keeps: where the clock went backwards the sequence ends and
    /// nothing changes.
    pub fn next(&mut self) -> (r: Option<(usize, usize)>)
        ensures
            (final(self)@, pair_view(r)) == retry_outcome(old(self)@, final(self).measured()),
            !old(self)@.started ==> final(self).measured() is None,
            old(self).last_retry() matches Some(l) ==> exists|now: SystemTime|
                final(self).measured() == #[trigger] elapsed_between(now, l),
            r is Some ==> final(self).last_retry() is Some,
            r is None ==> final(self).last_retry() == old(self).last_retry(),
            final(self).reading() is Some,
            old(self).last_retry() matches Some(l) ==> final(self).measured() == elapsed_between(
                final(self).reading()->0,
                l,
            ),
    {
        let now = system_time_now();
        self.reading = Ghost(Some(now));
        let elapsed = match &self.last_retry {
            Some(last) => elapsed_nanos(&now, last),
            None => None,
        };
        assert(old(self).last_retry() matches Some(l) ==> elapsed == elapsed_between(now, l));
        let stamp = system_time_now();
        self.step(elapsed, stamp)
    }
}

} // verus!
