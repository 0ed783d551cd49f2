//! A fixed-capacity failure-rate circuit breaker.
//!
//! The breaker keeps a sliding window of the most recent boolean outcome
//! samples (`true` = success, `false` = failure) together with incrementally
//! maintained failure and success counters. Once the window is full and the
//! number of failures in it strictly exceeds the configured tolerance, the
//! breaker reports that its terminating action should fire.
//!
//! The decision threshold used here is "window full": `should_trigger`
//! returns `false` until the window holds `window_size` samples.
//!
//! Performing the terminating action (aborting the process, panicking,
//! polling a service endpoint in the background) is left to the embedding
//! program: the functions here are proved panic-free and only decide.

use std::collections::VecDeque;
use vstd::prelude::*;

verus! {

/// How many samples in `s` equal `v`.
pub open spec fn count_of(s: Seq<bool>, v: bool) -> nat
    decreases s.len(),
{
    if s.len() == 0 {
        0
    } else {
        (if s.first() == v {
            1nat
        } else {
            0nat
        }) + count_of(s.drop_first(), v)
    }
}

/// How many failure (`false`) samples `s` holds.
pub open spec fn failures_in(s: Seq<bool>) -> nat {
    count_of(s, false)
}

/// How many success (`true`) samples `s` holds.
pub open spec fn successes_in(s: Seq<bool>) -> nat {
    count_of(s, true)
}

/// The window after one sample `x` is inserted into a window `w` of
/// capacity `cap`: a full window evicts its oldest sample first, and a
/// window of capacity zero never holds anything.
pub open spec fn slide_window(w: Seq<bool>, cap: nat, x: bool) -> Seq<bool> {
    if cap == 0 {
        w
    } else if w.len() >= cap {
        w.drop_first().push(x)
    } else {
        w.push(x)
    }
}

/// The window of a fresh breaker of capacity `cap` after the samples `s`
/// have been inserted one by one, oldest first.
pub open spec fn window_after(cap: nat, s: Seq<bool>) -> Seq<bool>
    decreases s.len(),
{
    if s.len() == 0 {
        Seq::empty()
    } else {
        slide_window(window_after(cap, s.drop_last()), cap, s.last())
    }
}

/// The trigger decision over a window `w` of capacity `cap` and failure
/// tolerance `tol`: the window must be full, and the failures in it must
/// strictly exceed the tolerance.
pub open spec fn trigger_now(w: Seq<bool>, cap: nat, tol: nat) -> bool {
    w.len() >= cap && failures_in(w) > tol
}

proof fn lemma_count_of_push(s: Seq<bool>, v: bool, x: bool)
    ensures
        count_of(s.push(x), v) == count_of(s, v) + (if x == v {
            1nat
        } else {
            0nat
        }),
    decreases s.len(),
{
    assert(s.push(x).len() == s.len() + 1);
    if s.len() == 0 {
        assert(s.push(x).drop_first() =~= Seq::<bool>::empty());
        assert(s.push(x).first() == x);
        assert(count_of(s.push(x), v) == (if x == v {
            1nat
        } else {
            0nat
        }) + count_of(Seq::<bool>::empty(), v));
        assert(count_of(Seq::<bool>::empty(), v) == 0);
        assert(count_of(s, v) == 0);
    } else {
        lemma_count_of_push(s.drop_first(), v, x);
        assert(s.push(x).drop_first() =~= s.drop_first().push(x));
        assert(s.push(x).first() == s.first());
        assert(count_of(s.push(x), v) == (if s.first() == v {
            1nat
        } else {
            0nat
        }) + count_of(s.drop_first().push(x), v));
        assert(count_of(s, v) == (if s.first() == v {
            1nat
        } else {
            0nat
        }) + count_of(s.drop_first(), v));
    }
}

/// Every sample is either a failure or a success: the two counts always
/// partition the window, whatever samples it holds.
pub proof fn lemma_counts_partition_window(w: Seq<bool>)
    ensures
        failures_in(w) + successes_in(w) == w.len(),
    decreases w.len(),
{
    if w.len() > 0 {
        lemma_counts_partition_window(w.drop_first());
    }
}

/// A window that has not yet collected `cap` samples never triggers,
/// whatever its samples are.
pub proof fn lemma_below_threshold_no_trigger(w: Seq<bool>, cap: nat, tol: nat)
    requires
        w.len() < cap,
    ensures
        !trigger_now(w, cap, tol),
{
}

proof fn lemma_window_after_fits(cap: nat, s: Seq<bool>)
    requires
        s.len() <= cap,
    ensures
        window_after(cap, s) == s,
    decreases s.len(),
{
    if s.len() == 0 {
        assert(s =~= Seq::<bool>::empty());
    } else {
        lemma_window_after_fits(cap, s.drop_last());
        assert(s.drop_last().push(s.last()) =~= s);
    }
}

/// Once at least `cap` samples have gone in, the window holds exactly the
/// most recently inserted `cap` of them, oldest first.
pub proof fn lemma_window_keeps_recent(cap: nat, s: Seq<bool>)
    requires
        s.len() >= cap,
    ensures
        window_after(cap, s) == s.subrange(s.len() - cap, s.len() as int),
        window_after(cap, s).len() == cap,
    decreases s.len(),
{
    if s.len() == 0 {
        assert(window_after(cap, s) =~= s.subrange(0, 0));
    } else if s.len() == cap {
        lemma_window_after_fits(cap, s.drop_last());
        assert(s.drop_last().push(s.last()) =~= s);
        assert(s.subrange(0, s.len() as int) =~= s);
    } else {
        lemma_window_keeps_recent(cap, s.drop_last());
        if cap == 0 {
            assert(window_after(cap, s.drop_last()) =~= Seq::<bool>::empty());
            assert(s.subrange(s.len() as int, s.len() as int) =~= Seq::<bool>::empty());
        } else {
            let prev = s.drop_last().subrange(s.len() - 1 - cap, s.len() as int - 1);
            assert(prev.len() == cap);
            assert(window_after(cap, s) == prev.drop_first().push(s.last()));
            assert(prev.drop_first().push(s.last()) =~= s.subrange(
                s.len() - cap,
                s.len() as int,
            ));
        }
    }
}

/// A brake whose window capacity is zero retains nothing and never
/// triggers, whatever samples are inserted and whatever the tolerance.
pub proof fn lemma_zero_capacity_never_triggers(s: Seq<bool>, tol: nat)
    ensures
        window_after(0, s) == Seq::<bool>::empty(),
        !trigger_now(window_after(0, s), 0, tol),
    decreases s.len(),
{
    if s.len() > 0 {
        lemma_zero_capacity_never_triggers(s.drop_last(), tol);
    }
}

/// Eviction bookkeeping on a full window: inserting one more failure
/// leaves the failure count unchanged when the evicted oldest sample was
/// itself a failure, and trades one success for one failure when the
/// evicted oldest sample was a success.
pub proof fn lemma_eviction_counts(w: Seq<bool>, cap: nat)
    requires
        cap > 0,
        w.len() == cap,
    ensures
        w.first() == false ==> failures_in(slide_window(w, cap, false)) == failures_in(w)
            && successes_in(slide_window(w, cap, false)) == successes_in(w),
        w.first() == true ==> failures_in(slide_window(w, cap, false)) == failures_in(w) + 1
            && successes_in(slide_window(w, cap, false)) == successes_in(w) - 1,
{
    lemma_count_of_push(w.drop_first(), false, false);
    lemma_count_of_push(w.drop_first(), true, false);
    assert(count_of(w, false) == (if w.first() == false {
        1nat
    } else {
        0nat
    }) + count_of(w.drop_first(), false));
    assert(count_of(w, true) == (if w.first() == true {
        1nat
    } else {
        0nat
    }) + count_of(w.drop_first(), true));
}

/// The action to take when the breaker trips. The breaker itself only
/// decides; interpreting the chosen action is the embedding program's part.
#[derive(Clone, Debug, PartialEq, Eq, Structural)]
pub enum Trigger {
    /// Abort the process.
    Abort,
    /// Panic the process.
    Panic,
}

impl Default for Trigger {
    /// The default action is to panic.
    fn default() -> (r: Self)
        ensures
            r == Trigger::Panic,
    {
        Trigger::Panic
    }
}

/// The interface of the emergency brake: feed boolean outcome samples in,
/// and ask whether the configured terminating action should fire now.
pub trait EmergencyBrake {
    /// The samples currently retained, oldest first.
    spec fn window(&self) -> Seq<bool>;

    /// The fixed capacity of the window.
    spec fn window_size(&self) -> nat;

    /// The number of tolerable failures within the window.
    spec fn failure_tolerance(&self) -> nat;

    /// The window is bounded by the capacity and the internal counters
    /// agree with it.
    spec fn wf(&self) -> bool;

    /// Insert a sample into the window. When the window is at capacity,
    /// the oldest sample is evicted first.
    /// `true` indicates a success, `false` indicates a failure.
    fn add_sample(&mut self, sample: bool)
        requires
            old(self).wf(),
        ensures
            final(self).wf(),
            final(self).window() == slide_window(
                old(self).window(),
                old(self).window_size(),
                sample,
            ),
            final(self).window_size() == old(self).window_size(),
            final(self).failure_tolerance() == old(self).failure_tolerance(),
    ;

    /// Whether the terminating action should fire: the window is full and
    /// its failures strictly exceed the tolerance. Pure: the decision is a
    /// function of the current state alone.
    fn should_trigger(&self) -> (r: bool)
        requires
            self.wf(),
        ensures
            r == trigger_now(self.window(), self.window_size(), self.failure_tolerance()),
    ;

    /// Insert a sample, then decide: returns whether the terminating
    /// action should fire now that the sample is in the window.
    fn trigger_on_sample(&mut self, sample: bool) -> (r: bool)
        requires
            old(self).wf(),
        ensures
            final(self).wf(),
            final(self).window() == slide_window(
                old(self).window(),
                old(self).window_size(),
                sample,
            ),
            final(self).window_size() == old(self).window_size(),
            final(self).failure_tolerance() == old(self).failure_tolerance(),
            r == trigger_now(
                final(self).window(),
                final(self).window_size(),
                final(self).failure_tolerance(),
            ),
    ;
}

/// The emergency brake: a circular queue of boolean samples with a fixed
/// capacity and a failure tolerance, plus incrementally maintained counters.
#[derive(Clone, Debug)]
pub struct EBrake {
    data: VecDeque<bool>,
    failures: usize,
    samples: usize,
    successes: usize,
    tolerance: usize,
}

impl EmergencyBrake for EBrake {
    closed spec fn window(&self) -> Seq<bool> {
        self.data@
    }

    closed spec fn window_size(&self) -> nat {
        self.samples as nat
    }

    closed spec fn failure_tolerance(&self) -> nat {
        self.tolerance as nat
    }

    closed spec fn wf(&self) -> bool {
        &&& self.data@.len() <= self.samples
        &&& self.failures == failures_in(self.data@)
        &&& self.successes == successes_in(self.data@)
    }

    fn add_sample(&mut self, sample: bool) {
        if self.samples == 0 {
            return;
        }
        let ghost w = self.data@;
        if self.data.len() == self.samples {
            match self.data.pop_front() {
                Some(true) => {
                    proof {
                        assert(self.data@ =~= w.drop_first());
                        assert(count_of(w, true) == 1 + count_of(w.drop_first(), true));
                        assert(count_of(w, false) == count_of(w.drop_first(), false));
                    }
                    self.successes = self.successes - 1;
                },
                Some(false) => {
                    proof {
                        assert(self.data@ =~= w.drop_first());
                        assert(count_of(w, false) == 1 + count_of(w.drop_first(), false));
                        assert(count_of(w, true) == count_of(w.drop_first(), true));
                    }
                    self.failures = self.failures - 1;
                },
                None => {},
            }
        }
        proof {
            lemma_counts_partition_window(self.data@);
            lemma_count_of_push(self.data@, true, sample);
            lemma_count_of_push(self.data@, false, sample);
        }
        match sample {
            true => self.successes = self.successes + 1,
            false => self.failures = self.failures + 1,
        }
        self.data.push_back(sample);
    }

    fn should_trigger(&self) -> (r: bool) {
        if self.data.len() < self.samples {
            return false;
        }
        self.failures > self.tolerance
    }

    fn trigger_on_sample(&mut self, sample: bool) -> (r: bool) {
        self.add_sample(sample);
        self.should_trigger()
    }
}

impl EBrake {
    /// Creates a new emergency brake that retains the last `samples`
    /// outcomes and tolerates up to `tolerance` failures among them.
    pub fn new(samples: usize, tolerance: usize) -> (r: Self)
        ensures
            r.wf(),
            r.window() == Seq::<bool>::empty(),
            r.window_size() == samples as nat,
            r.failure_tolerance() == tolerance as nat,
    {
        EBrake {
            data: VecDeque::with_capacity(samples),
            failures: 0,
            samples: samples,
            successes: 0,
            tolerance: tolerance,
        }
    }

    /// The number of samples currently in the window.
    pub fn len(&self) -> (r: usize)
        ensures
            r == self.window().len(),
    {
        self.data.len()
    }

    /// The number of failure samples currently in the window.
    pub fn failures(&self) -> (r: usize)
        requires
            self.wf(),
        ensures
            r == failures_in(self.window()),
    {
        self.failures
    }

    /// The configured window capacity.
    pub fn samples(&self) -> (r: usize)
        ensures
            r == self.window_size(),
    {
        self.samples
    }

    /// The number of success samples currently in the window.
    pub fn successes(&self) -> (r: usize)
        requires
            self.wf(),
        ensures
            r == successes_in(self.window()),
    {
        self.successes
    }

    /// The configured failure tolerance.
    pub fn tolerance(&self) -> (r: usize)
        ensures
            r == self.failure_tolerance(),
    {
        self.tolerance
    }
}

impl Default for EBrake {
    /// An empty brake that retains nothing and so never triggers.
    fn default() -> (r: Self)
        ensures
            r.wf(),
            r.window() == Seq::<bool>::empty(),
            r.window_size() == 0,
            r.failure_tolerance() == 0,
    {
        EBrake::new(0, 0)
    }
}

} // verus!
