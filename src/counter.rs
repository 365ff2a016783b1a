//! The coordination object of one load phase: a byte counter shared by the
//! workers, a start barrier and an end flag; and the controller's sampling.
use std::sync::atomic::{AtomicBool, Ordering};
use std::sync::{Barrier, BarrierWaitResult};
use vstd::prelude::*;
use vstd::rwlock::{RwLock, RwLockPredicate};

use crate::samples::{
    may_follow, series_wf, status_of, status_word, window_throughput, Sample, SampleSeries, SeriesError,
    Throughput, SAMPLE_COUNT,
};

verus! {

#[verifier::external_type_specification]
#[verifier::external_body]
pub struct ExBarrier(Barrier);

#[verifier::external_type_specification]
#[verifier::external_body]
pub struct ExBarrierWaitResult(BarrierWaitResult);

/// Relies on `std::sync::Barrier::new`: a barrier for `n` parties; it does not panic.
pub assume_specification[ Barrier::new ](n: usize) -> Barrier;

/// Relies on `std::sync::Barrier::wait`: blocks until all parties have called it.
pub assume_specification[ Barrier::wait ](b: &Barrier) -> BarrierWaitResult;

/// The lock's invariant: any running total is admissible.
pub struct TotalInv;

impl RwLockPredicate<u64> for TotalInv {
    open spec fn inv(self, total: u64) -> bool {
        true
    }
}

/// The running total after crediting `n` bytes; it saturates at `u64::MAX`.
pub open spec fn credited(total: u64, n: u64) -> u64 {
    if total + n > u64::MAX {
        u64::MAX
    } else {
        (total + n) as u64
    }
}

/// The counter never goes down: crediting any amount leaves the total at or
/// above what it was, so no later reading of it is below an earlier one.
pub proof fn lemma_credit_monotone(total: u64, n: u64)
    ensures
        credited(total, n) >= total,
        n > 0 && total < u64::MAX ==> credited(total, n) > total,
{
}

/// Whether time `t` comes after the last sample.
pub open spec fn later(s: Seq<Sample>, t: u128) -> bool {
    s.len() == 0 || s.last().1 < t
}

/// What the controller's samples become when it reads the total `v` at time `t`.
pub open spec fn sampled(s: Seq<Sample>, v: u64, t: u128) -> Seq<Sample> {
    if may_follow(s, v, t) {
        s.push((v, t))
    } else {
        s
    }
}

/// Sampling keeps the controller's series in order: timestamps strictly
/// increase and byte totals never go down. A reading taken later, of a total
/// not below the last one (the total only grows, see `lemma_credit_monotone`),
/// is appended as one more sample.
pub proof fn lemma_sampling_in_order(s: Seq<Sample>, v: u64, t: u128)
    requires
        series_wf(s),
    ensures
        series_wf(sampled(s, v, t)),
        may_follow(s, v, t) ==> sampled(s, v, t).len() == s.len() + 1 && sampled(s, v, t).last()
            == (v, t),
        s.len() > 0 && may_follow(s, v, t) ==> sampled(s, v, t)[s.len() as int].0 >= sampled(
            s,
            v,
            t,
        )[s.len() - 1].0,
{
    let o = sampled(s, v, t);
    if may_follow(s, v, t) {
        assert forall|a: int, b: int| 0 <= a <= b < o.len() implies #[trigger] o[a].0
            <= #[trigger] o[b].0 by {
            if b == s.len() && a < b {
                assert(s[a].0 <= s[s.len() - 1].0);
            }
        }
        assert forall|a: int, b: int| 0 <= a < b < o.len() implies #[trigger] o[a].1
            < #[trigger] o[b].1 by {
            if b == s.len() && a < b - 1 {
                assert(s[a].1 < s[s.len() - 1].1);
            }
        }
    }
}

/// Shared by the controller and `N` workers of one phase: the running byte
/// total, the start barrier and the end flag. The samples belong to the
/// controller alone, which passes its `SampleSeries` to `count`.
pub struct LoadCounter {
    total: RwLock<u64, TotalInv>,
    starter: Barrier,
    ender: AtomicBool,
    parties: Ghost<nat>,
}

impl LoadCounter {
    pub closed spec fn wf(&self) -> bool {
        self.total.pred() == TotalInv
    }

    /// Number of parties the start barrier was made for.
    pub closed spec fn parties(&self) -> nat {
        self.parties@
    }

    /// A counter for `threads` workers: the barrier admits `threads + 1`
    /// parties, the controller being the last. The total starts at 0 and the
    /// end flag lowered.
    pub fn new(threads: u8) -> (r: Self)
        ensures
            r.wf(),
            r.parties() == threads + 1,
    {
        let parties: usize = threads as usize + 1;
        LoadCounter {
            total: RwLock::new(0, Ghost(TotalInv)),
            starter: Barrier::new(parties),
            ender: AtomicBool::new(false),
            parties: Ghost(parties as nat),
        }
    }

    /// Blocks until all workers and the controller have arrived.
    pub fn wait(&self) {
        let _ = self.starter.wait();
    }

    /// Raises the end flag; it is never lowered again.
    pub fn end(&self) {
        self.ender.store(true, Ordering::SeqCst);
    }

    /// Whether the controller has raised the end flag.
    pub fn is_end(&self) -> bool {
        self.ender.load(Ordering::SeqCst)
    }

    /// Credits `count` bytes to the running total (see `credited`).
    pub fn increase(&self, count: u64)
        requires
            self.wf(),
    {
        let (total, handle) = self.total.acquire_write();
        let next = total.saturating_add(count);
        proof {
            lemma_credit_monotone(total, count);
        }
        assert(next == credited(total, count));
        handle.release_write(next);
    }

    /// Reads the running total and appends it to the controller's `series`
    /// with the elapsed time `time_passed`, when that time is after the last
    /// sample; otherwise leaves the series as it is. The total only grows
    /// (`lemma_credit_monotone`), so the reading is never below the last
    /// sample; the series keeps the larger of the two, which makes that
    /// visible to its ordering.
    pub fn count(&self, series: &mut SampleSeries, time_passed: u128)
        requires
            self.wf(),
            old(series).wf(),
        ensures
            final(series).wf(),
            later(old(series)@, time_passed) ==> final(series)@ == old(series)@.push(
                (final(series)@.last().0, time_passed),
            ),
            later(old(series)@, time_passed) && old(series)@.len() > 0 ==> final(series)@.last().0
                >= old(series)@.last().0,
            !later(old(series)@, time_passed) ==> final(series)@ == old(series)@,
    {
        let handle = self.total.acquire_read();
        let read = *handle.borrow();
        handle.release_read();
        let n = series.len();
        let v = if n > 0 {
            let last = series.get(n - 1);
            if read < last.0 {
                last.0
            } else {
                read
            }
        } else {
            read
        };
        proof {
            lemma_sampling_in_order(series@, v, time_passed);
        }
        let _ = series.record(v, time_passed);
    }

    /// Throughput over the measurement window of the controller's samples.
    pub fn speed(&self, series: &SampleSeries) -> (r: Result<Throughput, SeriesError>)
        requires
            series.wf(),
        ensures
            series@.len() < SAMPLE_COUNT <==> r == Err::<Throughput, SeriesError>(
                SeriesError::TooFewSamples,
            ),
            series@.len() >= SAMPLE_COUNT ==> r == Ok::<Throughput, SeriesError>(
                window_throughput(series@),
            ),
    {
        series.speed()
    }

    /// `"正常"` (steady) or `"断流"` (stalled), from the controller's samples:
    /// stalled when at least six adjacent samples share a byte total.
    pub fn status(&self, series: &SampleSeries) -> (r: String)
        ensures
            r@ == status_word(status_of(series@)),
    {
        series.status().text()
    }
}

} // verus!
