//! The series of `(bytes, elapsed_us)` observations that a load phase records,
//! and what is derived from it: throughput over the measurement window and the
//! steady/stalled verdict.
use vstd::prelude::*;

verus! {

/// One observation: bytes moved so far, microseconds since the phase started.
pub type Sample = (u64, u128);

/// Samples a complete phase records: one every 500 ms over 14 s.
pub const SAMPLE_COUNT: usize = 28;

/// Index of the first sample of the measurement window.
pub const WINDOW_START: usize = 17;

/// Index of the last sample of the measurement window.
pub const WINDOW_END: usize = 27;

/// Number of flat neighbour pairs from which a phase counts as stalled.
pub const STALL_LIMIT: usize = 6;

/// Byte totals never go down along the series.
pub open spec fn bytes_nondecreasing(s: Seq<Sample>) -> bool {
    forall|i: int, j: int| 0 <= i <= j < s.len() ==> #[trigger] s[i].0 <= #[trigger] s[j].0
}

/// Timestamps strictly increase along the series.
pub open spec fn times_increasing(s: Seq<Sample>) -> bool {
    forall|i: int, j: int| 0 <= i < j < s.len() ==> #[trigger] s[i].1 < #[trigger] s[j].1
}

pub open spec fn series_wf(s: Seq<Sample>) -> bool {
    bytes_nondecreasing(s) && times_increasing(s)
}

/// Whether `(bytes, t)` may follow the series while keeping it well formed.
pub open spec fn may_follow(s: Seq<Sample>, bytes: u64, t: u128) -> bool {
    s.len() == 0 || (s.last().0 <= bytes && s.last().1 < t)
}

/// Number of adjacent pairs `(s[i-1], s[i])` with the same byte total.
pub open spec fn stalled_pairs(s: Seq<Sample>) -> nat
    decreases s.len(),
{
    if s.len() < 2 {
        0
    } else {
        stalled_pairs(s.drop_last()) + if s[s.len() - 2].0 == s.last().0 {
            1nat
        } else {
            0nat
        }
    }
}

/// Verdict of a phase, and the two words for phases that failed or never ran.
#[derive(PartialEq, Eq, Structural, Clone, Copy, Debug)]
pub enum PhaseStatus {
    Steady,
    Stalled,
    Failed,
    Cancelled,
}

pub open spec fn status_of(s: Seq<Sample>) -> PhaseStatus {
    if stalled_pairs(s) >= STALL_LIMIT {
        PhaseStatus::Stalled
    } else {
        PhaseStatus::Steady
    }
}

pub open spec fn status_word(st: PhaseStatus) -> Seq<char> {
    match st {
        PhaseStatus::Steady => "正常"@,
        PhaseStatus::Stalled => "断流"@,
        PhaseStatus::Failed => "失败"@,
        PhaseStatus::Cancelled => "取消"@,
    }
}

impl PhaseStatus {
    /// The word printed for this status.
    pub fn text(&self) -> (r: String)
        ensures
            r@ == status_word(*self),
    {
        match self {
            PhaseStatus::Steady => String::from_str("正常"),
            PhaseStatus::Stalled => String::from_str("断流"),
            PhaseStatus::Failed => String::from_str("失败"),
            PhaseStatus::Cancelled => String::from_str("取消"),
        }
    }
}

/// A throughput as an exact ratio: `bits` moved in `micros` microseconds,
/// which read as bits per microsecond is Mbit/s.
#[derive(PartialEq, Eq, Structural, Clone, Copy, Debug)]
pub struct Throughput {
    pub bits: u128,
    pub micros: u128,
}

/// Throughput over the window `s[17] .. s[27]`.
pub open spec fn window_throughput(s: Seq<Sample>) -> Throughput
    recommends
        s.len() >= SAMPLE_COUNT,
{
    Throughput {
        bits: ((s[WINDOW_END as int].0 - s[WINDOW_START as int].0) * 8) as u128,
        micros: (s[WINDOW_END as int].1 - s[WINDOW_START as int].1) as u128,
    }
}

/// Why no throughput can be derived from a series.
#[derive(PartialEq, Eq, Structural, Clone, Copy, Debug)]
pub enum SeriesError {
    TooFewSamples,
}

/// A well-formed series of observations.
#[derive(Debug)]
pub struct SampleSeries {
    samples: Vec<Sample>,
}

impl View for SampleSeries {
    type V = Seq<Sample>;

    closed spec fn view(&self) -> Seq<Sample> {
        self.samples@
    }
}

impl Clone for SampleSeries {
    fn clone(&self) -> (r: Self)
        ensures
            r@ == self@,
    {
        let mut samples: Vec<Sample> = Vec::new();
        let mut i: usize = 0;
        while i < self.samples.len()
            invariant
                i <= self.samples@.len(),
                samples@ == self.samples@.subrange(0, i as int),
            decreases self.samples@.len() - i,
        {
            samples.push(self.samples[i]);
            i = i + 1;
        }
        assert(self.samples@.subrange(0, i as int) =~= self.samples@);
        SampleSeries { samples }
    }
}

impl SampleSeries {
    /// Timestamps strictly increase and byte totals never go down.
    pub open spec fn wf(&self) -> bool {
        series_wf(self@)
    }

    pub fn new() -> (r: Self)
        ensures
            r.wf(),
            r@ == Seq::<Sample>::empty(),
    {
        SampleSeries { samples: Vec::new() }
    }

    pub fn len(&self) -> (r: usize)
        ensures
            r == self@.len(),
    {
        self.samples.len()
    }

    /// The observation at index `i`.
    pub fn get(&self, i: usize) -> (r: Sample)
        requires
            i < self@.len(),
        ensures
            r == self@[i as int],
    {
        self.samples[i]
    }

    /// Appends `(bytes, t)` when it keeps the series well formed (bytes not
    /// below, time strictly after the last observation); otherwise leaves the
    /// series as it is. Returns whether it was appended.
    pub fn record(&mut self, bytes: u64, t: u128) -> (r: bool)
        requires
            old(self).wf(),
        ensures
            final(self).wf(),
            r == may_follow(old(self)@, bytes, t),
            r ==> final(self)@ == old(self)@.push((bytes, t)),
            !r ==> final(self)@ == old(self)@,
    {
        let n = self.samples.len();
        if n > 0 {
            let last = self.samples[n - 1];
            if !(last.0 <= bytes && last.1 < t) {
                return false;
            }
        }
        proof {
            let s = self.samples@;
            let s2 = s.push((bytes, t));
            assert forall|i: int, j: int| 0 <= i <= j < s2.len() implies #[trigger] s2[i].0
                <= #[trigger] s2[j].0 by {
                if j == s.len() && i < j {
                    assert(s[i].0 <= s[s.len() - 1].0);
                }
            }
            assert forall|i: int, j: int| 0 <= i < j < s2.len() implies #[trigger] s2[i].1
                < #[trigger] s2[j].1 by {
                if j == s.len() && i < j - 1 {
                    assert(s[i].1 < s[s.len() - 1].1);
                }
            }
        }
        self.samples.push((bytes, t));
        true
    }

    /// Number of adjacent observations that share the same byte total.
    pub fn stalled_pairs(&self) -> (r: usize)
        ensures
            r == stalled_pairs(self@),
    {
        let n = self.samples.len();
        if n < 2 {
            return 0;
        }
        let mut count: usize = 0;
        let mut i: usize = 1;
        while i < n
            invariant
                1 <= i <= n,
                n == self@.len(),
                count == stalled_pairs(self@.subrange(0, i as int)),
                count <= i,
            decreases n - i,
        {
            proof {
                let s = self@.subrange(0, i as int + 1);
                assert(s.drop_last() =~= self@.subrange(0, i as int));
            }
            if self.samples[i - 1].0 == self.samples[i].0 {
                count = count + 1;
            }
            i = i + 1;
        }
        assert(self@.subrange(0, n as int) =~= self@);
        count
    }

    /// Stalled when at least six neighbour pairs share a byte total, else steady.
    pub fn status(&self) -> (r: PhaseStatus)
        ensures
            r == status_of(self@),
    {
        if self.stalled_pairs() < STALL_LIMIT {
            PhaseStatus::Steady
        } else {
            PhaseStatus::Stalled
        }
    }

    /// Throughput between the observations at indices 17 and 27.
    pub fn speed(&self) -> (r: Result<Throughput, SeriesError>)
        requires
            self.wf(),
        ensures
            self@.len() < SAMPLE_COUNT <==> r == Err::<Throughput, SeriesError>(
                SeriesError::TooFewSamples,
            ),
            self@.len() >= SAMPLE_COUNT ==> r == Ok::<Throughput, SeriesError>(
                window_throughput(self@),
            ),
            r is Ok ==> r->Ok_0.micros > 0,
    {
        if self.samples.len() < SAMPLE_COUNT {
            return Err(SeriesError::TooFewSamples);
        }
        let first = self.samples[WINDOW_START];
        let last = self.samples[WINDOW_END];
        assert(first.0 <= last.0 && first.1 < last.1);
        let bits: u128 = ((last.0 - first.0) as u128) * 8;
        Ok(Throughput { bits, micros: last.1 - first.1 })
    }
}

} // verus!
