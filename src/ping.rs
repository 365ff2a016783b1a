//! Statistics of the ping phase: six TCP connect timings in microseconds, a
//! failed probe being recorded as 0.
use vstd::prelude::*;

verus! {

/// Probes the ping phase takes, one per second.
pub const PROBE_COUNT: usize = 6;

/// Smallest non-zero probe, if any.
pub open spec fn min_nonzero(s: Seq<u64>) -> Option<u64>
    decreases s.len(),
{
    if s.len() == 0 {
        None
    } else {
        let rest = min_nonzero(s.drop_last());
        let x = s.last();
        if x == 0 {
            rest
        } else {
            match rest {
                None => Some(x),
                Some(m) => Some(if x < m { x } else { m }),
            }
        }
    }
}

/// Sum of `x - m` over the non-zero probes `x`.
pub open spec fn deviation_sum(s: Seq<u64>, m: u64) -> int
    decreases s.len(),
{
    if s.len() == 0 {
        0
    } else {
        deviation_sum(s.drop_last(), m) + if s.last() != 0 {
            s.last() - m
        } else {
            0
        }
    }
}

/// The exact quantities the ping phase reports: latency is `min_us / 1000`
/// milliseconds, jitter `deviation_us / 5000` milliseconds.
#[derive(PartialEq, Eq, Structural, Clone, Copy, Debug)]
pub struct PingSummary {
    pub min_us: u64,
    pub deviation_us: u128,
}

proof fn lemma_min_nonzero(s: Seq<u64>)
    ensures
        min_nonzero(s) is None <==> forall|i: int| 0 <= i < s.len() ==> #[trigger] s[i] == 0,
        min_nonzero(s) is Some ==> min_nonzero(s)->0 != 0 && exists|i: int|
            0 <= i < s.len() && #[trigger] s[i] == min_nonzero(s)->0,
        min_nonzero(s) is Some ==> forall|i: int|
            0 <= i < s.len() && #[trigger] s[i] != 0 ==> min_nonzero(s)->0 <= s[i],
    decreases s.len(),
{
    if s.len() > 0 {
        let t = s.drop_last();
        let x = s.last();
        lemma_min_nonzero(t);
        assert forall|i: int| 0 <= i < t.len() implies #[trigger] t[i] == s[i] by {}
        assert(s[s.len() - 1] == x);
        if x == 0 {
            assert forall|i: int| 0 <= i < s.len() && #[trigger] s[i] != 0 implies i < t.len() by {}
            if min_nonzero(t) is Some {
                let i = choose|i: int| 0 <= i < t.len() && #[trigger] t[i] == min_nonzero(t)->0;
                assert(s[i] == min_nonzero(s)->0);
            }
        } else {
            match min_nonzero(t) {
                None => {
                    assert forall|i: int| 0 <= i < s.len() && #[trigger] s[i] != 0 implies i
                        == s.len() - 1 by {
                        if i < t.len() {
                            assert(t[i] == 0);
                        }
                    }
                },
                Some(m) => {
                    let i = choose|i: int| 0 <= i < t.len() && #[trigger] t[i] == m;
                    if m <= x {
                        assert(s[i] == min_nonzero(s)->0);
                    }
                },
            }
        }
        if min_nonzero(s) is Some {
            assert forall|i: int| 0 <= i < s.len() && #[trigger] s[i] != 0 implies min_nonzero(
                s,
            )->0 <= s[i] by {
                if i < t.len() {
                    assert(t[i] == s[i]);
                }
            }
        }
        if forall|i: int| 0 <= i < s.len() ==> #[trigger] s[i] == 0 {
            assert forall|i: int| 0 <= i < t.len() implies #[trigger] t[i] == 0 by {
                assert(t[i] == s[i]);
            }
        }
        if min_nonzero(s) is None {
            assert forall|i: int| 0 <= i < s.len() implies #[trigger] s[i] == 0 by {
                if i < t.len() {
                    assert(t[i] == s[i]);
                }
            }
        }
    }
}

proof fn lemma_deviation_bound(s: Seq<u64>, m: u64)
    requires
        forall|i: int| 0 <= i < s.len() && #[trigger] s[i] != 0 ==> m <= s[i],
    ensures
        0 <= deviation_sum(s, m) <= s.len() * (u64::MAX as int),
    decreases s.len(),
{
    if s.len() > 0 {
        let t = s.drop_last();
        assert forall|i: int| 0 <= i < t.len() && #[trigger] t[i] != 0 implies m <= t[i] by {
            assert(t[i] == s[i]);
        }
        lemma_deviation_bound(t, m);
        assert(s.last() == s[s.len() - 1]);
    }
}

/// Latency and jitter inputs from the probes; `None` when every probe failed.
pub fn ping_summary(probes: &[u64; 6]) -> (r: Option<PingSummary>)
    ensures
        r is None <==> forall|i: int| 0 <= i < 6 ==> #[trigger] probes@[i] == 0,
        r is Some ==> min_nonzero(probes@) == Some(r->0.min_us),
        r is Some ==> r->0.deviation_us == deviation_sum(probes@, r->0.min_us),
{
    let mut min: Option<u64> = None;
    let mut i: usize = 0;
    while i < PROBE_COUNT
        invariant
            i <= 6,
            probes@.len() == 6,
            min == min_nonzero(probes@.subrange(0, i as int)),
        decreases 6 - i,
    {
        assert(probes@.subrange(0, i as int + 1).drop_last() =~= probes@.subrange(0, i as int));
        let x = probes[i];
        if x != 0 {
            min = match min {
                None => Some(x),
                Some(m) => Some(if x < m { x } else { m }),
            };
        }
        i = i + 1;
    }
    assert(probes@.subrange(0, 6) =~= probes@);
    proof {
        lemma_min_nonzero(probes@);
    }
    let m = match min {
        None => {
            return None;
        },
        Some(m) => m,
    };
    let mut sum: u128 = 0;
    let mut j: usize = 0;
    while j < PROBE_COUNT
        invariant
            j <= 6,
            probes@.len() == 6,
            min_nonzero(probes@) == Some(m),
            forall|k: int| 0 <= k < 6 && #[trigger] probes@[k] != 0 ==> m <= probes@[k],
            sum == deviation_sum(probes@.subrange(0, j as int), m),
        decreases 6 - j,
    {
        let ghost pre = probes@.subrange(0, j as int + 1);
        assert(pre.drop_last() =~= probes@.subrange(0, j as int));
        proof {
            assert forall|k: int| 0 <= k < pre.len() && #[trigger] pre[k] != 0 implies m
                <= pre[k] by {
                assert(pre[k] == probes@[k]);
            }
            lemma_deviation_bound(pre, m);
        }
        let x = probes[j];
        if x != 0 {
            sum = sum + (x - m) as u128;
        }
        j = j + 1;
    }
    assert(probes@.subrange(0, 6) =~= probes@);
    Some(PingSummary { min_us: m, deviation_us: sum })
}

} // verus!
