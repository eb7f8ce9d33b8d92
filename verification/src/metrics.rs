//! Frame metrics: per-tick durations and their summary.
//!
//! From the tick after the clock anchor is set, every tick duration is
//! collected. The very first sample is discarded as a warm-up artefact of
//! the scheduler. The summary holds the arithmetic mean, the ten largest
//! and ten smallest samples — found by a running replacement scan, not a
//! full sort of the whole run — and the raw sample sequence.

use vstd::prelude::*;
use vstd::multiset::Multiset;

verus! {

broadcast use
    vstd::seq_lib::group_to_multiset_ensures,
    vstd::multiset::group_multiset_axioms;

/// Sum of a sample sequence, as an unbounded integer.
pub open spec fn sum_nanos(s: Seq<u64>) -> int
    decreases s.len(),
{
    if s.len() == 0 {
        0
    } else {
        sum_nanos(s.drop_last()) + s.last()
    }
}

/// Non-decreasing order.
pub open spec fn sorted_asc(s: Seq<u64>) -> bool {
    forall|i: int, j: int| 0 <= i <= j < s.len() ==> s[i] <= s[j]
}

/// `sel` holds, with multiplicity, `n` of the samples of `from`, and every
/// sample left out is at most every sample kept: `sel` is `n` largest
/// samples of `from`.
pub open spec fn selects_largest(sel: Seq<u64>, from: Seq<u64>, n: int) -> bool {
    &&& sel.len() == n
    &&& forall|y: u64| #[trigger] sel.to_multiset().count(y) <= from.to_multiset().count(y)
    &&& forall|y: u64, k: int|
        from.to_multiset().count(y) > (#[trigger] sel.to_multiset().count(y)) && 0 <= k < sel.len()
            ==> y <= #[trigger] sel[k]
}

/// `sel` is `n` smallest samples of `from`.
pub open spec fn selects_smallest(sel: Seq<u64>, from: Seq<u64>, n: int) -> bool {
    &&& sel.len() == n
    &&& forall|y: u64| #[trigger] sel.to_multiset().count(y) <= from.to_multiset().count(y)
    &&& forall|y: u64, k: int|
        from.to_multiset().count(y) > (#[trigger] sel.to_multiset().count(y)) && 0 <= k < sel.len()
            ==> y >= #[trigger] sel[k]
}

/// The number of outlier samples kept at each end of the range.
pub const OUTLIERS: usize = 10;

/// The summary written to the metrics artefact, all durations in
/// nanoseconds; the caller renders them in its unit of choice.
pub struct FrameMetrics {
    /// Arithmetic mean of the considered samples.
    pub average_nanos: u64,
    /// The ten smallest samples (fewer on a short run), ascending.
    pub best: Vec<u64>,
    /// The ten largest samples (fewer on a short run), ascending.
    pub worst: Vec<u64>,
    /// The considered samples themselves, in order of collection.
    pub frames: Vec<u64>,
}

/// Collects one tick duration per anchored tick.
pub struct FrameCollector {
    /// Every collected sample, in order; the first is scheduler warm-up and
    /// is discarded by the summary.
    pub samples: Vec<u64>,
}

impl FrameCollector {
    /// An empty collector.
    pub fn new() -> (r: FrameCollector)
        ensures
            r.samples@ == Seq::<u64>::empty(),
    {
        FrameCollector { samples: Vec::new() }
    }

    /// Records one tick duration, but only once the run is anchored; before
    /// that the tick is not part of the timeline.
    pub fn record(&mut self, anchored: bool, delta_nanos: u64)
        ensures
            anchored ==> final(self).samples@ == old(self).samples@.push(delta_nanos),
            !anchored ==> *final(self) == *old(self),
    {
        if anchored {
            self.samples.push(delta_nanos);
        }
    }

    /// Summarizes the run: mean, ten largest, ten smallest, raw samples,
    /// all over the collected samples with the warm-up first one discarded.
    /// `None` when no sample would remain.
    pub fn summarize(&self) -> (r: Option<FrameMetrics>)
        ensures
            r is Some <==> self.samples@.len() > 1,
            r matches Some(m) ==> {
                let fr = self.samples@.skip(1);
                &&& m.frames@ == fr
                &&& m.average_nanos == sum_nanos(fr) / (fr.len() as int)
                &&& sorted_asc(m.worst@)
                &&& selects_largest(
                    m.worst@,
                    fr,
                    if fr.len() < OUTLIERS {
                        fr.len() as int
                    } else {
                        OUTLIERS as int
                    },
                )
                &&& sorted_asc(m.best@)
                &&& selects_smallest(
                    m.best@,
                    fr,
                    if fr.len() < OUTLIERS {
                        fr.len() as int
                    } else {
                        OUTLIERS as int
                    },
                )
            },
    {
        if self.samples.len() <= 1 {
            return None;
        }
        let ghost fr = self.samples@.skip(1);
        let n = self.samples.len() - 1;
        let mut frames: Vec<u64> = Vec::new();
        let mut sum: u128 = 0;
        let mut worst: Vec<u64> = Vec::new();
        let mut best: Vec<u64> = Vec::new();
        let mut i: usize = 1;
        proof {
            assert(fr.take(0) =~= Seq::<u64>::empty());
            assert(Seq::<u64>::empty().to_multiset() =~= Multiset::<u64>::empty());
        }
        while i < self.samples.len()
            invariant
                1 <= i <= self.samples@.len(),
                fr == self.samples@.skip(1),
                fr.len() == self.samples@.len() - 1,
                frames@ == fr.take(i - 1),
                sum == sum_nanos(fr.take(i - 1)),
                sum <= (i - 1) * (u64::MAX as int),
                worst@.len() == if i - 1 < OUTLIERS {
                    i - 1
                } else {
                    OUTLIERS as int
                },
                worst@.len() < OUTLIERS ==> forall|y: u64|
                    #[trigger] worst@.to_multiset().count(y) == fr.take(
                        i - 1,
                    ).to_multiset().count(y),
                forall|y: u64| #[trigger]
                    worst@.to_multiset().count(y) <= fr.take(i - 1).to_multiset().count(y),
                forall|y: u64, k: int|
                    fr.take(i - 1).to_multiset().count(y) > (#[trigger] worst@.to_multiset().count(
                        y,
                    )) && 0 <= k < worst@.len() ==> y <= #[trigger] worst@[k],
                best@.len() == worst@.len(),
                best@.len() < OUTLIERS ==> forall|y: u64|
                    #[trigger] best@.to_multiset().count(y) == fr.take(i - 1).to_multiset().count(
                        y,
                    ),
                forall|y: u64| #[trigger]
                    best@.to_multiset().count(y) <= fr.take(i - 1).to_multiset().count(y),
                forall|y: u64, k: int|
                    fr.take(i - 1).to_multiset().count(y) > (#[trigger] best@.to_multiset().count(
                        y,
                    )) && 0 <= k < best@.len() ==> y >= #[trigger] best@[k],
            decreases self.samples@.len() - i,
        {
            let x = self.samples[i];
            let ghost seen0 = fr.take(i - 1);
            proof {
                assert(fr.take(i as int) =~= fr.take(i - 1).push(fr[i - 1]));
                assert(fr[i - 1] == self.samples@[i as int]);
                assert(fr.take(i - 1).push(fr[i - 1]).drop_last() =~= fr.take(i - 1));
                assert(sum_nanos(fr.take(i as int)) == sum_nanos(fr.take(i - 1)) + fr[i - 1]);
            }
            frames.push(x);
            proof {
                assert(sum + x <= ((i - 1) + 1) * (u64::MAX as int)) by (nonlinear_arith)
                    requires
                        sum <= (i - 1) * (u64::MAX as int),
                        x <= u64::MAX,
                        i >= 1,
                ;
            }
            sum = sum + (x as u128);
            if worst.len() < OUTLIERS {
                worst.push(x);
            } else {
                let m = min_index(&worst);
                let wmin = worst[m];
                if x > wmin {
                    let ghost w0 = worst@;
                    let _removed_min = worst.remove(m);
                    worst.push(x);
                    proof {
                        assert(worst@.to_multiset() =~= w0.to_multiset().remove(w0[m as int]).insert(
                            x,
                        ));
                        assert forall|y: u64, k: int|
                            fr.take(i as int).to_multiset().count(y) > (#[trigger] worst@.to_multiset().count(
                                y,
                            )) && 0 <= k < worst@.len() implies y <= #[trigger] worst@[k] by {
                            if y != wmin && y != x {
                                assert(seen0.to_multiset().count(y) > w0.to_multiset().count(y));
                                assert(y <= w0[m as int]);
                            } else if y == x {
                                assert(seen0.to_multiset().count(x) > w0.to_multiset().count(x));
                                assert(x <= w0[m as int]);
                            }
                            // Now y <= wmin in every reachable case.
                            assert(y <= wmin);
                            if k < worst@.len() - 1 {
                                assert(worst@[k] == w0.remove(m as int)[k]);
                                if k < m {
                                    assert(w0.remove(m as int)[k] == w0[k]);
                                } else {
                                    assert(w0.remove(m as int)[k] == w0[k + 1]);
                                }
                                assert(wmin <= worst@[k]);
                            } else {
                                assert(worst@[k] == x);
                            }
                        }
                    }
                } else {
                    proof {
                        assert forall|y: u64, k: int|
                            fr.take(i as int).to_multiset().count(y) > (#[trigger] worst@.to_multiset().count(
                                y,
                            )) && 0 <= k < worst@.len() implies y <= #[trigger] worst@[k] by {
                            if y != x {
                                assert(seen0.to_multiset().count(y) > worst@.to_multiset().count(
                                    y,
                                ));
                            } else {
                                assert(x <= wmin);
                                assert(wmin <= worst@[k]);
                            }
                        }
                    }
                }
            }
            if best.len() < OUTLIERS {
                best.push(x);
            } else {
                let m = max_index(&best);
                let bmax = best[m];
                if x < bmax {
                    let ghost b0 = best@;
                    let _removed_max = best.remove(m);
                    best.push(x);
                    proof {
                        assert(best@.to_multiset() =~= b0.to_multiset().remove(b0[m as int]).insert(
                            x,
                        ));
                        assert forall|y: u64, k: int|
                            fr.take(i as int).to_multiset().count(y) > (#[trigger] best@.to_multiset().count(
                                y,
                            )) && 0 <= k < best@.len() implies y >= #[trigger] best@[k] by {
                            if y != bmax && y != x {
                                assert(seen0.to_multiset().count(y) > b0.to_multiset().count(y));
                                assert(y >= b0[m as int]);
                            } else if y == x {
                                assert(seen0.to_multiset().count(x) > b0.to_multiset().count(x));
                                assert(x >= b0[m as int]);
                            }
                            assert(y >= bmax);
                            if k < best@.len() - 1 {
                                assert(best@[k] == b0.remove(m as int)[k]);
                                if k < m {
                                    assert(b0.remove(m as int)[k] == b0[k]);
                                } else {
                                    assert(b0.remove(m as int)[k] == b0[k + 1]);
                                }
                                assert(bmax >= best@[k]);
                            } else {
                                assert(best@[k] == x);
                            }
                        }
                    }
                } else {
                    proof {
                        assert forall|y: u64, k: int|
                            fr.take(i as int).to_multiset().count(y) > (#[trigger] best@.to_multiset().count(
                                y,
                            )) && 0 <= k < best@.len() implies y >= #[trigger] best@[k] by {
                            if y != x {
                                assert(seen0.to_multiset().count(y) > best@.to_multiset().count(
                                    y,
                                ));
                            } else {
                                assert(x >= bmax);
                                assert(bmax >= best@[k]);
                            }
                        }
                    }
                }
            }
            i = i + 1;
        }
        proof {
            assert(fr.take(fr.len() as int) =~= fr);
            assert(fr.len() >= 1);
            vstd::arithmetic::div_mod::lemma_div_is_ordered(
                sum as int,
                fr.len() * (u64::MAX as int),
                fr.len() as int,
            );
            vstd::arithmetic::div_mod::lemma_div_by_multiple(
                u64::MAX as int,
                fr.len() as int,
            );
            assert(sum as int / (fr.len() as int) <= u64::MAX);
        }
        let average: u64 = (sum / (n as u128)) as u64;
        let worst_sorted = sort_ascending(worst);
        let best_sorted = sort_ascending(best);
        proof {
            assert(average == sum_nanos(fr) / (fr.len() as int));
            assert forall|y: u64, k: int|
                fr.to_multiset().count(y) > (#[trigger] worst_sorted@.to_multiset().count(y)) && 0
                    <= k < worst_sorted@.len() implies y <= #[trigger] worst_sorted@[k] by {
                assert(worst_sorted@.contains(worst_sorted@[k]));
                assert(worst_sorted@.to_multiset().count(worst_sorted@[k]) > 0);
                assert(worst@.to_multiset().count(worst_sorted@[k]) > 0);
                assert(worst@.contains(worst_sorted@[k]));
                let j = choose|j: int| 0 <= j < worst@.len() && worst@[j] == worst_sorted@[k];
                assert(fr.to_multiset().count(y) > worst@.to_multiset().count(y));
                assert(y <= worst@[j]);
            }
            assert forall|y: u64, k: int|
                fr.to_multiset().count(y) > (#[trigger] best_sorted@.to_multiset().count(y)) && 0
                    <= k < best_sorted@.len() implies y >= #[trigger] best_sorted@[k] by {
                assert(best_sorted@.contains(best_sorted@[k]));
                assert(best_sorted@.to_multiset().count(best_sorted@[k]) > 0);
                assert(best@.to_multiset().count(best_sorted@[k]) > 0);
                assert(best@.contains(best_sorted@[k]));
                let j = choose|j: int| 0 <= j < best@.len() && best@[j] == best_sorted@[k];
                assert(fr.to_multiset().count(y) > best@.to_multiset().count(y));
                assert(y >= best@[j]);
            }
        }
        Some(
            FrameMetrics { average_nanos: average, best: best_sorted, worst: worst_sorted, frames },
        )
    }
}

/// Index of a smallest element.
fn min_index(v: &Vec<u64>) -> (r: usize)
    requires
        v@.len() > 0,
    ensures
        r < v@.len(),
        forall|k: int| 0 <= k < v@.len() ==> v@[r as int] <= v@[k],
{
    let mut m: usize = 0;
    let mut i: usize = 1;
    while i < v.len()
        invariant
            m < i <= v@.len() || (m == 0 && i <= v@.len()),
            m < v@.len(),
            forall|k: int| 0 <= k < i ==> v@[m as int] <= v@[k],
        decreases v@.len() - i,
    {
        if v[i] < v[m] {
            m = i;
        }
        i = i + 1;
    }
    m
}

/// Index of a largest element.
fn max_index(v: &Vec<u64>) -> (r: usize)
    requires
        v@.len() > 0,
    ensures
        r < v@.len(),
        forall|k: int| 0 <= k < v@.len() ==> v@[r as int] >= v@[k],
{
    let mut m: usize = 0;
    let mut i: usize = 1;
    while i < v.len()
        invariant
            m < i <= v@.len() || (m == 0 && i <= v@.len()),
            m < v@.len(),
            forall|k: int| 0 <= k < i ==> v@[m as int] >= v@[k],
        decreases v@.len() - i,
    {
        if v[i] > v[m] {
            m = i;
        }
        i = i + 1;
    }
    m
}

/// Selection sort into a fresh vector: same samples, ascending.
fn sort_ascending(v: Vec<u64>) -> (r: Vec<u64>)
    ensures
        sorted_asc(r@),
        r@.to_multiset() == v@.to_multiset(),
        r@.len() == v@.len(),
{
    let ghost orig = v@;
    let mut src = v;
    let mut out: Vec<u64> = Vec::new();
    proof {
        assert(Seq::<u64>::empty().to_multiset() =~= Multiset::<u64>::empty());
        assert(out@.to_multiset().add(src@.to_multiset()) =~= orig.to_multiset());
    }
    while src.len() > 0
        invariant
            sorted_asc(out@),
            out@.to_multiset().add(src@.to_multiset()) =~= orig.to_multiset(),
            out@.len() + src@.len() == orig.len(),
            forall|a: int, b: int|
                0 <= a < out@.len() && 0 <= b < src@.len() ==> out@[a] <= src@[b],
        decreases src@.len(),
    {
        let m = min_index(&src);
        let ghost s0 = src@;
        let x = src.remove(m);
        out.push(x);
        proof {
            assert(src@.to_multiset() =~= s0.to_multiset().remove(x));
            assert forall|a: int, b: int|
                0 <= a < out@.len() && 0 <= b < src@.len() implies out@[a] <= src@[b] by {
                if a < out@.len() - 1 {
                    if b < m {
                        assert(src@[b] == s0[b]);
                    } else {
                        assert(src@[b] == s0[b + 1]);
                    }
                } else {
                    assert(out@[a] == x);
                    if b < m {
                        assert(src@[b] == s0[b]);
                    } else {
                        assert(src@[b] == s0[b + 1]);
                    }
                }
            }
            assert(out@.to_multiset().add(src@.to_multiset()) =~= orig.to_multiset());
        }
    }
    proof {
        assert(src@.to_multiset() =~= Multiset::<u64>::empty());
        assert(out@.to_multiset() =~= orig.to_multiset());
        assert(out@.len() == orig.len());
    }
    out
}

} // verus!
