//! Running statistics: min / max / avg / total / count per metric, folded
//! incrementally one sample at a time, with no stored sample history.

use vstd::prelude::*;
use vstd::arithmetic::div_mod::{lemma_div_is_ordered, lemma_div_multiples_vanish};
use vstd::arithmetic::mul::lemma_mul_upper_bound;

verus! {

/// Running statistics for one metric in one scope since the last reset.
///
/// `total` is the exact sum of all folded samples (a `u128` so that it never
/// overflows: at most `u64::MAX` samples of at most `u64::MAX` each), and
/// `avg` is the integer quotient `total / count`. While `count == 0`, every
/// field reads as the sentinel 0.
#[derive(Clone, Copy, Debug, PartialEq, Eq, Structural)]
pub struct Stats {
    /// Minimum folded value.
    pub min: u64,
    /// Maximum folded value.
    pub max: u64,
    /// Average value: `total / count`, rounded down.
    pub avg: u64,
    /// Sum of all folded values.
    pub total: u128,
    /// Number of folded values.
    pub count: u64,
}

impl Stats {
    /// The statistics of a scope before any sample was folded.
    pub open spec fn spec_empty() -> Stats {
        Stats { min: 0, max: 0, avg: 0, total: 0, count: 0 }
    }

    /// Well-formedness: with no samples all fields are the sentinel 0; with
    /// samples, the extremes bound the sum and `avg` is its quotient.
    pub open spec fn wf(self) -> bool {
        &&& (self.count == 0 ==> self == Stats::spec_empty())
        &&& (self.count > 0 ==> {
            &&& self.min <= self.max
            &&& self.count * self.min <= self.total
            &&& self.total <= self.count * self.max
            &&& self.avg == self.total as int / self.count as int
        })
    }

    /// The folding rule: `count' = count + 1`, `total' = total + v`,
    /// `min'`/`max'` tightened towards `v`, `avg' = total' / count'`.
    pub open spec fn spec_fold(self, v: u64) -> Stats {
        Stats {
            min: if self.count == 0 || v < self.min {
                v
            } else {
                self.min
            },
            max: if self.count == 0 || v > self.max {
                v
            } else {
                self.max
            },
            avg: ((self.total + v) / (self.count + 1)) as u64,
            total: (self.total + v) as u128,
            count: (self.count + 1) as u64,
        }
    }

    /// An empty statistics record.
    pub fn empty() -> (r: Stats)
        ensures
            r == Stats::spec_empty(),
    {
        Stats { min: 0, max: 0, avg: 0, total: 0, count: 0 }
    }

    /// Folds one sample into the running statistics.
    pub fn fold(&self, v: u64) -> (r: Stats)
        requires
            self.wf(),
            self.count < u64::MAX,
        ensures
            r == self.spec_fold(v),
            r.wf(),
            r.count == self.count + 1,
            r.total == self.total + v,
            self.count > 0 ==> r.min <= self.min && r.max >= self.max,
    {
        proof {
            lemma_fold_wf(*self, v);
        }
        let count: u64 = self.count + 1;
        let total: u128 = self.total + (v as u128);
        let min: u64 = if self.count == 0 || v < self.min {
            v
        } else {
            self.min
        };
        let max: u64 = if self.count == 0 || v > self.max {
            v
        } else {
            self.max
        };
        let avg: u64 = (total / (count as u128)) as u64;
        Stats { min, max, avg, total, count }
    }
}

/// With `count > 0` samples whose extremes bound the sum, the integer
/// average lies between the extremes.
proof fn lemma_avg_between(count: int, mn: int, mx: int, total: int)
    requires
        count > 0,
        0 <= mn,
        count * mn <= total,
        total <= count * mx,
    ensures
        mn <= total / count,
        total / count <= mx,
{
    lemma_div_is_ordered(count * mn, total, count);
    lemma_div_is_ordered(total, count * mx, count);
    lemma_div_multiples_vanish(mn, count);
    lemma_div_multiples_vanish(mx, count);
}

/// Folding preserves well-formedness, and neither the running sum nor the
/// new average can leave its machine range.
proof fn lemma_fold_wf(s: Stats, v: u64)
    requires
        s.wf(),
        s.count < u64::MAX,
    ensures
        s.spec_fold(v).wf(),
        s.total + v <= u128::MAX,
{
    lemma_mul_upper_bound(s.count as int, u64::MAX as int, s.max as int, u64::MAX as int);
    let r = s.spec_fold(v);
    let t = s.total + v;
    let c = s.count + 1;
    if s.count == 0 {
        assert(t / c == v) by {
            lemma_div_multiples_vanish(v as int, 1);
        };
    } else {
        assert(c * r.min <= t && t <= c * r.max) by (nonlinear_arith)
            requires
                s.count * s.min <= s.total,
                s.total <= s.count * s.max,
                r.min <= s.min,
                r.min <= v,
                s.max <= r.max,
                v <= r.max,
                c == s.count + 1,
                t == s.total + v,
                s.count >= 0;
        lemma_avg_between(c, r.min as int, r.max as int, t);
    }
}

/// Law: in every statistics scope with at least one sample, the average lies
/// between the minimum and the maximum, and it is exactly the integer
/// quotient of the running sum by the sample count.
pub proof fn lemma_stats_avg_bounds(s: Stats)
    requires
        s.wf(),
        s.count > 0,
    ensures
        s.min <= s.avg,
        s.avg <= s.max,
        s.avg == s.total as int / s.count as int,
{
    lemma_avg_between(s.count as int, s.min as int, s.max as int, s.total as int);
}

/// The voltage, current and power statistics of one scope (one sensor, or
/// the aggregate "total" channel).
#[derive(Clone, Debug, PartialEq)]
pub struct SensorStats {
    /// Name of the scope.
    pub name: String,
    /// Voltage statistics, in microvolts.
    pub voltage: Stats,
    /// Current statistics, in microamperes.
    pub current: Stats,
    /// Power statistics, in microwatts.
    pub power: Stats,
}

impl SensorStats {
    /// All three metrics are well-formed and have folded exactly `n`
    /// samples.
    pub open spec fn wf_with_count(self, n: u64) -> bool {
        &&& self.voltage.wf()
        &&& self.current.wf()
        &&& self.power.wf()
        &&& self.voltage.count == n
        &&& self.current.count == n
        &&& self.power.count == n
    }

    /// The scope after one tick folded the sample `(v, c, p)`.
    pub open spec fn spec_fold_reading(self, v: u64, c: u64, p: u64) -> SensorStats {
        SensorStats {
            name: self.name,
            voltage: self.voltage.spec_fold(v),
            current: self.current.spec_fold(c),
            power: self.power.spec_fold(p),
        }
    }

    /// The scope with its statistics cleared and its name kept.
    pub open spec fn spec_reset(self) -> SensorStats {
        SensorStats {
            name: self.name,
            voltage: Stats::spec_empty(),
            current: Stats::spec_empty(),
            power: Stats::spec_empty(),
        }
    }

    /// A fresh scope with empty statistics.
    pub fn new_empty(name: String) -> (r: SensorStats)
        ensures
            r.name == name,
            r.wf_with_count(0),
            r == (SensorStats {
                name: name,
                voltage: Stats::spec_empty(),
                current: Stats::spec_empty(),
                power: Stats::spec_empty(),
            }),
    {
        SensorStats {
            name,
            voltage: Stats::empty(),
            current: Stats::empty(),
            power: Stats::empty(),
        }
    }

    /// Folds one tick's sample `(v, c, p)` into all three metrics.
    pub fn fold_reading(&self, v: u64, c: u64, p: u64) -> (r: SensorStats)
        requires
            self.voltage.wf(),
            self.current.wf(),
            self.power.wf(),
            self.voltage.count < u64::MAX,
            self.current.count < u64::MAX,
            self.power.count < u64::MAX,
        ensures
            r == self.spec_fold_reading(v, c, p),
            r.voltage.wf() && r.current.wf() && r.power.wf(),
    {
        SensorStats {
            name: self.name.clone(),
            voltage: self.voltage.fold(v),
            current: self.current.fold(c),
            power: self.power.fold(p),
        }
    }

    /// Clears the statistics of this scope; the name stays.
    pub fn reset(&self) -> (r: SensorStats)
        ensures
            r == self.spec_reset(),
    {
        SensorStats {
            name: self.name.clone(),
            voltage: Stats::empty(),
            current: Stats::empty(),
            power: Stats::empty(),
        }
    }

    /// An owned copy of this scope, equal to it.
    pub fn copy_of(&self) -> (r: SensorStats)
        ensures
            r == *self,
    {
        SensorStats {
            name: self.name.clone(),
            voltage: self.voltage,
            current: self.current,
            power: self.power,
        }
    }
}

} // verus!
