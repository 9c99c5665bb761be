//! Window reducers: *average* (integer mean, rounded half-up), *peak*
//! (maximum) and *sum* (saturating at the measurement kind's bounds).
//! Every reducer skips absent slots, which record error ticks.

use crate::measurement::{Measurement, MeasurementKind};
use crate::window_buffer::WindowBuffer;
use crate::Error;
use vstd::arithmetic::div_mod::{
    lemma_div_is_ordered,
    lemma_div_multiples_vanish,
    lemma_fundamental_div_mod,
    lemma_mod_bound,
};
use vstd::prelude::*;

verus! {

/// The numeric values of the present slots of a window, oldest first.
pub open spec fn vals(w: Seq<Option<Measurement>>) -> Seq<int>
    decreases w.len(),
{
    if w.len() == 0 {
        Seq::empty()
    } else {
        vals(w.drop_last()) + (match w.last() {
            Some(m) => seq![m.spec_value()],
            None => Seq::empty(),
        })
    }
}

pub open spec fn sum_int(s: Seq<int>) -> int
    decreases s.len(),
{
    if s.len() == 0 {
        0
    } else {
        sum_int(s.drop_last()) + s.last()
    }
}

pub open spec fn max_int(s: Seq<int>) -> int
    recommends
        s.len() > 0,
    decreases s.len(),
{
    if s.len() <= 1 {
        s[0]
    } else {
        let m = max_int(s.drop_last());
        if s.last() > m {
            s.last()
        } else {
            m
        }
    }
}

/// Division truncated towards zero, the convention of the big-integer
/// quotient of the average reducer.
pub open spec fn tdiv(a: int, b: int) -> int
    recommends
        b >= 1,
{
    if a >= 0 {
        a / b
    } else {
        -((-a) / b)
    }
}

/// The remainder that goes with `tdiv`: it carries the dividend's sign.
pub open spec fn trem(a: int, b: int) -> int
    recommends
        b >= 1,
{
    a - b * tdiv(a, b)
}

/// The integer mean of `sum` over `n` samples, rounded half-up: one more
/// than the truncated quotient exactly when the remainder reaches
/// `ceil(n / 2)`.
pub open spec fn spec_avg_of(sum: int, n: int) -> int
    recommends
        n >= 1,
{
    let q = tdiv(sum, n);
    let r = trem(sum, n);
    if r >= (n + 1) / 2 {
        q + 1
    } else {
        q
    }
}

/// The average of the present slots of a window.
pub open spec fn spec_average(w: Seq<Option<Measurement>>) -> int
    recommends
        vals(w).len() > 0,
{
    spec_avg_of(sum_int(vals(w)), vals(w).len() as int)
}

pub open spec fn spec_clamp(x: int, lo: int, hi: int) -> int {
    if x < lo {
        lo
    } else if x > hi {
        hi
    } else {
        x
    }
}

/// The kinds whose average and peak are meaningful.
pub open spec fn avg_peak_capable(k: MeasurementKind) -> bool {
    k == MeasurementKind::Level || k == MeasurementKind::DataSize || k == MeasurementKind::Integer
        || k == MeasurementKind::Temperature
}

/// The kinds whose sum is meaningful.
pub open spec fn sum_capable(k: MeasurementKind) -> bool {
    k == MeasurementKind::DataSize || k == MeasurementKind::Integer
}

/// Every slot of the window is either absent or a measurement of `k`.
pub open spec fn kinds_match(w: Seq<Option<Measurement>>, k: MeasurementKind) -> bool {
    forall|j: int|
        0 <= j < w.len() ==> (#[trigger] w[j] matches Some(m) ==> m.spec_kind() == k)
}

proof fn lemma_vals_take_step(w: Seq<Option<Measurement>>, i: int)
    requires
        0 <= i < w.len(),
    ensures
        vals(w.take(i + 1)) == vals(w.take(i)) + (match w[i] {
            Some(m) => seq![m.spec_value()],
            None => Seq::<int>::empty(),
        }),
{
    assert(w.take(i + 1).drop_last() == w.take(i));
    assert(w.take(i + 1).last() == w[i]);
}

/// Truncated division is monotone in the dividend.
proof fn lemma_tdiv_mono(a1: int, a2: int, b: int)
    requires
        a1 <= a2,
        b >= 1,
    ensures
        tdiv(a1, b) <= tdiv(a2, b),
{
    if a1 >= 0 {
        lemma_div_is_ordered(a1, a2, b);
    } else if a2 < 0 {
        lemma_div_is_ordered(-a2, -a1, b);
    } else {
        assert((-a1) / b >= 0) by {
            lemma_div_is_ordered(0, -a1, b);
        }
        assert(a2 / b >= 0) by {
            lemma_div_is_ordered(0, a2, b);
        }
    }
}

/// Truncated division cancels an exact multiple.
proof fn lemma_tdiv_multiple(c: int, b: int)
    requires
        b >= 1,
    ensures
        tdiv(c * b, b) == c,
{
    if c >= 0 {
        lemma_div_multiples_vanish(c, b);
        assert(c * b == b * c) by (nonlinear_arith);
    } else {
        lemma_div_multiples_vanish(-c, b);
        assert(-(c * b) == b * (-c)) by (nonlinear_arith);
    }
}

/// The mean of values between `lo` and `hi` stays between `lo` and `hi`,
/// also after rounding half-up.
proof fn lemma_avg_of_in_range(sum: int, n: int, lo: int, hi: int)
    requires
        n >= 1,
        lo * n <= sum,
        sum <= hi * n,
    ensures
        lo <= spec_avg_of(sum, n),
        spec_avg_of(sum, n) <= hi,
{
    let q = tdiv(sum, n);
    let r = trem(sum, n);
    lemma_tdiv_mono(lo * n, sum, n);
    lemma_tdiv_mono(sum, hi * n, n);
    lemma_tdiv_multiple(lo, n);
    lemma_tdiv_multiple(hi, n);
    assert(lo <= q && q <= hi);
    assert((n + 1) / 2 >= 1);
    if r >= (n + 1) / 2 {
        // a round-up happens only below the upper bound
        assert(q < hi) by {
            if q == hi {
                assert(r == sum - n * hi);
                assert(n * hi == hi * n) by (nonlinear_arith);
                assert(r <= 0);
            }
        }
    }
}

/// Element bounds carry over to the reduced values of a window.
proof fn lemma_vals_bounds(w: Seq<Option<Measurement>>, lo: int, hi: int)
    requires
        forall|j: int|
            0 <= j < w.len() ==> (#[trigger] w[j] matches Some(m) ==> lo <= m.spec_value() <= hi),
    ensures
        lo * vals(w).len() <= sum_int(vals(w)),
        sum_int(vals(w)) <= hi * vals(w).len(),
        vals(w).len() > 0 ==> lo <= max_int(vals(w)) <= hi,
    decreases w.len(),
{
    if w.len() == 0 {
    } else {
        let t = w.drop_last();
        assert(forall|j: int|
            0 <= j < t.len() ==> (#[trigger] t[j] matches Some(m) ==> lo <= m.spec_value()
                <= hi)) by {
            assert(forall|j: int| 0 <= j < t.len() ==> t[j] == w[j]);
        }
        lemma_vals_bounds(t, lo, hi);
        let k = vals(t).len() as int;
        match w.last() {
            Some(m) => {
                assert(w[w.len() - 1] matches Some(m2) ==> lo <= m2.spec_value() <= hi);
                assert(vals(w) == vals(t) + seq![m.spec_value()]);
                assert(vals(w).drop_last() == vals(t));
                assert(lo * (k + 1) == lo * k + lo) by (nonlinear_arith);
                assert(hi * (k + 1) == hi * k + hi) by (nonlinear_arith);
                if k > 0 {
                    assert(max_int(vals(w)) == if vals(w).last() > max_int(vals(t)) {
                        vals(w).last()
                    } else {
                        max_int(vals(t))
                    });
                }
            },
            None => {
                assert(vals(w) == vals(t) + Seq::<int>::empty());
                assert(vals(w) =~= vals(t));
            },
        }
    }
}

/// Walks a window: the number of present slots, their sum and their
/// maximum, with the bounds their kinds impose.
fn scan(items: &Vec<Option<Measurement>>, kind: MeasurementKind) -> (r: (usize, i128, i128))
    requires
        kinds_match(items@, kind),
        items@.len() <= 65535,
    ensures
        r.0 == vals(items@).len(),
        r.1 == sum_int(vals(items@)),
        r.0 > 0 ==> r.2 == max_int(vals(items@)),
        forall|j: int|
            0 <= j < items@.len() ==> (#[trigger] items@[j] matches Some(m) ==>
                Measurement::kind_lo(kind) <= m.spec_value() <= Measurement::kind_hi(kind)),
{
    let n = items.len();
    let mut count: usize = 0;
    let mut sum: i128 = 0;
    let mut max: i128 = 0;
    for i in 0..n
        invariant
            n == items@.len(),
            n <= 65535,
            kinds_match(items@, kind),
            count == vals(items@.take(i as int)).len(),
            count <= i,
            sum == sum_int(vals(items@.take(i as int))),
            -(i as int) * 0x10000000000000000 <= sum <= (i as int) * 0x10000000000000000,
            count > 0 ==> max == max_int(vals(items@.take(i as int))),
            forall|j: int|
                0 <= j < i ==> (#[trigger] items@[j] matches Some(m) ==> Measurement::kind_lo(kind)
                    <= m.spec_value() <= Measurement::kind_hi(kind)),
    {
        let it = items[i];
        proof {
            lemma_vals_take_step(items@, i as int);
        }
        match it {
            Some(m) => {
                let v = m.value_i128();
                proof {
                    assert(vals(items@.take(i + 1)).drop_last() == vals(items@.take(i as int)));
                }
                if count == 0 {
                    max = v;
                } else if v > max {
                    max = v;
                }
                count = count + 1;
                sum = sum + v;
            },
            None => {
                proof {
                    assert(vals(items@.take(i + 1)) =~= vals(items@.take(i as int)));
                }
            },
        }
    }
    proof {
        assert(items@.take(n as int) == items@);
    }
    (count, sum, max)
}

/// Builds the measurement of `kind` holding `value`.
fn make_measurement(kind: MeasurementKind, value: i128) -> (r: Measurement)
    requires
        avg_peak_capable(kind) || sum_capable(kind),
        Measurement::kind_lo(kind) <= value <= Measurement::kind_hi(kind),
    ensures
        r.spec_kind() == kind,
        r.spec_value() == value,
{
    match kind {
        MeasurementKind::Level => Measurement::Level(
            crate::measurement::Level::from_valid(value as u8),
        ),
        MeasurementKind::DataSize => Measurement::DataSize(
            crate::measurement::DataSize::from_valid(value as u64),
        ),
        MeasurementKind::Temperature => Measurement::Temperature(
            crate::measurement::Temperature::from_valid(value as i16),
        ),
        MeasurementKind::Integer => Measurement::Integer(
            crate::measurement::Integer::from_valid(value as i64),
        ),
        MeasurementKind::StatusCode => vstd::pervasive::unreached(),
        MeasurementKind::BinaryState => vstd::pervasive::unreached(),
    }
}

/// The integer mean of `sum` over `count` samples, rounded half-up, in
/// the convention of `spec_avg_of`.
fn rounded_average(sum: i128, count: usize) -> (r: i128)
    requires
        1 <= count <= 65535,
        -(65535 * 0x10000000000000000) <= sum <= 65535 * 0x10000000000000000,
    ensures
        r == spec_avg_of(sum as int, count as int),
{
    let n = count as u128;
    if sum >= 0 {
        let us = sum as u128;
        let q = us / n;
        let rem = us % n;
        proof {
            lemma_fundamental_div_mod(us as int, n as int);
            lemma_mod_bound(us as int, n as int);
            lemma_div_is_ordered(0, us as int, n as int);
            lemma_div_is_ordered(us as int, (65535 * 0x10000000000000000) as int, n as int);
        }
        let half = (count + 1) / 2;
        if rem >= half as u128 {
            (q + 1) as i128
        } else {
            q as i128
        }
    } else {
        let us = (-sum) as u128;
        let q = us / n;
        proof {
            let si = sum as int;
            let ui = us as int;
            let ni = n as int;
            let qi = ui / ni;
            lemma_fundamental_div_mod(ui, ni);
            lemma_mod_bound(ui, ni);
            lemma_div_is_ordered(0, ui, ni);
            lemma_div_is_ordered(ui, (65535 * 0x10000000000000000) as int, ni);
            assert(ui == ni * qi + ui % ni);
            assert(tdiv(si, ni) == -qi);
            assert(ni * (-qi) == -(ni * qi)) by (nonlinear_arith);
            assert(trem(si, ni) == si + ni * qi);
            assert(trem(si, ni) == -(ui % ni));
            assert((count + 1) as int / 2 >= 1);
        }
        -(q as i128)
    }
}

/// The reducer a filter applies over its window.
#[derive(Clone, Copy, Debug, PartialEq, Eq, Structural)]
pub enum FilterOp {
    Average,
    Peak,
    Sum,
}

/// Which reducers are meaningful for which measurement kinds.
pub open spec fn op_capable(op: FilterOp, k: MeasurementKind) -> bool {
    match op {
        FilterOp::Average => avg_peak_capable(k),
        FilterOp::Peak => avg_peak_capable(k),
        FilterOp::Sum => sum_capable(k),
    }
}

/// The value a reducer yields over a window.
pub open spec fn spec_reduce(op: FilterOp, k: MeasurementKind, w: Seq<Option<Measurement>>) -> int {
    match op {
        FilterOp::Average => spec_average(w),
        FilterOp::Peak => max_int(vals(w)),
        FilterOp::Sum => spec_clamp(
            sum_int(vals(w)),
            Measurement::kind_lo(k),
            Measurement::kind_hi(k),
        ),
    }
}

proof fn lemma_vals_len(w: Seq<Option<Measurement>>)
    ensures
        vals(w).len() <= w.len(),
    decreases w.len(),
{
    if w.len() > 0 {
        lemma_vals_len(w.drop_last());
    }
}

/// A streaming window reducer: each successful measurement enters the
/// window and the reduction over the present slots comes back out; an
/// error tick enters as an absent slot.
#[derive(Debug)]
pub struct WindowFilter {
    op: FilterOp,
    window_buffer: WindowBuffer,
    kind: MeasurementKind,
}

impl WindowFilter {
    pub closed spec fn wf(&self) -> bool {
        &&& self.window_buffer.wf()
        &&& self.window_buffer.spec_capacity() <= 65535
        &&& kinds_match(self.window_buffer@, self.kind)
        &&& op_capable(self.op, self.kind)
    }

    pub closed spec fn spec_op(&self) -> FilterOp {
        self.op
    }

    /// The reducer this filter applies.
    pub fn op(&self) -> (r: FilterOp)
        ensures
            r == self.spec_op(),
    {
        self.op
    }

    /// The measurement kind this filter reduces.
    pub fn kind(&self) -> (r: MeasurementKind)
        ensures
            r == self.spec_kind(),
    {
        self.kind
    }

    pub closed spec fn spec_kind(&self) -> MeasurementKind {
        self.kind
    }

    pub closed spec fn window(&self) -> Seq<Option<Measurement>> {
        self.window_buffer@
    }

    pub closed spec fn spec_capacity(&self) -> nat {
        self.window_buffer.spec_capacity()
    }

    /// A filter over an empty window of `window_size` slots. A size of 0
    /// is rejected, as is a reducer that is not meaningful for the
    /// measurement kind.
    pub fn new(op: FilterOp, window_size: u16, kind: MeasurementKind) -> (r: Result<Self, Error>)
        ensures
            r is Ok <==> (op_capable(op, kind) && window_size != 0),
            r matches Ok(f) ==> f.wf() && f.spec_op() == op && f.spec_kind() == kind && f.window()
                == Seq::<Option<Measurement>>::empty() && f.spec_capacity() == window_size,
            r matches Err(e) ==> e.0@ == (if !op_capable(op, kind) {
                "Filter not supported for data type."@
            } else {
                "'window_size' cannot be 0."@
            }),
    {
        let capable = match op {
            FilterOp::Average => kind == MeasurementKind::Level || kind == MeasurementKind::DataSize
                || kind == MeasurementKind::Integer || kind == MeasurementKind::Temperature,
            FilterOp::Peak => kind == MeasurementKind::Level || kind == MeasurementKind::DataSize
                || kind == MeasurementKind::Integer || kind == MeasurementKind::Temperature,
            FilterOp::Sum => kind == MeasurementKind::DataSize || kind == MeasurementKind::Integer,
        };
        if !capable {
            Err(Error(String::from_str("Filter not supported for data type.")))
        } else {
            match WindowBuffer::new(window_size) {
                Ok(window_buffer) => Ok(WindowFilter { op, window_buffer, kind }),
                Err(e) => Err(e),
            }
        }
    }

    /// How one observation changes the window: appended below capacity,
    /// evicting the oldest slot at capacity.
    pub open spec fn window_step(
        w0: Seq<Option<Measurement>>,
        w1: Seq<Option<Measurement>>,
        cap: nat,
        slot: Option<Measurement>,
    ) -> bool {
        if w0.len() < cap {
            w1 == w0.push(slot)
        } else {
            w1 == w0.drop_first().push(slot)
        }
    }

    /// Feeds one successful measurement and returns the reduction over
    /// the window, the last `min(k, N)` of the `k` slots observed so far
    /// with absent slots skipped.
    pub fn filter(&mut self, data: Measurement) -> (r: Measurement)
        requires
            old(self).wf(),
            data.spec_kind() == old(self).spec_kind(),
        ensures
            final(self).wf(),
            final(self).spec_op() == old(self).spec_op(),
            final(self).spec_kind() == old(self).spec_kind(),
            final(self).spec_capacity() == old(self).spec_capacity(),
            Self::window_step(
                old(self).window(),
                final(self).window(),
                old(self).spec_capacity(),
                Some(data),
            ),
            r.spec_kind() == old(self).spec_kind(),
            r.spec_value() == spec_reduce(old(self).spec_op(), old(self).spec_kind(), final(self).window()),
    {
        let ghost w0 = self.window_buffer@;
        self.window_buffer.push(Some(data));
        proof {
            assert(kinds_match(self.window_buffer@, self.kind)) by {
                let w1 = self.window_buffer@;
                assert forall|j: int|
                    0 <= j < w1.len() implies (#[trigger] w1[j] matches Some(m)
                    ==> m.spec_kind() == self.kind) by {
                    if j < w1.len() - 1 {
                        if w0.len() < self.window_buffer.spec_capacity() {
                            assert(w1[j] == w0[j]);
                        } else {
                            assert(w1[j] == w0[j + 1]);
                        }
                    } else {
                        assert(w1[j] == Some(data));
                    }
                }
            }
        }
        let items = self.window_buffer.items();
        proof {
            lemma_vals_len(items@);
            assert(items@.last() == Some(data));
            assert(vals(items@) == vals(items@.drop_last()) + seq![data.spec_value()]);
            assert(vals(items@).len() > 0);
        }
        let (count, sum, max) = scan(&items, self.kind);
        proof {
            lemma_vals_bounds(
                items@,
                Measurement::kind_lo(self.kind),
                Measurement::kind_hi(self.kind),
            );
            assert(Measurement::kind_hi(self.kind) * vals(items@).len() <= (65535
                * 0x10000000000000000)) by (nonlinear_arith)
                requires
                    Measurement::kind_hi(self.kind) <= 0x10000000000000000,
                    vals(items@).len() <= 65535,
            ;
            assert((-65535 * 0x10000000000000000) <= Measurement::kind_lo(self.kind) * vals(
                items@,
            ).len()) by (nonlinear_arith)
                requires
                    Measurement::kind_lo(self.kind) >= -0x10000000000000000,
                    vals(items@).len() <= 65535,
            ;
        }
        match self.op {
            FilterOp::Average => {
                let avg = rounded_average(sum, count);
                proof {
                    lemma_avg_of_in_range(
                        sum as int,
                        count as int,
                        Measurement::kind_lo(self.kind),
                        Measurement::kind_hi(self.kind),
                    );
                }
                make_measurement(self.kind, avg)
            },
            FilterOp::Peak => make_measurement(self.kind, max),
            FilterOp::Sum => {
                let lo = Measurement::kind_lo_val(self.kind);
                let hi = Measurement::kind_hi_val(self.kind);
                let clamped = if sum < lo {
                    lo
                } else if sum > hi {
                    hi
                } else {
                    sum
                };
                make_measurement(self.kind, clamped)
            },
        }
    }

    /// Feeds one error tick: the window advances with an absent slot.
    pub fn error(&mut self)
        requires
            old(self).wf(),
        ensures
            final(self).wf(),
            final(self).spec_op() == old(self).spec_op(),
            final(self).spec_kind() == old(self).spec_kind(),
            final(self).spec_capacity() == old(self).spec_capacity(),
            Self::window_step(
                old(self).window(),
                final(self).window(),
                old(self).spec_capacity(),
                None,
            ),
    {
        let ghost w0 = self.window_buffer@;
        self.window_buffer.push(None);
        proof {
            assert(kinds_match(self.window_buffer@, self.kind)) by {
                let w1 = self.window_buffer@;
                assert forall|j: int|
                    0 <= j < w1.len() implies (#[trigger] w1[j] matches Some(m)
                    ==> m.spec_kind() == self.kind) by {
                    if j < w1.len() - 1 {
                        if w0.len() < self.window_buffer.spec_capacity() {
                            assert(w1[j] == w0[j]);
                        } else {
                            assert(w1[j] == w0[j + 1]);
                        }
                    }
                }
            }
        }
    }
}

} // verus!
