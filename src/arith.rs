use vstd::prelude::*;
use vstd::arithmetic::div_mod::{lemma_div_is_ordered, lemma_div_multiples_vanish, lemma_div_pos_is_pos};

verus! {

/// Sum of a sequence of readings, as an unbounded integer.
pub open spec fn sum_of(s: Seq<i64>) -> int
    decreases s.len(),
{
    if s.len() == 0 {
        0
    } else {
        sum_of(s.drop_last()) + s.last()
    }
}

/// `a / n` rounded toward zero, as Rust's integer division rounds.
pub open spec fn quot(a: int, n: int) -> int {
    if a >= 0 {
        a / n
    } else {
        -((-a) / n)
    }
}

/// Mean of the readings rounded toward zero; zero when there are none.
pub open spec fn mean_of(s: Seq<i64>) -> int {
    if s.len() == 0 {
        0
    } else {
        quot(sum_of(s), s.len() as int)
    }
}

pub proof fn lemma_sum_bounds(s: Seq<i64>)
    ensures
        s.len() * (i64::MIN as int) <= sum_of(s) <= s.len() * (i64::MAX as int),
    decreases s.len(),
{
    if s.len() > 0 {
        let t = s.drop_last();
        lemma_sum_bounds(t);
        let n = t.len() as int;
        assert((n + 1) * (i64::MIN as int) == n * (i64::MIN as int) + (i64::MIN as int))
            by (nonlinear_arith);
        assert((n + 1) * (i64::MAX as int) == n * (i64::MAX as int) + (i64::MAX as int))
            by (nonlinear_arith);
    }
}

pub proof fn lemma_quot_bounds(a: int, n: int, lo: int, hi: int)
    requires
        n > 0,
        lo <= 0 <= hi,
        n * lo <= a <= n * hi,
    ensures
        lo <= quot(a, n) <= hi,
{
    if a >= 0 {
        lemma_div_is_ordered(a, n * hi, n);
        lemma_div_multiples_vanish(hi, n);
        lemma_div_pos_is_pos(a, n);
    } else {
        assert(-a <= n * (-lo)) by (nonlinear_arith)
            requires
                n * lo <= a,
        ;
        lemma_div_is_ordered(-a, n * (-lo), n);
        lemma_div_multiples_vanish(-lo, n);
        lemma_div_pos_is_pos(-a, n);
    }
}

/// The mean of readings is itself a reading.
pub proof fn lemma_mean_fits(s: Seq<i64>)
    ensures
        i64::MIN <= mean_of(s) <= i64::MAX,
{
    if s.len() > 0 {
        lemma_sum_bounds(s);
        lemma_quot_bounds(sum_of(s), s.len() as int, i64::MIN as int, i64::MAX as int);
    }
}

/// Mean of the readings, rounded toward zero; zero for an empty list, so that
/// no aggregate ever divides by a count of zero.
pub fn mean(values: &Vec<i64>) -> (r: i64)
    ensures
        r == mean_of(values@),
{
    let n = values.len();
    if n == 0 {
        return 0;
    }
    let mut total: i128 = 0;
    let mut i: usize = 0;
    while i < n
        invariant
            n == values@.len(),
            i <= n,
            total == sum_of(values@.subrange(0, i as int)),
            i * (i64::MIN as int) <= total <= i * (i64::MAX as int),
        decreases n - i,
    {
        let ghost prefix = values@.subrange(0, i as int);
        let ghost next = values@.subrange(0, i as int + 1);
        assert(next.drop_last() =~= prefix);
        proof {
            let k = i as int;
            assert((k + 1) * (i64::MIN as int) == k * (i64::MIN as int) + (i64::MIN as int))
                by (nonlinear_arith);
            assert((k + 1) * (i64::MAX as int) == k * (i64::MAX as int) + (i64::MAX as int))
                by (nonlinear_arith);
            assert(k + 1 <= usize::MAX);
            assert((k + 1) * (i64::MAX as int) <= (usize::MAX as int) * (i64::MAX as int))
                by (nonlinear_arith)
                requires
                    k + 1 <= usize::MAX,
            ;
            assert((k + 1) * (i64::MIN as int) >= (usize::MAX as int) * (i64::MIN as int))
                by (nonlinear_arith)
                requires
                    k + 1 <= usize::MAX,
            ;
        }
        total = total + values[i] as i128;
        i = i + 1;
    }
    assert(values@.subrange(0, n as int) =~= values@);
    proof {
        lemma_mean_fits(values@);
    }
    let count = n as i128;
    let q: i128 = if total >= 0 {
        total / count
    } else {
        -((-total) / count)
    };
    q as i64
}


/// `a + b`, held to the range of a reading.
pub open spec fn clamp_add(a: i64, b: i64) -> i64 {
    let s = a + b;
    if s > i64::MAX {
        i64::MAX
    } else if s < i64::MIN {
        i64::MIN
    } else {
        s as i64
    }
}

/// Adds two readings, saturating at the bounds of `i64`.
pub fn add_clamped(a: i64, b: i64) -> (r: i64)
    ensures
        r == clamp_add(a, b),
{
    let s = a as i128 + b as i128;
    if s > i64::MAX as i128 {
        i64::MAX
    } else if s < i64::MIN as i128 {
        i64::MIN
    } else {
        s as i64
    }
}

} // verus!
