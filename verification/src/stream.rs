//! Merging a chunk of inverter samples for the live event stream: the battery
//! charging power of the chunk is the rounded mean of its samples.
use vstd::prelude::*;

verus! {

/// The sum of a run of samples.
pub open spec fn sum_i16(s: Seq<i16>) -> int
    decreases s.len(),
{
    if s.len() == 0 {
        0
    } else {
        sum_i16(s.drop_last()) + s.last()
    }
}

/// `num / den` rounded to the nearest integer, halves away from zero.
pub open spec fn round_half_away(num: int, den: int) -> int
    recommends
        den > 0,
{
    if num >= 0 {
        (2 * num + den) / (2 * den)
    } else {
        -((-2 * num + den) / (2 * den))
    }
}

/// Rounding picks the nearest integer to `num / den`, and of two equally near
/// ones the one farther from zero.
pub proof fn lemma_round_half_away_nearest(num: int, den: int)
    requires
        den > 0,
    ensures
        -den <= 2 * den * round_half_away(num, den) - 2 * num <= den,
        2 * den * round_half_away(num, den) - 2 * num == den ==> num >= 0,
        2 * den * round_half_away(num, den) - 2 * num == -den ==> num < 0,
{
    let r = round_half_away(num, den);
    if num >= 0 {
        let q = (2 * num + den) / (2 * den);
        assert(q * (2 * den) <= 2 * num + den < (q + 1) * (2 * den)) by (nonlinear_arith)
            requires
                den > 0,
                q == (2 * num + den) / (2 * den),
        ;
        assert(-den < 2 * den * q - 2 * num <= den) by (nonlinear_arith)
            requires
                q * (2 * den) <= 2 * num + den < (q + 1) * (2 * den),
        ;
        assert(r == q);
        assert(-den < 2 * den * r - 2 * num <= den);
    } else {
        let q = (-2 * num + den) / (2 * den);
        assert(q * (2 * den) <= -2 * num + den < (q + 1) * (2 * den)) by (nonlinear_arith)
            requires
                den > 0,
                q == (-2 * num + den) / (2 * den),
        ;
        assert(-den <= 2 * den * (-q) - 2 * num < den) by (nonlinear_arith)
            requires
                q * (2 * den) <= -2 * num + den < (q + 1) * (2 * den),
        ;
        assert(r == -q);
        assert(-den <= 2 * den * r - 2 * num < den);
    }
}

/// The sum of `n` samples that all lie in `[lo, hi]` lies in `[n * lo, n * hi]`.
proof fn lemma_sum_within(s: Seq<i16>, lo: int, hi: int)
    requires
        forall|i: int| 0 <= i < s.len() ==> lo <= #[trigger] s[i] <= hi,
    ensures
        s.len() * lo <= sum_i16(s) <= s.len() * hi,
    decreases s.len(),
{
    if s.len() > 0 {
        let t = s.drop_last();
        assert forall|i: int| 0 <= i < t.len() implies lo <= #[trigger] t[i] <= hi by {
            assert(t[i] == s[i]);
        }
        lemma_sum_within(t, lo, hi);
        assert(s.len() * lo == t.len() * lo + lo) by (nonlinear_arith)
            requires
                s.len() == t.len() + 1,
        ;
        assert(s.len() * hi == t.len() * hi + hi) by (nonlinear_arith)
            requires
                s.len() == t.len() + 1,
        ;
    }
}

/// Rounding a quotient that lies in `[lo, hi]` keeps it there.
proof fn lemma_round_within(num: int, den: int, lo: int, hi: int)
    requires
        den > 0,
        den * lo <= num <= den * hi,
    ensures
        lo <= round_half_away(num, den) <= hi,
{
    if num >= 0 {
        let q = (2 * num + den) / (2 * den);
        assert(q * (2 * den) <= 2 * num + den < (q + 1) * (2 * den)) by (nonlinear_arith)
            requires
                den > 0,
                q == (2 * num + den) / (2 * den),
        ;
        assert(lo <= q <= hi) by (nonlinear_arith)
            requires
                den > 0,
                den * lo <= num <= den * hi,
                q * (2 * den) <= 2 * num + den < (q + 1) * (2 * den),
        ;
    } else {
        let q = (-2 * num + den) / (2 * den);
        assert(q * (2 * den) <= -2 * num + den < (q + 1) * (2 * den)) by (nonlinear_arith)
            requires
                den > 0,
                q == (-2 * num + den) / (2 * den),
        ;
        assert(lo <= -q <= hi) by (nonlinear_arith)
            requires
                den > 0,
                den * lo <= num <= den * hi,
                num < 0,
                q * (2 * den) <= -2 * num + den < (q + 1) * (2 * den),
        ;
    }
}

/// The merged charging power of a chunk lies between the smallest and the
/// largest charging power in it; in particular a chunk of one sample keeps that
/// sample's value.
pub proof fn lemma_mean_within(s: Seq<i16>, lo: int, hi: int)
    requires
        s.len() > 0,
        forall|i: int| 0 <= i < s.len() ==> lo <= #[trigger] s[i] <= hi,
    ensures
        lo <= round_half_away(sum_i16(s), s.len() as int) <= hi,
        s.len() == 1 ==> round_half_away(sum_i16(s), 1) == s[0],
{
    lemma_sum_within(s, lo, hi);
    lemma_round_within(sum_i16(s), s.len() as int, lo, hi);
    if s.len() == 1 {
        assert(s.drop_last().len() == 0);
        assert(sum_i16(s.drop_last()) == 0);
        assert(s.last() == s[0]);
        assert(sum_i16(s) == s[0] as int);
        lemma_round_within(sum_i16(s), 1, s[0] as int, s[0] as int);
    }
}

/// The battery charging power that a chunk of samples is merged into: the mean
/// of the chunk, rounded to the nearest watt, halves away from zero.
pub fn mean_battery_charge_power(values: &Vec<i16>) -> (r: i16)
    requires
        values.len() > 0,
    ensures
        r as int == round_half_away(sum_i16(values@), values.len() as int),
{
    let n = values.len();
    let mut sum: i128 = 0;
    let mut i: usize = 0;
    while i < n
        invariant
            n == values.len(),
            i <= n,
            sum == sum_i16(values@.take(i as int)),
            -0x8000 * i <= sum <= 0x7FFF * i,
        decreases n - i,
    {
        proof {
            assert(values@.take(i + 1).drop_last() =~= values@.take(i as int));
        }
        sum = sum + values[i] as i128;
        i = i + 1;
    }
    proof {
        assert(values@.take(n as int) =~= values@);
        assert forall|k: int| 0 <= k < values@.len() implies -0x8000 <= #[trigger] values@[k]
            <= 0x7FFF by {}
        lemma_mean_within(values@, -0x8000, 0x7FFF);
    }
    let den: i128 = n as i128;
    let q: i128 = if sum >= 0 {
        (2 * sum + den) / (2 * den)
    } else {
        -((-2 * sum + den) / (2 * den))
    };
    q as i16
}

} // verus!
