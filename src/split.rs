use vstd::prelude::*;

use crate::error::ErrorCode;

verus! {

/// The denominator of a basis-point rate: 10000 basis points are 100%.
pub const BASIS_POINTS: u64 = 10000;

/// How the weights handed to `split` are to be read.
#[derive(Clone, Copy, Debug, PartialEq, Eq, Structural)]
pub enum Weighting {
    /// Fixed basis-point shares: their sum may not pass the denominator.
    FixedBps,
    /// Raw amounts (contributions) read against a denominator of the
    /// caller's choosing.
    Proportional,
}

/// `floor(total * weight / denominator)`.
pub open spec fn portion(total: int, weight: int, denominator: int) -> int {
    total * weight / denominator
}

/// The sum of a sequence of amounts.
pub open spec fn sum_of(s: Seq<u64>) -> int
    decreases s.len(),
{
    if s.len() == 0 {
        0
    } else {
        sum_of(s.drop_last()) + s.last()
    }
}

/// What `split` returns: the portion of `total` owed to each weight, in the
/// order of the weights.
pub open spec fn split_result(total: u64, weights: Seq<u64>, denominator: u64, mode: Weighting) -> Result<
    Seq<u64>,
    ErrorCode,
> {
    if mode == Weighting::FixedBps && sum_of(weights) > denominator {
        Err(ErrorCode::InvalidWeights)
    } else if exists|i: int| 0 <= i < weights.len() && total * weights[i] > u64::MAX {
        Err(ErrorCode::ArithmeticOverflow)
    } else {
        Ok(portions(total, weights, denominator))
    }
}

/// The portion of `total` owed to each weight.
pub open spec fn portions(total: u64, weights: Seq<u64>, denominator: u64) -> Seq<u64> {
    Seq::new(weights.len(), |i: int| portion(total as int, weights[i] as int, denominator as int) as u64)
}

proof fn lemma_portions_bound(total: u64, weights: Seq<u64>, denominator: u64)
    requires
        denominator > 0,
        forall|i: int| 0 <= i < weights.len() ==> total * weights[i] <= u64::MAX,
    ensures
        sum_of(portions(total, weights, denominator)) * denominator <= total * sum_of(weights),
    decreases weights.len(),
{
    if weights.len() > 0 {
        let w2 = weights.drop_last();
        lemma_portions_bound(total, w2, denominator);
        let ps = portions(total, weights, denominator);
        assert(ps.drop_last() =~= portions(total, w2, denominator));
        let wl = weights.last() as int;
        let t = total as int;
        let d = denominator as int;
        let p = t * wl / d;
        assert(t * wl <= u64::MAX);
        assert(p * d <= t * wl && 0 <= p <= t * wl) by (nonlinear_arith)
            requires
                p == t * wl / d,
                d > 0,
                t >= 0,
                wl >= 0,
        ;
        assert(ps.last() == p);
        let a = sum_of(ps.drop_last());
        let b = sum_of(w2);
        assert(a * d <= t * b);
        assert((a + p) * d <= t * (b + wl)) by (nonlinear_arith)
            requires
                a * d <= t * b,
                p * d <= t * wl,
        ;
    }
}

proof fn lemma_portions_lower(total: u64, weights: Seq<u64>, denominator: u64)
    requires
        denominator > 0,
        forall|i: int| 0 <= i < weights.len() ==> total * weights[i] <= u64::MAX,
    ensures
        sum_of(portions(total, weights, denominator)) * denominator + weights.len() * denominator
            >= total * sum_of(weights) + weights.len(),
    decreases weights.len(),
{
    if weights.len() > 0 {
        let w2 = weights.drop_last();
        lemma_portions_lower(total, w2, denominator);
        let ps = portions(total, weights, denominator);
        assert(ps.drop_last() =~= portions(total, w2, denominator));
        let wl = weights.last() as int;
        let t = total as int;
        let d = denominator as int;
        let p = t * wl / d;
        assert(t * wl <= u64::MAX);
        assert(p * d + d >= t * wl + 1 && 0 <= p <= t * wl) by (nonlinear_arith)
            requires
                p == t * wl / d,
                d > 0,
                t >= 0,
                wl >= 0,
        ;
        assert(ps.last() == p);
        let a = sum_of(ps.drop_last());
        let b = sum_of(w2);
        let n = w2.len() as int;
        assert((a + p) * d + (n + 1) * d >= t * (b + wl) + (n + 1)) by (nonlinear_arith)
            requires
                a * d + n * d >= t * b + n,
                p * d + d >= t * wl + 1,
        ;
    }
}

/// Floor rounding leaves little behind: where the weights sum to exactly
/// the denominator, what the payer keeps is less than one unit per weight.
pub proof fn lemma_split_dust_below_count(total: u64, weights: Seq<u64>, denominator: u64, mode: Weighting)
    requires
        denominator > 0,
        sum_of(weights) == denominator,
        split_result(total, weights, denominator, mode) is Ok,
    ensures
        total - sum_of(split_result(total, weights, denominator, mode)->Ok_0) < weights.len(),
{
    lemma_portions_lower(total, weights, denominator);
    let a = sum_of(portions(total, weights, denominator));
    let n = weights.len() as int;
    let t = total as int;
    let d = denominator as int;
    assert(n > 0) by {
        if n == 0 {
            assert(sum_of(weights) == 0);
        }
    }
    assert(t - a < n) by (nonlinear_arith)
        requires
            a * d + n * d >= t * d + n,
            d > 0,
            n > 0,
    ;
}

/// Floor rounding never pays out more than there is: where the weights sum
/// to at most the denominator, the portions that `split` hands out sum to at
/// most `total`, and the rest stays with the payer.
pub proof fn lemma_split_within_total(total: u64, weights: Seq<u64>, denominator: u64, mode: Weighting)
    requires
        denominator > 0,
        sum_of(weights) <= denominator,
        split_result(total, weights, denominator, mode) is Ok,
    ensures
        sum_of(split_result(total, weights, denominator, mode)->Ok_0) <= total,
{
    lemma_portions_bound(total, weights, denominator);
    let a = sum_of(portions(total, weights, denominator));
    let b = sum_of(weights);
    let t = total as int;
    let d = denominator as int;
    assert(a <= t) by (nonlinear_arith)
        requires
            a * d <= t * b,
            b <= d,
            d > 0,
            t >= 0,
    ;
}

/// `floor(total * weight / denominator)`, multiplied before it is divided;
/// `ArithmeticOverflow` where the product does not fit in 64 bits.
pub fn portion_of(total: u64, weight: u64, denominator: u64) -> (r: Result<u64, ErrorCode>)
    requires
        denominator > 0,
    ensures
        total * weight <= u64::MAX ==> r == Ok::<u64, ErrorCode>(
            portion(total as int, weight as int, denominator as int) as u64,
        ),
        total * weight > u64::MAX ==> r == Err::<u64, ErrorCode>(ErrorCode::ArithmeticOverflow),
        r is Ok ==> r->Ok_0 as int == portion(total as int, weight as int, denominator as int),
{
    match total.checked_mul(weight) {
        Some(p) => {
            let q = p / denominator;
            proof {
                assert(q <= p) by (nonlinear_arith)
                    requires
                        q == p / denominator,
                        denominator > 0,
                ;
            }
            Ok(q)
        },
        None => Err(ErrorCode::ArithmeticOverflow),
    }
}

proof fn lemma_sum_prefix(s: Seq<u64>, i: int)
    requires
        0 <= i < s.len(),
    ensures
        sum_of(s.subrange(0, i + 1)) == sum_of(s.subrange(0, i)) + s[i],
{
    assert(s.subrange(0, i + 1).drop_last() =~= s.subrange(0, i));
}

proof fn lemma_sum_monotone(s: Seq<u64>, i: int, j: int)
    requires
        0 <= i <= j <= s.len(),
    ensures
        sum_of(s.subrange(0, i)) <= sum_of(s.subrange(0, j)),
    decreases j - i,
{
    if j > i {
        lemma_sum_monotone(s, i, j - 1);
        lemma_sum_prefix(s, j - 1);
    }
}

/// The sum of `v`, or `None` where it does not fit in 64 bits.
pub fn checked_sum(v: &Vec<u64>) -> (r: Option<u64>)
    ensures
        sum_of(v@) <= u64::MAX ==> r == Some(sum_of(v@) as u64),
        sum_of(v@) > u64::MAX ==> r is None,
        sum_of(v@) >= 0,
{
    let mut acc: u128 = 0;
    let mut i: usize = 0;
    assert(v@.subrange(0, 0) =~= Seq::<u64>::empty());
    while i < v.len()
        invariant
            i <= v.len(),
            acc == sum_of(v@.subrange(0, i as int)),
            acc <= u64::MAX,
        decreases v.len() - i,
    {
        proof {
            lemma_sum_prefix(v@, i as int);
        }
        acc = acc + v[i] as u128;
        i = i + 1;
        if acc > u64::MAX as u128 {
            proof {
                lemma_sum_monotone(v@, i as int, v@.len() as int);
                assert(v@.subrange(0, v@.len() as int) =~= v@);
            }
            return None;
        }
    }
    assert(v@.subrange(0, v@.len() as int) =~= v@);
    Some(acc as u64)
}

/// Replacing one amount changes the sum by the difference.
pub proof fn lemma_sum_update(s: Seq<u64>, i: int, v: u64)
    requires
        0 <= i < s.len(),
    ensures
        sum_of(s.update(i, v)) == sum_of(s) - s[i] + v,
    decreases s.len(),
{
    let u = s.update(i, v);
    if i == s.len() - 1 {
        assert(u.drop_last() =~= s.drop_last());
    } else {
        assert(u.drop_last() =~= s.drop_last().update(i, v));
        lemma_sum_update(s.drop_last(), i, v);
    }
}

/// Appending an amount adds it to the sum.
pub proof fn lemma_sum_push(s: Seq<u64>, v: u64)
    ensures
        sum_of(s.push(v)) == sum_of(s) + v,
{
    assert(s.push(v).drop_last() =~= s);
}

/// Whether the weights sum past `denominator`.
fn weights_exceed(weights: &Vec<u64>, denominator: u64) -> (r: bool)
    ensures
        r == (sum_of(weights@) > denominator),
{
    match checked_sum(weights) {
        Some(t) => t > denominator,
        None => true,
    }
}

/// Splits `total` by `weights` over `denominator`: each output is
/// `floor(total * weight / denominator)`. What floor rounding leaves over
/// is not handed to anyone; it stays with the payer.
pub fn split(total: u64, weights: &Vec<u64>, denominator: u64, mode: Weighting) -> (r: Result<
    Vec<u64>,
    ErrorCode,
>)
    requires
        denominator > 0,
    ensures
        match r {
            Ok(v) => split_result(total, weights@, denominator, mode) == Ok::<
                Seq<u64>,
                ErrorCode,
            >(v@),
            Err(e) => split_result(total, weights@, denominator, mode) == Err::<
                Seq<u64>,
                ErrorCode,
            >(e),
        },
{
    if mode == Weighting::FixedBps && weights_exceed(weights, denominator) {
        return Err(ErrorCode::InvalidWeights);
    }
    assert(!(mode == Weighting::FixedBps && sum_of(weights@) > denominator));
    let mut out: Vec<u64> = Vec::new();
    let mut i: usize = 0;
    while i < weights.len()
        invariant
            i <= weights.len(),
            out@.len() == i,
            denominator > 0,
            !(mode == Weighting::FixedBps && sum_of(weights@) > denominator),
            forall|j: int| 0 <= j < i ==> total * weights@[j] <= u64::MAX,
            forall|j: int|
                0 <= j < i ==> out@[j] == portion(total as int, weights@[j] as int, denominator as int) as u64,
        decreases weights.len() - i,
    {
        match portion_of(total, weights[i], denominator) {
            Ok(p) => {
                out.push(p);
            },
            Err(e) => {
                assert(total * weights@[i as int] > u64::MAX);
                return Err(e);
            },
        }
        i = i + 1;
    }
    assert(out@ =~= portions(total, weights@, denominator));
    Ok(out)
}

} // verus!
