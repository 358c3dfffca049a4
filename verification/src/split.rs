//! Proportional payouts: a total split among recipients by weight, every
//! recipient but the last getting its share rounded toward zero and the last
//! getting whatever is left, so that the payouts always add up to the total.
use vstd::prelude::*;
use crate::address::Address;
use crate::nft::admin::lemma_weight_sum_monotone;
use crate::effects::{
    Transfer, TransferView, make_transfer, transfers_view, pay_if_positive, div_trunc, fits_i128,
    total_paid_by, lemma_total_paid_by_concat, lemma_pay_if_positive_total,
};

verus! {

/// The share of `total` for `weight` out of `denom`, rounded toward zero.
pub open spec fn pro_rata(total: int, weight: int, denom: int) -> int {
    div_trunc(total * weight, denom)
}

/// The sum of the shares of the first `k` weights.
pub open spec fn shares_before(total: int, weights: Seq<u32>, denom: int, k: int) -> int
    decreases k,
{
    if k <= 0 {
        0
    } else {
        shares_before(total, weights, denom, k - 1) + pro_rata(total, weights[k - 1] as int, denom)
    }
}

/// The payouts of `total` by `weights`: each but the last its share, the
/// last the rest.
pub open spec fn payouts(total: int, weights: Seq<u32>, denom: int) -> Seq<int> {
    Seq::new(
        weights.len(),
        |i: int|
            if i < weights.len() - 1 {
                pro_rata(total, weights[i] as int, denom)
            } else {
                total - shares_before(total, weights, denom, weights.len() - 1)
            },
    )
}

/// Whether working out the payouts in 128-bit arithmetic overflows: a
/// weighted total, or the running sum of the shares paid so far.
pub open spec fn payouts_overflow(total: int, weights: Seq<u32>, denom: int) -> bool {
    exists|i: int| #[trigger] overflows_at(total, weights, denom, i)
}

/// Whether the share of recipient `i` (not the last), or the running sum
/// through it, falls outside the 128-bit range.
pub open spec fn overflows_at(total: int, weights: Seq<u32>, denom: int, i: int) -> bool {
    &&& 0 <= i < weights.len() - 1
    &&& !fits_i128(total * weights[i]) || !fits_i128(shares_before(total, weights, denom, i + 1))
}

pub open spec fn amounts_view(v: Seq<i128>) -> Seq<int> {
    v.map_values(|a: i128| a as int)
}

pub open spec fn addresses_view(v: Seq<Address>) -> Seq<Seq<char>> {
    v.map_values(|a: Address| a@)
}

/// The transfers that pay each positive payout to its recipient, in order.
pub open spec fn payout_transfers(
    token: Seq<char>,
    from: Seq<char>,
    recipients: Seq<Seq<char>>,
    amounts: Seq<int>,
) -> Seq<TransferView>
    decreases amounts.len(),
{
    if amounts.len() == 0 {
        Seq::empty()
    } else {
        payout_transfers(token, from, recipients.drop_last(), amounts.drop_last()) + pay_if_positive(
            token,
            from,
            recipients[amounts.len() - 1],
            amounts.last(),
        )
    }
}

pub open spec fn sum_ints(s: Seq<int>) -> int
    decreases s.len(),
{
    if s.len() == 0 {
        0
    } else {
        sum_ints(s.drop_last()) + s.last()
    }
}

pub open spec fn weight_sum(weights: Seq<u32>, k: int) -> int
    decreases k,
{
    if k <= 0 {
        0
    } else {
        weight_sum(weights, k - 1) + weights[k - 1]
    }
}

/// A share has the sign of the total.
proof fn lemma_pro_rata_sign(total: int, weight: int, denom: int)
    requires
        weight >= 0,
        denom > 0,
    ensures
        total >= 0 ==> pro_rata(total, weight, denom) >= 0,
        total < 0 ==> pro_rata(total, weight, denom) <= 0,
{
    if total >= 0 {
        assert(total * weight >= 0) by (nonlinear_arith)
            requires
                total >= 0,
                weight >= 0,
        ;
        assert((total * weight) / denom >= 0) by (nonlinear_arith)
            requires
                total * weight >= 0,
                denom > 0,
        ;
    } else {
        assert(total * weight <= 0) by (nonlinear_arith)
            requires
                total < 0,
                weight >= 0,
        ;
        assert((-(total * weight)) / denom >= 0) by (nonlinear_arith)
            requires
                total * weight <= 0,
                denom > 0,
        ;
    }
}

/// A share is at most the weighted total over the denominator: `denom`
/// times the share never exceeds `total * weight` when the total is not
/// negative.
proof fn lemma_pro_rata_floor(total: int, weight: int, denom: int)
    requires
        total >= 0,
        weight >= 0,
        denom > 0,
    ensures
        denom * pro_rata(total, weight, denom) <= total * weight,
{
    assert(total * weight >= 0) by (nonlinear_arith)
        requires
            total >= 0,
            weight >= 0,
    ;
    let x = total * weight;
    assert(denom * (x / denom) <= x) by (nonlinear_arith)
        requires
            x >= 0,
            denom > 0,
    ;
}

/// The shares paid so far have the sign of the total.
proof fn lemma_shares_before_sign(total: int, weights: Seq<u32>, denom: int, k: int)
    requires
        denom > 0,
        0 <= k <= weights.len(),
    ensures
        total >= 0 ==> shares_before(total, weights, denom, k) >= 0,
        total < 0 ==> shares_before(total, weights, denom, k) <= 0,
    decreases k,
{
    if k > 0 {
        lemma_shares_before_sign(total, weights, denom, k - 1);
        lemma_pro_rata_sign(total, weights[k - 1] as int, denom);
    }
}

/// `denom` times the shares paid so far is at most the total times the
/// weights paid so far.
proof fn lemma_shares_before_bound(total: int, weights: Seq<u32>, denom: int, k: int)
    requires
        total >= 0,
        denom > 0,
        0 <= k <= weights.len(),
    ensures
        denom * shares_before(total, weights, denom, k) <= total * weight_sum(weights, k),
    decreases k,
{
    if k > 0 {
        lemma_shares_before_bound(total, weights, denom, k - 1);
        lemma_pro_rata_floor(total, weights[k - 1] as int, denom);
        let a = shares_before(total, weights, denom, k - 1);
        let b = pro_rata(total, weights[k - 1] as int, denom);
        let ws = weight_sum(weights, k - 1);
        let w = weights[k - 1] as int;
        assert(denom * (a + b) == denom * a + denom * b) by (nonlinear_arith);
        assert(total * (ws + w) == total * ws + total * w) by (nonlinear_arith);
    }
}

/// The payouts always add up to the total.
pub proof fn lemma_payouts_sum(total: int, weights: Seq<u32>, denom: int)
    requires
        weights.len() >= 1,
    ensures
        sum_ints(payouts(total, weights, denom)) == total,
{
    let p = payouts(total, weights, denom);
    let n = weights.len() as int;
    lemma_payouts_prefix_sum(total, weights, denom, n - 1);
    assert(p.drop_last() =~= p.take(n - 1));
}

proof fn lemma_payouts_prefix_sum(total: int, weights: Seq<u32>, denom: int, k: int)
    requires
        0 <= k <= weights.len() - 1,
    ensures
        sum_ints(payouts(total, weights, denom).take(k)) == shares_before(total, weights, denom, k),
    decreases k,
{
    let p = payouts(total, weights, denom);
    if k > 0 {
        lemma_payouts_prefix_sum(total, weights, denom, k - 1);
        assert(p.take(k).drop_last() =~= p.take(k - 1));
    } else {
        assert(p.take(0) =~= Seq::<int>::empty());
    }
}

/// When the total is not negative and the weights of all but the last
/// recipient add up to at most the denominator, no payout is negative.
pub proof fn lemma_payouts_nonnegative(total: int, weights: Seq<u32>, denom: int)
    requires
        total >= 0,
        denom > 0,
        weights.len() >= 1,
        weight_sum(weights, weights.len() - 1) <= denom,
    ensures
        forall|i: int| 0 <= i < weights.len() ==> #[trigger] payouts(total, weights, denom)[i] >= 0,
{
    let n = weights.len() as int;
    lemma_shares_before_bound(total, weights, denom, n - 1);
    let s = shares_before(total, weights, denom, n - 1);
    let ws = weight_sum(weights, n - 1);
    assert(total * ws <= total * denom) by (nonlinear_arith)
        requires
            total >= 0,
            ws <= denom,
    ;
    assert(s <= total) by (nonlinear_arith)
        requires
            denom * s <= total * denom,
            denom > 0,
    ;
    assert forall|i: int| 0 <= i < n implies #[trigger] payouts(total, weights, denom)[i] >= 0 by {
        if i < n - 1 {
            lemma_pro_rata_sign(total, weights[i] as int, denom);
        }
    }
}

/// Paying out amounts none of which is negative moves their sum out of the
/// payer.
pub proof fn lemma_payout_transfers_total(
    token: Seq<char>,
    from: Seq<char>,
    recipients: Seq<Seq<char>>,
    amounts: Seq<int>,
)
    requires
        forall|i: int| 0 <= i < amounts.len() ==> #[trigger] amounts[i] >= 0,
    ensures
        total_paid_by(payout_transfers(token, from, recipients, amounts), from) == sum_ints(amounts),
    decreases amounts.len(),
{
    if amounts.len() > 0 {
        let n = amounts.len() as int;
        let rest = amounts.drop_last();
        assert forall|i: int| 0 <= i < rest.len() implies #[trigger] rest[i] >= 0 by {
            assert(rest[i] == amounts[i]);
        }
        lemma_payout_transfers_total(token, from, recipients.drop_last(), rest);
        lemma_total_paid_by_concat(
            payout_transfers(token, from, recipients.drop_last(), rest),
            pay_if_positive(token, from, recipients[n - 1], amounts.last()),
            from,
        );
        lemma_pay_if_positive_total(token, from, recipients[n - 1], amounts.last());
    }
}

/// Every payout transfer is sent by the payer.
pub proof fn lemma_payout_transfers_from(
    token: Seq<char>,
    from: Seq<char>,
    recipients: Seq<Seq<char>>,
    amounts: Seq<int>,
)
    ensures
        forall|i: int|
            0 <= i < payout_transfers(token, from, recipients, amounts).len() ==> (#[trigger] payout_transfers(
                token,
                from,
                recipients,
                amounts,
            )[i]).from == from,
    decreases amounts.len(),
{
    if amounts.len() > 0 {
        let prev = payout_transfers(token, from, recipients.drop_last(), amounts.drop_last());
        let last = pay_if_positive(token, from, recipients[amounts.len() - 1], amounts.last());
        lemma_payout_transfers_from(token, from, recipients.drop_last(), amounts.drop_last());
        let all = payout_transfers(token, from, recipients, amounts);
        assert(all == prev + last);
        assert forall|i: int| 0 <= i < all.len() implies (#[trigger] all[i]).from == from by {
            if i < prev.len() {
                assert(all[i] == prev[i]);
            } else {
                assert(all[i] == last[i - prev.len()]);
            }
        }
    }
}

/// Splitting nothing gives every recipient nothing so far.
proof fn lemma_shares_before_zero(weights: Seq<u32>, denom: int, k: int)
    requires
        denom > 0,
    ensures
        shares_before(0, weights, denom, k) == 0,
    decreases k,
{
    if k > 0 {
        lemma_shares_before_zero(weights, denom, k - 1);
        let w = weights[k - 1] as int;
        assert(0 * w == 0);
        assert(0int / denom == 0) by (nonlinear_arith)
            requires
                denom > 0,
        ;
    }
}

/// Paying out amounts that are all zero makes no transfer.
proof fn lemma_payout_transfers_of_zeros(
    token: Seq<char>,
    from: Seq<char>,
    recipients: Seq<Seq<char>>,
    amounts: Seq<int>,
)
    requires
        forall|i: int| 0 <= i < amounts.len() ==> #[trigger] amounts[i] == 0,
    ensures
        payout_transfers(token, from, recipients, amounts) == Seq::<TransferView>::empty(),
    decreases amounts.len(),
{
    if amounts.len() > 0 {
        let rest = amounts.drop_last();
        assert forall|i: int| 0 <= i < rest.len() implies #[trigger] rest[i] == 0 by {
            assert(rest[i] == amounts[i]);
        }
        lemma_payout_transfers_of_zeros(token, from, recipients.drop_last(), rest);
        assert(amounts.last() == amounts[amounts.len() - 1]);
    }
}

/// Splitting a total of zero never overflows and pays no one.
pub proof fn lemma_split_nothing(
    token: Seq<char>,
    from: Seq<char>,
    recipients: Seq<Seq<char>>,
    weights: Seq<u32>,
    denom: int,
)
    requires
        denom > 0,
    ensures
        !payouts_overflow(0, weights, denom),
        payout_transfers(token, from, recipients, payouts(0, weights, denom)) == Seq::<TransferView>::empty(),
{
    let p = payouts(0, weights, denom);
    assert forall|i: int| !#[trigger] overflows_at(0, weights, denom, i) by {
        lemma_shares_before_zero(weights, denom, i + 1);
        if 0 <= i < weights.len() {
            assert(0 * weights[i] == 0);
        }
    }
    assert forall|i: int| 0 <= i < p.len() implies #[trigger] p[i] == 0 by {
        lemma_shares_before_zero(weights, denom, i);
        lemma_shares_before_zero(weights, denom, weights.len() - 1);
        let w = weights[i] as int;
        assert(0 * w == 0);
        assert(0int / denom == 0) by (nonlinear_arith)
            requires
                denom > 0,
        ;
    }
    lemma_payout_transfers_of_zeros(token, from, recipients, p);
}

/// Working out the payouts of a total that is not negative and fits in 128
/// bits never overflows when the weights add up to the denominator and every
/// weighted total fits in 128 bits: the shares paid so far never exceed the
/// total.
pub proof fn lemma_payouts_fit(total: int, weights: Seq<u32>, denom: int)
    requires
        total >= 0,
        fits_i128(total),
        denom > 0,
        weight_sum(weights, weights.len() as int) == denom,
        forall|i: int| 0 <= i < weights.len() ==> fits_i128(total * #[trigger] weights[i]),
    ensures
        !payouts_overflow(total, weights, denom),
{
    assert forall|i: int| !#[trigger] overflows_at(total, weights, denom, i) by {
        if 0 <= i < weights.len() - 1 {
            let k = i + 1;
            lemma_shares_before_bound(total, weights, denom, k);
            lemma_shares_before_sign(total, weights, denom, k);
            lemma_weight_sum_monotone(weights, k, weights.len() as int);
            let sb = shares_before(total, weights, denom, k);
            let ws = weight_sum(weights, k);
            assert(total * ws <= total * denom) by (nonlinear_arith)
                requires
                    total >= 0,
                    ws <= denom,
            ;
            assert(sb <= total) by (nonlinear_arith)
                requires
                    denom * sb <= total * denom,
                    denom > 0,
            ;
            assert(fits_i128(total * weights[i]));
        }
    }
}

/// Works out the payouts of `total` by `weights`, or `None` when the 128-bit
/// arithmetic overflows.
pub fn split_payouts(total: i128, weights: &Vec<u32>, denom: i128) -> (r: Option<Vec<i128>>)
    requires
        weights.len() >= 2 ==> denom > 0,
    ensures
        (r is None) == payouts_overflow(total as int, weights@, denom as int),
        r matches Some(v) ==> amounts_view(v@) == payouts(total as int, weights@, denom as int),
{
    let n = weights.len();
    let mut out: Vec<i128> = Vec::new();
    if n == 0 {
        assert(amounts_view(out@) =~= payouts(total as int, weights@, denom as int));
        return Some(out);
    }
    let mut paid: i128 = 0;
    let mut i: usize = 0;
    while i < n - 1
        invariant
            n == weights.len(),
            n >= 1,
            n >= 2 ==> denom > 0,
            0 <= i <= n - 1,
            out.len() == i,
            paid as int == shares_before(total as int, weights@, denom as int, i as int),
            forall|j: int|
                0 <= j < i ==> #[trigger] out@[j] as int == pro_rata(
                    total as int,
                    weights@[j] as int,
                    denom as int,
                ),
            forall|j: int| 0 <= j < i ==> fits_i128(total * #[trigger] weights@[j]),
            forall|j: int|
                0 <= j < i ==> fits_i128(
                    #[trigger] shares_before(total as int, weights@, denom as int, j + 1),
                ),
        decreases n - 1 - i,
    {
        let scaled = match total.checked_mul(weights[i] as i128) {
            Some(v) => v,
            None => {
                assert(overflows_at(total as int, weights@, denom as int, i as int));
                return None;
            },
        };
        let share = scaled / denom;
        paid = match paid.checked_add(share) {
            Some(v) => v,
            None => {
                assert(overflows_at(total as int, weights@, denom as int, i as int));
                return None;
            },
        };
        out.push(share);
        assert(fits_i128(total * weights@[i as int]));
        assert(fits_i128(shares_before(total as int, weights@, denom as int, i + 1)));
        i = i + 1;
    }
    proof {
        if denom > 0 {
            lemma_shares_before_sign(total as int, weights@, denom as int, (n - 1) as int);
        }
    }
    let last = total - paid;
    out.push(last);
    assert(!payouts_overflow(total as int, weights@, denom as int)) by {
        assert forall|j: int| !#[trigger] overflows_at(total as int, weights@, denom as int, j) by {
            if 0 <= j < weights.len() - 1 {
                assert(fits_i128(total * weights@[j]));
                assert(fits_i128(shares_before(total as int, weights@, denom as int, j + 1)));
            }
        }
    }
    assert(amounts_view(out@) =~= payouts(total as int, weights@, denom as int));
    Some(out)
}

/// Appends to `transfers` a transfer of each positive amount from `from` to
/// the recipient at the same position.
pub fn pay_out(
    token: &Address,
    from: &Address,
    recipients: &Vec<Address>,
    amounts: &Vec<i128>,
    transfers: &mut Vec<Transfer>,
)
    requires
        recipients.len() == amounts.len(),
    ensures
        transfers_view(final(transfers)@) == transfers_view(old(transfers)@) + payout_transfers(
            token@,
            from@,
            addresses_view(recipients@),
            amounts_view(amounts@),
        ),
{
    let ghost start = transfers_view(transfers@);
    let ghost rs = addresses_view(recipients@);
    let ghost amts = amounts_view(amounts@);
    let n = amounts.len();
    let mut i: usize = 0;
    assert(rs.take(0) =~= Seq::<Seq<char>>::empty());
    assert(amts.take(0) =~= Seq::<int>::empty());
    assert(transfers_view(transfers@) =~= start + payout_transfers(token@, from@, rs.take(0), amts.take(0)));
    while i < n
        invariant
            n == amounts.len(),
            n == recipients.len(),
            0 <= i <= n,
            rs == addresses_view(recipients@),
            amts == amounts_view(amounts@),
            transfers_view(transfers@) == start + payout_transfers(
                token@,
                from@,
                rs.take(i as int),
                amts.take(i as int),
            ),
        decreases n - i,
    {
        let ghost before = transfers_view(transfers@);
        if amounts[i] > 0 {
            transfers.push(make_transfer(token, from, &recipients[i], amounts[i]));
        }
        assert(rs.take(i + 1).drop_last() =~= rs.take(i as int));
        assert(amts.take(i + 1).drop_last() =~= amts.take(i as int));
        assert(transfers_view(transfers@) =~= before + pay_if_positive(
            token@,
            from@,
            rs[i as int],
            amts[i as int],
        ));
        i = i + 1;
    }
    assert(rs.take(n as int) =~= rs);
    assert(amts.take(n as int) =~= amts);
}

} // verus!
