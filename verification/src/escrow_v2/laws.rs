//! What holds of the royalty-split escrow across its entry points.
use vstd::prelude::*;
use crate::effects::{
    TransferView, fits_i128, transfer_view, pay_if_positive, total_paid_by, lemma_total_paid_by_concat,
    lemma_pay_if_positive_total, lemma_total_paid_by_single,
};
use crate::split::{
    payouts, payouts_overflow, sum_ints, weight_sum, lemma_payouts_sum,
    lemma_payouts_nonnegative, lemma_payout_transfers_total, lemma_split_nothing, lemma_payouts_fit,
    payout_transfers,
};
use crate::escrow_v2::errors::EscrowErrorV2;
use crate::escrow_v2::state::{
    BeneficiaryView, EscrowDataV2View, EscrowState, SettlementView, TOTAL_BPS, weights_of,
    recipients_of, with_state, escrow_v2_wf, bps_valid, has_invalid_share, beneficiaries_valid,
};
use crate::escrow_v2::lock::lock_spec;
use crate::escrow_v2::release::{release_spec, beneficiary_transfers};
use crate::escrow_v2::refund::refund_spec;
use crate::escrow_v2::dispute::{
    dispute_spec, resolve_dispute_spec, split_part, is_beneficiary, lemma_split_part_bounded,
};

verus! {

/// An order id can be locked only once.
pub proof fn lemma_order_id_used_once(
    now: u64,
    contract: Seq<char>,
    merchant: Seq<char>,
    arbiter: Seq<char>,
    usdc_token: Seq<char>,
    amount: i128,
    platform_fee: i128,
    beneficiaries: Seq<BeneficiaryView>,
    order_id: Seq<char>,
    expires_at: u64,
)
    ensures
        lock_spec(
            true,
            now,
            contract,
            merchant,
            arbiter,
            usdc_token,
            amount,
            platform_fee,
            beneficiaries,
            order_id,
            expires_at,
        ) == Err::<SettlementView, EscrowErrorV2>(EscrowErrorV2::AlreadyExists),
{
}

/// Every escrow that `lock` creates is well formed (one to eight
/// beneficiaries whose shares are valid and add up to the whole), locked,
/// and funded by one transfer of its whole amount from the merchant.
pub proof fn lemma_lock_creates_wf_escrow(
    taken: bool,
    now: u64,
    contract: Seq<char>,
    merchant: Seq<char>,
    arbiter: Seq<char>,
    usdc_token: Seq<char>,
    amount: i128,
    platform_fee: i128,
    beneficiaries: Seq<BeneficiaryView>,
    order_id: Seq<char>,
    expires_at: u64,
)
    ensures
        lock_spec(
            taken,
            now,
            contract,
            merchant,
            arbiter,
            usdc_token,
            amount,
            platform_fee,
            beneficiaries,
            order_id,
            expires_at,
        ) matches Ok(s) ==> {
            &&& escrow_v2_wf(s.escrow)
            &&& s.escrow.state == EscrowState::Locked
            &&& s.escrow.beneficiaries == beneficiaries
            &&& s.transfers == seq![transfer_view(usdc_token, merchant, contract, amount as int)]
            &&& total_paid_by(s.transfers, merchant) == amount
        },
{
    lemma_total_paid_by_single(transfer_view(usdc_token, merchant, contract, amount as int), merchant);
}

/// Each call moves an escrow along one edge of its life cycle and changes
/// nothing else in it, so a well formed escrow stays well formed.
pub proof fn lemma_life_cycle(
    e: EscrowDataV2View,
    caller: Seq<char>,
    now: u64,
    provider_bps: u32,
    contract: Seq<char>,
)
    ensures
        release_spec(Some(e), caller, contract) matches Ok(s) ==> e.state == EscrowState::Locked
            && s.escrow == with_state(e, EscrowState::Released),
        dispute_spec(Some(e), caller) matches Ok(s) ==> e.state == EscrowState::Locked && s.escrow
            == with_state(e, EscrowState::Disputed),
        resolve_dispute_spec(Some(e), caller, provider_bps, contract) matches Ok(s) ==> e.state
            == EscrowState::Disputed && s.escrow == with_state(e, EscrowState::Released),
        refund_spec(Some(e), now, contract) matches Ok(s) ==> e.state == EscrowState::Locked
            && s.escrow == with_state(e, EscrowState::Refunded),
        forall|st: EscrowState| escrow_v2_wf(e) ==> #[trigger] escrow_v2_wf(with_state(e, st)),
{
}

/// A released or refunded escrow is settled for good.
pub proof fn lemma_settled_escrow_is_final(
    e: EscrowDataV2View,
    caller: Seq<char>,
    now: u64,
    provider_bps: u32,
    contract: Seq<char>,
)
    requires
        e.state == EscrowState::Released || e.state == EscrowState::Refunded,
    ensures
        release_spec(Some(e), caller, contract) is Err,
        refund_spec(Some(e), now, contract) is Err,
        dispute_spec(Some(e), caller) is Err,
        resolve_dispute_spec(Some(e), caller, provider_bps, contract) is Err,
{
}

/// Only the parties can act: the arbiter or the merchant releases; the
/// merchant, the arbiter or a beneficiary disputes; the arbiter resolves;
/// and a refund needs the escrow to have expired.
pub proof fn lemma_only_parties_act(
    e: EscrowDataV2View,
    caller: Seq<char>,
    now: u64,
    provider_bps: u32,
    contract: Seq<char>,
)
    ensures
        release_spec(Some(e), caller, contract) is Ok ==> caller == e.arbiter || caller == e.merchant,
        dispute_spec(Some(e), caller) is Ok ==> caller == e.merchant || caller == e.arbiter
            || is_beneficiary(e.beneficiaries, caller),
        resolve_dispute_spec(Some(e), caller, provider_bps, contract) is Ok ==> caller == e.arbiter,
        refund_spec(Some(e), now, contract) is Ok ==> now >= e.expires_at,
{
}

/// The parties can always act when the escrow is in the right state: the
/// arbiter or the merchant can release a locked escrow (when the arithmetic
/// stays within 128 bits), the merchant, the arbiter or any beneficiary can
/// dispute it, and anyone can refund it once it has expired.
pub proof fn lemma_parties_can_act(e: EscrowDataV2View, caller: Seq<char>, now: u64, contract: Seq<char>)
    ensures
        e.state == EscrowState::Locked && (caller == e.arbiter || caller == e.merchant) && !payouts_overflow(
            e.net_amount as int,
            weights_of(e.beneficiaries),
            TOTAL_BPS as int,
        ) ==> release_spec(Some(e), caller, contract) is Ok,
        e.state == EscrowState::Locked && (caller == e.merchant || caller == e.arbiter || is_beneficiary(
            e.beneficiaries,
            caller,
        )) ==> dispute_spec(Some(e), caller) is Ok,
        e.state == EscrowState::Locked && now >= e.expires_at ==> refund_spec(Some(e), now, contract) is Ok,
{
}

/// Paying `total` to the beneficiaries of a well formed escrow: no payout is
/// negative, every beneficiary but the last gets its share of `total`
/// rounded down, the last gets the rest, and all of `total` leaves the
/// contract.
pub proof fn lemma_beneficiaries_get_total(e: EscrowDataV2View, contract: Seq<char>, total: int)
    requires
        escrow_v2_wf(e),
        total >= 0,
    ensures
        ({
            let p = payouts(total, weights_of(e.beneficiaries), TOTAL_BPS as int);
            &&& p.len() == e.beneficiaries.len()
            &&& forall|i: int| 0 <= i < p.len() ==> #[trigger] p[i] >= 0
            &&& forall|i: int|
                0 <= i < p.len() - 1 ==> #[trigger] p[i] == (total * e.beneficiaries[i].percent_bps)
                    / (TOTAL_BPS as int)
            &&& sum_ints(p) == total
        }),
        total_paid_by(beneficiary_transfers(e, contract, total), contract) == total,
{
    let w = weights_of(e.beneficiaries);
    let n = w.len() as int;
    assert(weight_sum(w, n) == weight_sum(w, n - 1) + w[n - 1]);
    lemma_payouts_nonnegative(total, w, TOTAL_BPS as int);
    lemma_payouts_sum(total, w, TOTAL_BPS as int);
    let p = payouts(total, w, TOTAL_BPS as int);
    assert forall|i: int| 0 <= i < p.len() - 1 implies #[trigger] p[i] == (total
        * e.beneficiaries[i].percent_bps) / (TOTAL_BPS as int) by {
        assert(w[i] == e.beneficiaries[i].percent_bps);
        assert(total * w[i] >= 0) by (nonlinear_arith)
            requires
                total >= 0,
                w[i] >= 0,
        ;
    }
    lemma_payout_transfers_total(e.usdc_token, contract, recipients_of(e.beneficiaries), p);
}

/// Releasing a well formed escrow pays out of the contract exactly the
/// amount that was locked: the fee to the arbiter and the net amount to the
/// beneficiaries.
pub proof fn lemma_release_pays_out_locked_amount(e: EscrowDataV2View, caller: Seq<char>, contract: Seq<char>)
    requires
        escrow_v2_wf(e),
    ensures
        release_spec(Some(e), caller, contract) matches Ok(s) ==> total_paid_by(s.transfers, contract)
            == e.amount,
{
    if release_spec(Some(e), caller, contract) is Ok {
        let fee = pay_if_positive(e.usdc_token, contract, e.arbiter, e.platform_fee as int);
        let rest = beneficiary_transfers(e, contract, e.net_amount as int);
        lemma_total_paid_by_concat(fee, rest, contract);
        lemma_pay_if_positive_total(e.usdc_token, contract, e.arbiter, e.platform_fee as int);
        lemma_beneficiaries_get_total(e, contract, e.net_amount as int);
    }
}

/// Resolving a dispute over a well formed escrow pays out of the contract
/// exactly the amount that was locked: the fee to the arbiter, the part not
/// allotted back to the merchant, and the allotted part to the
/// beneficiaries.
pub proof fn lemma_resolve_pays_out_locked_amount(
    e: EscrowDataV2View,
    caller: Seq<char>,
    provider_bps: u32,
    contract: Seq<char>,
)
    requires
        escrow_v2_wf(e),
    ensures
        resolve_dispute_spec(Some(e), caller, provider_bps, contract) matches Ok(s) ==> {
            let to_split = split_part(e.net_amount as int, provider_bps as int);
            &&& 0 <= to_split <= e.net_amount
            &&& total_paid_by(s.transfers, contract) == e.amount
        },
{
    if resolve_dispute_spec(Some(e), caller, provider_bps, contract) is Ok {
        let to_split = split_part(e.net_amount as int, provider_bps as int);
        lemma_split_part_bounded(e.net_amount as int, provider_bps as int);
        let fee = pay_if_positive(e.usdc_token, contract, e.arbiter, e.platform_fee as int);
        let back = pay_if_positive(e.usdc_token, contract, e.merchant, e.net_amount - to_split);
        let rest = beneficiary_transfers(e, contract, to_split);
        lemma_total_paid_by_concat(fee, back, contract);
        lemma_total_paid_by_concat(fee + back, rest, contract);
        lemma_pay_if_positive_total(e.usdc_token, contract, e.arbiter, e.platform_fee as int);
        lemma_pay_if_positive_total(e.usdc_token, contract, e.merchant, e.net_amount - to_split);
        lemma_beneficiaries_get_total(e, contract, to_split);
    }
}

/// Once a locked escrow is disputed, the arbiter's ruling brackets a plain
/// release. Allotting the whole net amount to the beneficiaries (10000 bps)
/// succeeds exactly when releasing the escrow would, and then plans the very
/// same transfers, nothing going back to the merchant; this needs the net
/// amount times 10000 to fit in 128 bits, as the ruling computes that
/// product. Allotting nothing (0 bps) always succeeds, pays the fee to the
/// arbiter and the whole net amount back to the merchant, and pays no
/// beneficiary.
pub proof fn lemma_resolve_brackets_release(e: EscrowDataV2View, contract: Seq<char>)
    requires
        e.state == EscrowState::Locked,
    ensures
        dispute_spec(Some(e), e.merchant) == Ok::<SettlementView, EscrowErrorV2>(
            SettlementView { escrow: with_state(e, EscrowState::Disputed), transfers: Seq::empty() },
        ),
        fits_i128(e.net_amount * TOTAL_BPS) ==> {
            let full = resolve_dispute_spec(
                Some(with_state(e, EscrowState::Disputed)),
                e.arbiter,
                TOTAL_BPS,
                contract,
            );
            let released = release_spec(Some(e), e.arbiter, contract);
            &&& split_part(e.net_amount as int, TOTAL_BPS as int) == e.net_amount
            &&& (full is Ok <==> released is Ok)
            &&& full is Ok ==> full == released
        },
        beneficiary_transfers(e, contract, 0) == Seq::<TransferView>::empty(),
        resolve_dispute_spec(Some(with_state(e, EscrowState::Disputed)), e.arbiter, 0, contract)
            == Ok::<SettlementView, EscrowErrorV2>(
            SettlementView {
                escrow: with_state(e, EscrowState::Released),
                transfers: pay_if_positive(e.usdc_token, contract, e.arbiter, e.platform_fee as int)
                    + pay_if_positive(e.usdc_token, contract, e.merchant, e.net_amount as int),
            },
        ),
{
    let net = e.net_amount as int;
    let d = with_state(e, EscrowState::Disputed);
    // Whole allotment: the part to split is the net amount itself.
    if net >= 0 {
        assert((net * 10000) / 10000 == net) by (nonlinear_arith);
    } else {
        assert((-(net * 10000)) / 10000 == -net) by (nonlinear_arith)
            requires
                net < 0,
        ;
    }
    assert(split_part(net, TOTAL_BPS as int) == net);
    assert(beneficiary_transfers(d, contract, net) == beneficiary_transfers(e, contract, net));
    assert(pay_if_positive(e.usdc_token, contract, e.merchant, net - net) =~= Seq::<TransferView>::empty());
    // No allotment: nothing is split, so nothing overflows or goes to a beneficiary.
    assert(net * 0 == 0);
    assert(split_part(net, 0) == 0);
    lemma_split_nothing(
        e.usdc_token,
        contract,
        recipients_of(e.beneficiaries),
        weights_of(e.beneficiaries),
        TOTAL_BPS as int,
    );
    assert(beneficiary_transfers(d, contract, 0) == beneficiary_transfers(e, contract, 0));
    assert(fits_i128(net * 0));
}

/// Refunding an escrow pays its whole amount back to the merchant.
pub proof fn lemma_refund_returns_amount(e: EscrowDataV2View, now: u64, contract: Seq<char>)
    ensures
        refund_spec(Some(e), now, contract) matches Ok(s) ==> {
            &&& s.transfers == seq![transfer_view(e.usdc_token, contract, e.merchant, e.amount as int)]
            &&& total_paid_by(s.transfers, contract) == e.amount
        },
{
    lemma_total_paid_by_single(transfer_view(e.usdc_token, contract, e.merchant, e.amount as int), contract);
}

/// A stored escrow is well formed exactly when its amount is positive, its
/// fee is at least 0 and below the amount, its net amount is the rest, and
/// it has one to eight beneficiaries, each with a share of 1 to 10000 basis
/// points, the shares adding up to 10000.
pub proof fn lemma_well_formed_escrow(e: EscrowDataV2View)
    ensures
        escrow_v2_wf(e) <==> {
            &&& e.amount > 0
            &&& 0 <= e.platform_fee < e.amount
            &&& e.net_amount == e.amount - e.platform_fee
            &&& 1 <= e.beneficiaries.len() <= 8
            &&& forall|i: int|
                0 <= i < e.beneficiaries.len() ==> 1 <= #[trigger] e.beneficiaries[i].percent_bps <= 10000
            &&& weight_sum(weights_of(e.beneficiaries), e.beneficiaries.len() as int) == 10000
        },
{
    let bs = e.beneficiaries;
    if forall|i: int| 0 <= i < bs.len() ==> 1 <= #[trigger] bs[i].percent_bps <= 10000 {
        assert(!has_invalid_share(bs));
    }
    if !has_invalid_share(bs) {
        assert forall|i: int| 0 <= i < bs.len() implies 1 <= #[trigger] bs[i].percent_bps <= 10000 by {
            assert(bps_valid(bs[i].percent_bps));
        }
    }
}

/// `lock` accepts every order whose amount is positive, whose fee is at
/// least 0 and below the amount, whose expiry is still ahead, whose id is
/// free, and whose beneficiary list has one to eight entries, each with a
/// share of 1 to 10000 basis points, the shares adding up to 10000: it
/// creates the locked escrow holding exactly these arguments and funds it
/// with one transfer of the whole amount from the merchant. A share of 0 or
/// above 10000 is refused with `InvalidPercent` once the earlier checks
/// pass.
pub proof fn lemma_lock_accepts_valid_orders(
    now: u64,
    contract: Seq<char>,
    merchant: Seq<char>,
    arbiter: Seq<char>,
    usdc_token: Seq<char>,
    amount: i128,
    platform_fee: i128,
    beneficiaries: Seq<BeneficiaryView>,
    order_id: Seq<char>,
    expires_at: u64,
)
    requires
        amount > 0,
        0 <= platform_fee < amount,
        expires_at > now,
        1 <= beneficiaries.len() <= 8,
    ensures
        (forall|i: int|
            0 <= i < beneficiaries.len() ==> 1 <= #[trigger] beneficiaries[i].percent_bps <= 10000)
            && weight_sum(weights_of(beneficiaries), beneficiaries.len() as int) == 10000 ==> lock_spec(
            false,
            now,
            contract,
            merchant,
            arbiter,
            usdc_token,
            amount,
            platform_fee,
            beneficiaries,
            order_id,
            expires_at,
        ) == Ok::<SettlementView, EscrowErrorV2>(
            SettlementView {
                escrow: EscrowDataV2View {
                    merchant,
                    arbiter,
                    usdc_token,
                    amount,
                    platform_fee,
                    net_amount: (amount - platform_fee) as i128,
                    beneficiaries,
                    state: EscrowState::Locked,
                    order_id,
                    expires_at,
                    created_at: now,
                },
                transfers: seq![
                    TransferView { token: usdc_token, from: merchant, to: contract, amount: amount as int },
                ],
            },
        ),
        (exists|i: int|
            0 <= i < beneficiaries.len() && (#[trigger] beneficiaries[i].percent_bps == 0
                || beneficiaries[i].percent_bps > 10000)) ==> lock_spec(
            false,
            now,
            contract,
            merchant,
            arbiter,
            usdc_token,
            amount,
            platform_fee,
            beneficiaries,
            order_id,
            expires_at,
        ) == Err::<SettlementView, EscrowErrorV2>(EscrowErrorV2::InvalidPercent),
{
    if forall|i: int|
        0 <= i < beneficiaries.len() ==> 1 <= #[trigger] beneficiaries[i].percent_bps <= 10000 {
        assert(!has_invalid_share(beneficiaries));
    }
    if exists|i: int|
        0 <= i < beneficiaries.len() && (#[trigger] beneficiaries[i].percent_bps == 0
            || beneficiaries[i].percent_bps > 10000) {
        let i = choose|i: int|
            0 <= i < beneficiaries.len() && (#[trigger] beneficiaries[i].percent_bps == 0
                || beneficiaries[i].percent_bps > 10000);
        assert(!bps_valid(beneficiaries[i].percent_bps));
        assert(has_invalid_share(beneficiaries));
    }
}

/// Every beneficiary of a locked escrow, at whatever place in the list, may
/// dispute it, as may the merchant and the arbiter; the escrow becomes
/// disputed with nothing else changed and nothing paid. Anyone else is
/// refused with `NotAuthorized`.
pub proof fn lemma_who_may_dispute(e: EscrowDataV2View, caller: Seq<char>, i: int)
    requires
        e.state == EscrowState::Locked,
    ensures
        0 <= i < e.beneficiaries.len() ==> dispute_spec(Some(e), e.beneficiaries[i].address) == Ok::<
            SettlementView,
            EscrowErrorV2,
        >(
            SettlementView {
                escrow: EscrowDataV2View { state: EscrowState::Disputed, ..e },
                transfers: Seq::empty(),
            },
        ),
        caller == e.merchant || caller == e.arbiter ==> dispute_spec(Some(e), caller) == Ok::<
            SettlementView,
            EscrowErrorV2,
        >(
            SettlementView {
                escrow: EscrowDataV2View { state: EscrowState::Disputed, ..e },
                transfers: Seq::empty(),
            },
        ),
        caller != e.merchant && caller != e.arbiter && (forall|j: int|
            0 <= j < e.beneficiaries.len() ==> #[trigger] e.beneficiaries[j].address != caller)
            ==> dispute_spec(Some(e), caller) == Err::<SettlementView, EscrowErrorV2>(
            EscrowErrorV2::NotAuthorized,
        ),
{
    if 0 <= i < e.beneficiaries.len() {
        assert(is_beneficiary(e.beneficiaries, e.beneficiaries[i].address));
    }
}

/// Releasing a well formed locked escrow, whichever of the arbiter and the
/// merchant asks, pays the platform fee (when there is one) to the arbiter
/// and then the net amount to the beneficiaries in their order: each but the
/// last its share of the net amount rounded down, the last the rest. It
/// succeeds whenever the net amount times each share fits in 128 bits.
pub proof fn lemma_release_pays_arbiter_and_beneficiaries(
    e: EscrowDataV2View,
    caller: Seq<char>,
    contract: Seq<char>,
)
    requires
        escrow_v2_wf(e),
        e.state == EscrowState::Locked,
        caller == e.arbiter || caller == e.merchant,
        forall|i: int|
            0 <= i < e.beneficiaries.len() ==> fits_i128(
                e.net_amount * #[trigger] e.beneficiaries[i].percent_bps,
            ),
    ensures
        ({
            let net = e.net_amount as int;
            let bs = e.beneficiaries;
            let p = payouts(net, weights_of(bs), 10000);
            &&& p.len() == bs.len()
            &&& forall|i: int| 0 <= i < bs.len() - 1 ==> #[trigger] p[i] == (net * bs[i].percent_bps) / 10000
            &&& sum_ints(p) == net
            &&& release_spec(Some(e), caller, contract) == Ok::<SettlementView, EscrowErrorV2>(
                SettlementView {
                    escrow: EscrowDataV2View { state: EscrowState::Released, ..e },
                    transfers: (if e.platform_fee > 0 {
                        seq![
                            TransferView {
                                token: e.usdc_token,
                                from: contract,
                                to: e.arbiter,
                                amount: e.platform_fee as int,
                            },
                        ]
                    } else {
                        Seq::empty()
                    }) + payout_transfers(e.usdc_token, contract, recipients_of(bs), p),
                },
            )
        }),
        release_spec(Some(e), e.arbiter, contract) == release_spec(Some(e), e.merchant, contract),
{
    let net = e.net_amount as int;
    let w = weights_of(e.beneficiaries);
    assert forall|i: int| 0 <= i < w.len() implies fits_i128(net * #[trigger] w[i]) by {
        assert(w[i] == e.beneficiaries[i].percent_bps);
    }
    lemma_payouts_fit(net, w, TOTAL_BPS as int);
    lemma_beneficiaries_get_total(e, contract, net);
}

/// The arbiter's ruling on a dispute over a well formed escrow: at any
/// allotment up to 10000 basis points whose products fit in 128 bits it pays
/// the platform fee (when there is one) to the arbiter, the part of the net
/// amount not allotted (when there is one) back to the merchant, and the
/// allotted part, net × allotment / 10000 rounded down, to the beneficiaries
/// in their order, each but the last its share rounded down and the last the
/// rest. An allotment above 10000 is refused with `InvalidPercent`, and anyone
/// but the arbiter with `NotAuthorized`.
pub proof fn lemma_resolve_pays_arbiter_merchant_and_beneficiaries(
    e: EscrowDataV2View,
    caller: Seq<char>,
    provider_bps: u32,
    contract: Seq<char>,
)
    requires
        escrow_v2_wf(e),
        e.state == EscrowState::Disputed,
    ensures
        caller != e.arbiter ==> resolve_dispute_spec(Some(e), caller, provider_bps, contract) == Err::<
            SettlementView,
            EscrowErrorV2,
        >(EscrowErrorV2::NotAuthorized),
        provider_bps > 10000 ==> resolve_dispute_spec(Some(e), e.arbiter, provider_bps, contract) == Err::<
            SettlementView,
            EscrowErrorV2,
        >(EscrowErrorV2::InvalidPercent),
        ({
            let net = e.net_amount as int;
            let part = (net * provider_bps) / 10000;
            let bs = e.beneficiaries;
            let p = payouts(part, weights_of(bs), 10000);
            provider_bps <= 10000 && fits_i128(net * provider_bps) && (forall|i: int|
                0 <= i < bs.len() ==> fits_i128(part * #[trigger] bs[i].percent_bps)) ==> {
                &&& 0 <= part <= net
                &&& p.len() == bs.len()
                &&& forall|i: int| 0 <= i < bs.len() - 1 ==> #[trigger] p[i] == (part * bs[i].percent_bps) / 10000
                &&& sum_ints(p) == part
                &&& resolve_dispute_spec(Some(e), e.arbiter, provider_bps, contract) == Ok::<
                    SettlementView,
                    EscrowErrorV2,
                >(
                    SettlementView {
                        escrow: EscrowDataV2View { state: EscrowState::Released, ..e },
                        transfers: (if e.platform_fee > 0 {
                            seq![
                                TransferView {
                                    token: e.usdc_token,
                                    from: contract,
                                    to: e.arbiter,
                                    amount: e.platform_fee as int,
                                },
                            ]
                        } else {
                            Seq::empty()
                        }) + (if net - part > 0 {
                            seq![
                                TransferView {
                                    token: e.usdc_token,
                                    from: contract,
                                    to: e.merchant,
                                    amount: net - part,
                                },
                            ]
                        } else {
                            Seq::empty()
                        }) + payout_transfers(e.usdc_token, contract, recipients_of(bs), p),
                    },
                )
            }
        }),
{
    let net = e.net_amount as int;
    let b = provider_bps as int;
    let bs = e.beneficiaries;
    if provider_bps <= 10000 && fits_i128(net * provider_bps) && (forall|i: int|
        0 <= i < bs.len() ==> fits_i128(((net * provider_bps) / 10000) * #[trigger] bs[i].percent_bps)) {
        assert(net * b >= 0) by (nonlinear_arith)
            requires
                net >= 0,
                b >= 0,
        ;
        let part = (net * b) / 10000;
        assert(0 <= part <= net) by (nonlinear_arith)
            requires
                net * b >= 0,
                part == (net * b) / 10000,
                0 <= b <= 10000,
                net >= 0,
        ;
        assert(split_part(net, b) == part);
        let w = weights_of(bs);
        assert forall|i: int| 0 <= i < w.len() implies fits_i128(part * #[trigger] w[i]) by {
            assert(w[i] == bs[i].percent_bps);
        }
        lemma_payouts_fit(part, w, TOTAL_BPS as int);
        lemma_beneficiaries_get_total(e, contract, part);
    }
}

} // verus!
