use vstd::prelude::*;
use crate::address::Address;
use crate::effects::{
    Ledger, Outcome, Transfer, TransferView, authorize, fail, make_transfer, transfers_view,
    pay_if_positive, result_view, option_view, div_trunc, fits_i128,
};
use crate::split::payouts_overflow;
use crate::escrow_v2::errors::EscrowErrorV2;
use crate::escrow_v2::release::{beneficiary_transfers, pay_beneficiaries};
use crate::escrow_v2::state::{
    Beneficiary, BeneficiaryView, EscrowDataV2, EscrowDataV2View, EscrowState, Settlement,
    SettlementView, TOTAL_BPS, beneficiaries_view, weights_of, with_state, escrow_v2_wf,
};

verus! {

/// Whether `who` is one of the beneficiaries.
pub open spec fn is_beneficiary(bs: Seq<BeneficiaryView>, who: Seq<char>) -> bool {
    exists|i: int| 0 <= i < bs.len() && #[trigger] bs[i].address == who
}

/// `dispute`: the escrow is frozen; nothing moves.
pub open spec fn dispute_spec(stored: Option<EscrowDataV2View>, caller: Seq<char>) -> Result<
    SettlementView,
    EscrowErrorV2,
> {
    match stored {
        None => Err(EscrowErrorV2::NotFound),
        Some(e) => if caller != e.merchant && caller != e.arbiter && !is_beneficiary(
            e.beneficiaries,
            caller,
        ) {
            Err(EscrowErrorV2::NotAuthorized)
        } else if e.state != EscrowState::Locked {
            Err(EscrowErrorV2::NotLocked)
        } else {
            Ok(SettlementView { escrow: with_state(e, EscrowState::Disputed), transfers: Seq::empty() })
        },
    }
}

/// The part of the net amount that goes to the beneficiaries at
/// `provider_bps`, rounded toward zero.
pub open spec fn split_part(net: int, provider_bps: int) -> int {
    div_trunc(net * provider_bps, TOTAL_BPS as int)
}

/// `resolve_dispute`: the fee to the arbiter, the part of the net amount
/// not allotted to the beneficiaries back to the merchant, and the allotted
/// part to the beneficiaries by their shares.
pub open spec fn resolve_dispute_spec(
    stored: Option<EscrowDataV2View>,
    arbiter: Seq<char>,
    provider_bps: u32,
    contract: Seq<char>,
) -> Result<SettlementView, EscrowErrorV2> {
    match stored {
        None => Err(EscrowErrorV2::NotFound),
        Some(e) => {
            let to_split = split_part(e.net_amount as int, provider_bps as int);
            if arbiter != e.arbiter {
                Err(EscrowErrorV2::NotAuthorized)
            } else if e.state != EscrowState::Disputed {
                Err(EscrowErrorV2::NotDisputed)
            } else if provider_bps > TOTAL_BPS {
                Err(EscrowErrorV2::InvalidPercent)
            } else if !fits_i128(e.net_amount * provider_bps) || payouts_overflow(
                to_split,
                weights_of(e.beneficiaries),
                TOTAL_BPS as int,
            ) {
                Err(EscrowErrorV2::Overflow)
            } else {
                Ok(
                    SettlementView {
                        escrow: with_state(e, EscrowState::Released),
                        transfers: pay_if_positive(
                            e.usdc_token,
                            contract,
                            e.arbiter,
                            e.platform_fee as int,
                        ) + pay_if_positive(e.usdc_token, contract, e.merchant, e.net_amount - to_split)
                            + beneficiary_transfers(e, contract, to_split),
                    },
                )
            }
        },
    }
}

/// Whether `who` is one of the beneficiaries.
fn find_beneficiary(bs: &Vec<Beneficiary>, who: &Address) -> (r: bool)
    ensures
        r == is_beneficiary(beneficiaries_view(bs@), who@),
{
    let ghost v = beneficiaries_view(bs@);
    let mut i: usize = 0;
    while i < bs.len()
        invariant
            0 <= i <= bs.len(),
            v == beneficiaries_view(bs@),
            forall|j: int| 0 <= j < i ==> #[trigger] v[j].address != who@,
        decreases bs.len() - i,
    {
        if bs[i].address.same_as(who) {
            assert(v[i as int].address == who@);
            return true;
        }
        i = i + 1;
    }
    false
}

/// The merchant, the arbiter or any beneficiary raises a dispute, which
/// freezes the escrow.
pub fn dispute(caller: Address, stored: Option<EscrowDataV2>) -> (out: Outcome<Settlement, EscrowErrorV2>)
    ensures
        out.auth_view() == Some(caller@),
        result_view(out.result) == dispute_spec(option_view(stored), caller@),
{
    let auth = authorize(&caller);
    let mut escrow = match stored {
        Some(e) => e,
        None => return fail(auth, EscrowErrorV2::NotFound),
    };
    let is_beneficiary = find_beneficiary(&escrow.beneficiaries, &caller);
    if !caller.same_as(&escrow.merchant) && !caller.same_as(&escrow.arbiter) && !is_beneficiary {
        return fail(auth, EscrowErrorV2::NotAuthorized);
    }
    if escrow.state != EscrowState::Locked {
        return fail(auth, EscrowErrorV2::NotLocked);
    }
    let ghost before = escrow@;
    escrow.state = EscrowState::Disputed;
    let settlement = Settlement { escrow, transfers: Vec::new() };
    assert(settlement@.transfers =~= Seq::<TransferView>::empty());
    assert(settlement@.escrow == with_state(before, EscrowState::Disputed));
    Outcome { auth, result: Ok(settlement) }
}

/// The arbiter resolves a dispute: `provider_bps` (0..=10000) of the net
/// amount goes to the beneficiaries by their shares, the rest back to the
/// merchant, and the fee to the arbiter. The escrow must be one that `lock`
/// made, so that its shares add up to the whole.
pub fn resolve_dispute(
    ledger: &Ledger,
    arbiter: Address,
    stored: Option<EscrowDataV2>,
    provider_bps: u32,
) -> (out: Outcome<Settlement, EscrowErrorV2>)
    requires
        stored matches Some(e) ==> escrow_v2_wf(e@),
    ensures
        out.auth_view() == Some(arbiter@),
        result_view(out.result) == resolve_dispute_spec(
            option_view(stored),
            arbiter@,
            provider_bps,
            ledger.contract@,
        ),
{
    let auth = authorize(&arbiter);
    let mut escrow = match stored {
        Some(e) => e,
        None => return fail(auth, EscrowErrorV2::NotFound),
    };
    if !arbiter.same_as(&escrow.arbiter) {
        return fail(auth, EscrowErrorV2::NotAuthorized);
    }
    if escrow.state != EscrowState::Disputed {
        return fail(auth, EscrowErrorV2::NotDisputed);
    }
    if provider_bps > TOTAL_BPS {
        return fail(auth, EscrowErrorV2::InvalidPercent);
    }
    let ghost before = escrow@;
    let mut transfers: Vec<Transfer> = Vec::new();
    if escrow.platform_fee > 0 {
        transfers.push(
            make_transfer(&escrow.usdc_token, &ledger.contract, &escrow.arbiter, escrow.platform_fee),
        );
    }
    let scaled = match escrow.net_amount.checked_mul(provider_bps as i128) {
        Some(v) => v,
        None => return fail(auth, EscrowErrorV2::Overflow),
    };
    let to_split = scaled / TOTAL_BPS as i128;
    proof {
        lemma_split_part_bounded(escrow.net_amount as int, provider_bps as int);
    }
    let to_refund = escrow.net_amount - to_split;
    if to_refund > 0 {
        transfers.push(make_transfer(&escrow.usdc_token, &ledger.contract, &escrow.merchant, to_refund));
    }
    let ghost head = transfers_view(transfers@);
    assert(head =~= pay_if_positive(before.usdc_token, ledger.contract@, before.arbiter, before.platform_fee as int)
        + pay_if_positive(before.usdc_token, ledger.contract@, before.merchant, before.net_amount - to_split));
    if !pay_beneficiaries(&ledger.contract, &escrow, to_split, &mut transfers) {
        return fail(auth, EscrowErrorV2::Overflow);
    }
    escrow.state = EscrowState::Released;
    let settlement = Settlement { escrow, transfers };
    assert(settlement@.escrow == with_state(before, EscrowState::Released));
    Outcome { auth, result: Ok(settlement) }
}

/// The allotted part lies between zero and the net amount.
pub proof fn lemma_split_part_bounded(net: int, provider_bps: int)
    requires
        net >= 0,
        0 <= provider_bps <= TOTAL_BPS,
    ensures
        0 <= split_part(net, provider_bps) <= net,
{
    assert(0 <= net * provider_bps <= net * 10000) by (nonlinear_arith)
        requires
            net >= 0,
            0 <= provider_bps <= 10000,
    ;
    assert(0 <= (net * provider_bps) / 10000 <= net) by (nonlinear_arith)
        requires
            0 <= net * provider_bps <= net * 10000,
    ;
}

} // verus!
