use vstd::prelude::*;
use crate::address::Address;
use crate::effects::{
    Ledger, Outcome, Transfer, TransferView, authorize, fail, make_transfer, transfers_view, pay_if_positive,
    result_view, option_view,
};
use crate::split::{amounts_view, payouts, payouts_overflow, payout_transfers, split_payouts, pay_out};
use crate::escrow_v2::errors::EscrowErrorV2;
use crate::escrow_v2::state::{
    EscrowDataV2, EscrowDataV2View, EscrowState, Settlement, SettlementView, TOTAL_BPS, weights_of,
    recipients_of, with_state, beneficiary_weights, beneficiary_addresses,
};

verus! {

/// The transfers that pay `total` out to the beneficiaries of `e` by their
/// shares, the last one absorbing the rounding dust.
pub open spec fn beneficiary_transfers(e: EscrowDataV2View, contract: Seq<char>, total: int) -> Seq<
    TransferView,
> {
    payout_transfers(
        e.usdc_token,
        contract,
        recipients_of(e.beneficiaries),
        payouts(total, weights_of(e.beneficiaries), TOTAL_BPS as int),
    )
}

/// `release`: the fee to the arbiter, then the net amount to the
/// beneficiaries by their shares.
pub open spec fn release_spec(
    stored: Option<EscrowDataV2View>,
    caller: Seq<char>,
    contract: Seq<char>,
) -> Result<SettlementView, EscrowErrorV2> {
    match stored {
        None => Err(EscrowErrorV2::NotFound),
        Some(e) => if caller != e.arbiter && caller != e.merchant {
            Err(EscrowErrorV2::NotAuthorized)
        } else if e.state != EscrowState::Locked {
            Err(EscrowErrorV2::NotLocked)
        } else if payouts_overflow(e.net_amount as int, weights_of(e.beneficiaries), TOTAL_BPS as int) {
            Err(EscrowErrorV2::Overflow)
        } else {
            Ok(
                SettlementView {
                    escrow: with_state(e, EscrowState::Released),
                    transfers: pay_if_positive(e.usdc_token, contract, e.arbiter, e.platform_fee as int)
                        + beneficiary_transfers(e, contract, e.net_amount as int),
                },
            )
        },
    }
}

/// Pays `total` out of the contract to the beneficiaries of `escrow`,
/// appending the transfers to `transfers`; `None` when the arithmetic
/// overflows.
pub fn pay_beneficiaries(
    contract: &Address,
    escrow: &EscrowDataV2,
    total: i128,
    transfers: &mut Vec<Transfer>,
) -> (ok: bool)
    ensures
        ok == !payouts_overflow(total as int, weights_of(escrow@.beneficiaries), TOTAL_BPS as int),
        ok ==> transfers_view(final(transfers)@) == transfers_view(old(transfers)@)
            + beneficiary_transfers(escrow@, contract@, total as int),
{
    let weights = beneficiary_weights(&escrow.beneficiaries);
    let amounts = match split_payouts(total, &weights, TOTAL_BPS as i128) {
        Some(a) => a,
        None => return false,
    };
    let recipients = beneficiary_addresses(&escrow.beneficiaries);
    assert(amounts_view(amounts@).len() == amounts@.len());
    pay_out(&escrow.usdc_token, contract, &recipients, &amounts, transfers);
    true
}

/// Release the escrow: the platform fee to the arbiter, the net amount to
/// the beneficiaries in proportion to their shares, the last beneficiary
/// absorbing the rounding dust. Only the arbiter or the merchant may call.
pub fn release(ledger: &Ledger, caller: Address, stored: Option<EscrowDataV2>) -> (out: Outcome<
    Settlement,
    EscrowErrorV2,
>)
    ensures
        out.auth_view() == Some(caller@),
        result_view(out.result) == release_spec(option_view(stored), caller@, ledger.contract@),
{
    let auth = authorize(&caller);
    let mut escrow = match stored {
        Some(e) => e,
        None => return fail(auth, EscrowErrorV2::NotFound),
    };
    if !caller.same_as(&escrow.arbiter) && !caller.same_as(&escrow.merchant) {
        return fail(auth, EscrowErrorV2::NotAuthorized);
    }
    if escrow.state != EscrowState::Locked {
        return fail(auth, EscrowErrorV2::NotLocked);
    }
    let ghost before = escrow@;
    let mut transfers: Vec<Transfer> = Vec::new();
    if escrow.platform_fee > 0 {
        transfers.push(
            make_transfer(&escrow.usdc_token, &ledger.contract, &escrow.arbiter, escrow.platform_fee),
        );
    }
    let ghost fee_part = transfers_view(transfers@);
    assert(fee_part =~= pay_if_positive(
        before.usdc_token,
        ledger.contract@,
        before.arbiter,
        before.platform_fee as int,
    ));
    if !pay_beneficiaries(&ledger.contract, &escrow, escrow.net_amount, &mut transfers) {
        return fail(auth, EscrowErrorV2::Overflow);
    }
    escrow.state = EscrowState::Released;
    let settlement = Settlement { escrow, transfers };
    assert(settlement@.escrow == with_state(before, EscrowState::Released));
    Outcome { auth, result: Ok(settlement) }
}

} // verus!
