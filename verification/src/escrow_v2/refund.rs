use vstd::prelude::*;
use crate::effects::{
    Ledger, Outcome, Transfer, fail, make_transfer, transfer_view, result_view,
    option_view,
};
use crate::escrow_v2::errors::EscrowErrorV2;
use crate::escrow_v2::state::{
    EscrowDataV2, EscrowDataV2View, EscrowState, Settlement, SettlementView, with_state,
};

verus! {

/// `refund`: once a locked escrow has expired, its whole amount goes back
/// to the merchant.
pub open spec fn refund_spec(stored: Option<EscrowDataV2View>, now: u64, contract: Seq<char>) -> Result<
    SettlementView,
    EscrowErrorV2,
> {
    match stored {
        None => Err(EscrowErrorV2::NotFound),
        Some(e) => if e.state != EscrowState::Locked {
            Err(EscrowErrorV2::NotLocked)
        } else if now < e.expires_at {
            Err(EscrowErrorV2::NotExpired)
        } else {
            Ok(
                SettlementView {
                    escrow: with_state(e, EscrowState::Refunded),
                    transfers: seq![transfer_view(e.usdc_token, contract, e.merchant, e.amount as int)],
                },
            )
        },
    }
}

/// Refund a locked escrow to the merchant once it has expired. Anyone may
/// call; no authorization is demanded.
pub fn refund(ledger: &Ledger, stored: Option<EscrowDataV2>) -> (out: Outcome<Settlement, EscrowErrorV2>)
    ensures
        out.auth is None,
        result_view(out.result) == refund_spec(option_view(stored), ledger.timestamp, ledger.contract@),
{
    let mut escrow = match stored {
        Some(e) => e,
        None => return fail(None, EscrowErrorV2::NotFound),
    };
    if escrow.state != EscrowState::Locked {
        return fail(None, EscrowErrorV2::NotLocked);
    }
    if ledger.timestamp < escrow.expires_at {
        return fail(None, EscrowErrorV2::NotExpired);
    }
    let ghost before = escrow@;
    let mut transfers: Vec<Transfer> = Vec::new();
    transfers.push(make_transfer(&escrow.usdc_token, &ledger.contract, &escrow.merchant, escrow.amount));
    escrow.state = EscrowState::Refunded;
    let settlement = Settlement { escrow, transfers };
    assert(settlement@.transfers =~= seq![
        transfer_view(before.usdc_token, ledger.contract@, before.merchant, before.amount as int),
    ]);
    assert(settlement@.escrow == with_state(before, EscrowState::Refunded));
    Outcome { auth: None, result: Ok(settlement) }
}

} // verus!
