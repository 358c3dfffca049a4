use vstd::prelude::*;
use crate::address::Address;
use crate::effects::{
    Ledger, Outcome, Transfer, authorize, fail, make_transfer, transfer_view, result_view,
};
use crate::split::weight_sum;
use crate::escrow_v2::errors::EscrowErrorV2;
use crate::escrow_v2::state::{
    Beneficiary, BeneficiaryView, EscrowDataV2, EscrowDataV2View, EscrowState, Settlement,
    SettlementView, MAX_BENEFICIARIES, TOTAL_BPS, beneficiaries_view, weights_of, bps_valid,
    has_invalid_share,
};

verus! {

/// `lock`: a new escrow of `amount`, split among `beneficiaries` on release
/// after `platform_fee` goes to the arbiter, funded by a transfer from the
/// merchant.
pub open spec fn lock_spec(
    taken: bool,
    now: u64,
    contract: Seq<char>,
    merchant: Seq<char>,
    arbiter: Seq<char>,
    usdc_token: Seq<char>,
    amount: i128,
    platform_fee: i128,
    beneficiaries: Seq<BeneficiaryView>,
    order_id: Seq<char>,
    expires_at: u64,
) -> Result<SettlementView, EscrowErrorV2> {
    if taken {
        Err(EscrowErrorV2::AlreadyExists)
    } else if amount <= 0 {
        Err(EscrowErrorV2::InvalidAmount)
    } else if platform_fee < 0 || platform_fee >= amount {
        Err(EscrowErrorV2::InvalidFee)
    } else if expires_at <= now {
        Err(EscrowErrorV2::AlreadyExpired)
    } else if beneficiaries.len() == 0 {
        Err(EscrowErrorV2::EmptyBeneficiaries)
    } else if beneficiaries.len() > MAX_BENEFICIARIES {
        Err(EscrowErrorV2::TooManyBeneficiaries)
    } else if has_invalid_share(beneficiaries) {
        Err(EscrowErrorV2::InvalidPercent)
    } else if weight_sum(weights_of(beneficiaries), beneficiaries.len() as int) != TOTAL_BPS {
        Err(EscrowErrorV2::BpsSumMismatch)
    } else {
        Ok(
            SettlementView {
                escrow: EscrowDataV2View {
                    merchant,
                    arbiter,
                    usdc_token,
                    amount,
                    platform_fee,
                    net_amount: (amount - platform_fee) as i128,
                    beneficiaries,
                    state: EscrowState::Locked,
                    order_id,
                    expires_at,
                    created_at: now,
                },
                transfers: seq![transfer_view(usdc_token, merchant, contract, amount as int)],
            },
        )
    }
}

/// Create a new escrow and lock USDC from the merchant into the contract.
/// `taken` says whether an escrow already exists under `order_id`; the
/// merchant must authorize the call unless it does.
pub fn lock(
    ledger: &Ledger,
    taken: bool,
    merchant: Address,
    arbiter: Address,
    usdc_token: Address,
    amount: i128,
    platform_fee: i128,
    beneficiaries: Vec<Beneficiary>,
    order_id: String,
    expires_at: u64,
) -> (out: Outcome<Settlement, EscrowErrorV2>)
    ensures
        out.auth_view() == (if taken { None } else { Some(merchant@) }),
        result_view(out.result) == lock_spec(
            taken,
            ledger.timestamp,
            ledger.contract@,
            merchant@,
            arbiter@,
            usdc_token@,
            amount,
            platform_fee,
            beneficiaries_view(beneficiaries@),
            order_id@,
            expires_at,
        ),
{
    if taken {
        return fail(None, EscrowErrorV2::AlreadyExists);
    }
    let auth = authorize(&merchant);
    if amount <= 0 {
        return fail(auth, EscrowErrorV2::InvalidAmount);
    }
    if platform_fee < 0 || platform_fee >= amount {
        return fail(auth, EscrowErrorV2::InvalidFee);
    }
    if expires_at <= ledger.timestamp {
        return fail(auth, EscrowErrorV2::AlreadyExpired);
    }
    let n = beneficiaries.len();
    if n == 0 {
        return fail(auth, EscrowErrorV2::EmptyBeneficiaries);
    }
    if n > MAX_BENEFICIARIES as usize {
        return fail(auth, EscrowErrorV2::TooManyBeneficiaries);
    }
    let ghost bs = beneficiaries_view(beneficiaries@);
    let mut bps_sum: u32 = 0;
    let mut i: usize = 0;
    #[verifier::loop_isolation(false)]
    while i < n
        invariant
            n == beneficiaries.len(),
            n <= MAX_BENEFICIARIES,
            bs == beneficiaries_view(beneficiaries@),
            0 <= i <= n,
            bps_sum as int == weight_sum(weights_of(bs), i as int),
            bps_sum <= TOTAL_BPS * i,
            forall|j: int| 0 <= j < i ==> bps_valid(#[trigger] bs[j].percent_bps),
        decreases n - i,
    {
        let bps = beneficiaries[i].percent_bps;
        if bps == 0 || bps > TOTAL_BPS {
            assert(!bps_valid(bs[i as int].percent_bps));
            return fail(auth, EscrowErrorV2::InvalidPercent);
        }
        bps_sum = match bps_sum.checked_add(bps) {
            Some(v) => v,
            None => return fail(auth, EscrowErrorV2::Overflow),
        };
        assert(weights_of(bs)[i as int] == bps);
        i = i + 1;
    }
    assert(!has_invalid_share(bs));
    if bps_sum != TOTAL_BPS {
        return fail(auth, EscrowErrorV2::BpsSumMismatch);
    }
    let net_amount = match amount.checked_sub(platform_fee) {
        Some(v) => v,
        None => return fail(auth, EscrowErrorV2::Overflow),
    };
    let deposit = make_transfer(&usdc_token, &merchant, &ledger.contract, amount);
    let mut transfers: Vec<Transfer> = Vec::new();
    transfers.push(deposit);
    let escrow = EscrowDataV2 {
        merchant,
        arbiter,
        usdc_token,
        amount,
        platform_fee,
        net_amount,
        beneficiaries,
        state: EscrowState::Locked,
        order_id,
        expires_at,
        created_at: ledger.timestamp,
    };
    let settlement = Settlement { escrow, transfers };
    assert(settlement@.transfers =~= seq![deposit@]);
    Outcome { auth, result: Ok(settlement) }
}

} // verus!
