use vstd::prelude::*;
use crate::address::Address;
use crate::effects::{Transfer, TransferView, transfers_view};
use crate::split::{addresses_view, weight_sum};

verus! {

/// The most beneficiaries one escrow can have.
pub const MAX_BENEFICIARIES: u32 = 8;

/// The basis points that make up the whole: 100%.
pub const TOTAL_BPS: u32 = 10_000;

#[derive(Clone, Copy, Debug, PartialEq, Eq, Structural)]
pub enum EscrowState {
    Locked,
    Released,
    Refunded,
    Disputed,
}

/// A recipient of part of the net amount, with its share in basis points.
#[derive(Debug)]
pub struct Beneficiary {
    pub address: Address,
    pub percent_bps: u32,
    pub role_tag: String,
}

pub struct BeneficiaryView {
    pub address: Seq<char>,
    pub percent_bps: u32,
    pub role_tag: Seq<char>,
}

impl View for Beneficiary {
    type V = BeneficiaryView;

    open spec fn view(&self) -> BeneficiaryView {
        BeneficiaryView { address: self.address@, percent_bps: self.percent_bps, role_tag: self.role_tag@ }
    }
}

impl Clone for Beneficiary {
    fn clone(&self) -> (r: Self)
        ensures
            r@ == self@,
    {
        Beneficiary {
            address: self.address.clone(),
            percent_bps: self.percent_bps,
            role_tag: self.role_tag.clone(),
        }
    }
}

/// One escrow, as the contract stores it under its order id.
#[derive(Debug)]
pub struct EscrowDataV2 {
    pub merchant: Address,
    pub arbiter: Address,
    pub usdc_token: Address,
    pub amount: i128,
    pub platform_fee: i128,
    pub net_amount: i128,
    pub beneficiaries: Vec<Beneficiary>,
    pub state: EscrowState,
    pub order_id: String,
    pub expires_at: u64,
    pub created_at: u64,
}

pub struct EscrowDataV2View {
    pub merchant: Seq<char>,
    pub arbiter: Seq<char>,
    pub usdc_token: Seq<char>,
    pub amount: i128,
    pub platform_fee: i128,
    pub net_amount: i128,
    pub beneficiaries: Seq<BeneficiaryView>,
    pub state: EscrowState,
    pub order_id: Seq<char>,
    pub expires_at: u64,
    pub created_at: u64,
}

pub open spec fn beneficiaries_view(bs: Seq<Beneficiary>) -> Seq<BeneficiaryView> {
    bs.map_values(|b: Beneficiary| b@)
}

impl View for EscrowDataV2 {
    type V = EscrowDataV2View;

    open spec fn view(&self) -> EscrowDataV2View {
        EscrowDataV2View {
            merchant: self.merchant@,
            arbiter: self.arbiter@,
            usdc_token: self.usdc_token@,
            amount: self.amount,
            platform_fee: self.platform_fee,
            net_amount: self.net_amount,
            beneficiaries: beneficiaries_view(self.beneficiaries@),
            state: self.state,
            order_id: self.order_id@,
            expires_at: self.expires_at,
            created_at: self.created_at,
        }
    }
}

impl Clone for EscrowDataV2 {
    fn clone(&self) -> (r: Self)
        ensures
            r@ == self@,
    {
        let beneficiaries = self.beneficiaries.clone();
        assert(beneficiaries_view(beneficiaries@) =~= beneficiaries_view(self.beneficiaries@)) by {
            assert forall|i: int| 0 <= i < self.beneficiaries@.len() implies beneficiaries@[i]@
                == #[trigger] self.beneficiaries@[i]@ by {
                assert(cloned::<Beneficiary>(self.beneficiaries[i], beneficiaries[i]));
            }
        }
        EscrowDataV2 {
            merchant: self.merchant.clone(),
            arbiter: self.arbiter.clone(),
            usdc_token: self.usdc_token.clone(),
            amount: self.amount,
            platform_fee: self.platform_fee,
            net_amount: self.net_amount,
            beneficiaries,
            state: self.state,
            order_id: self.order_id.clone(),
            expires_at: self.expires_at,
            created_at: self.created_at,
        }
    }
}

/// The shares of the beneficiaries, in order.
pub open spec fn weights_of(bs: Seq<BeneficiaryView>) -> Seq<u32> {
    bs.map_values(|b: BeneficiaryView| b.percent_bps)
}

/// The addresses of the beneficiaries, in order.
pub open spec fn recipients_of(bs: Seq<BeneficiaryView>) -> Seq<Seq<char>> {
    bs.map_values(|b: BeneficiaryView| b.address)
}

/// A share is valid when it is positive and at most the whole.
pub open spec fn bps_valid(bps: u32) -> bool {
    1 <= bps <= TOTAL_BPS
}

/// Whether some beneficiary's share is not valid.
pub open spec fn has_invalid_share(bs: Seq<BeneficiaryView>) -> bool {
    exists|i: int| 0 <= i < bs.len() && !bps_valid(#[trigger] bs[i].percent_bps)
}

/// A valid beneficiary list: one to eight entries, each share valid, the
/// shares adding up to the whole.
pub open spec fn beneficiaries_valid(bs: Seq<BeneficiaryView>) -> bool {
    &&& 1 <= bs.len() <= MAX_BENEFICIARIES
    &&& !has_invalid_share(bs)
    &&& weight_sum(weights_of(bs), bs.len() as int) == TOTAL_BPS
}

/// A stored escrow is well formed: a positive amount, a fee below it, the
/// net amount the rest, and a valid beneficiary list.
pub open spec fn escrow_v2_wf(e: EscrowDataV2View) -> bool {
    &&& e.amount > 0
    &&& 0 <= e.platform_fee < e.amount
    &&& e.net_amount == e.amount - e.platform_fee
    &&& beneficiaries_valid(e.beneficiaries)
}

pub open spec fn with_state(e: EscrowDataV2View, state: EscrowState) -> EscrowDataV2View {
    EscrowDataV2View { state, ..e }
}

/// What a successful call leaves behind: the escrow record to store and the
/// token transfers to make, in order.
pub struct Settlement {
    pub escrow: EscrowDataV2,
    pub transfers: Vec<Transfer>,
}

pub struct SettlementView {
    pub escrow: EscrowDataV2View,
    pub transfers: Seq<TransferView>,
}

impl View for Settlement {
    type V = SettlementView;

    open spec fn view(&self) -> SettlementView {
        SettlementView { escrow: self.escrow@, transfers: transfers_view(self.transfers@) }
    }
}

impl EscrowDataV2 {
    /// Whether this escrow is well formed, as every escrow that `lock`
    /// creates is.
    pub fn is_well_formed(&self) -> (r: bool)
        ensures
            r == escrow_v2_wf(self@),
    {
        if self.amount <= 0 || self.platform_fee < 0 || self.platform_fee >= self.amount {
            return false;
        }
        if self.net_amount != self.amount - self.platform_fee {
            return false;
        }
        let n = self.beneficiaries.len();
        if n == 0 || n > MAX_BENEFICIARIES as usize {
            return false;
        }
        let ghost bs = beneficiaries_view(self.beneficiaries@);
        let mut sum: u32 = 0;
        let mut i: usize = 0;
        while i < n
            invariant
                n == self.beneficiaries.len(),
                n <= MAX_BENEFICIARIES,
                bs == beneficiaries_view(self.beneficiaries@),
                0 <= i <= n,
                sum as int == weight_sum(weights_of(bs), i as int),
                sum <= TOTAL_BPS * i,
                forall|j: int| 0 <= j < i ==> bps_valid(#[trigger] bs[j].percent_bps),
            decreases n - i,
        {
            let bps = self.beneficiaries[i].percent_bps;
            if bps == 0 || bps > TOTAL_BPS {
                assert(!bps_valid(bs[i as int].percent_bps));
                return false;
            }
            assert(weights_of(bs)[i as int] == bps);
            sum = sum + bps;
            i = i + 1;
        }
        sum == TOTAL_BPS
    }
}

/// The shares of the beneficiaries, in order.
pub fn beneficiary_weights(bs: &Vec<Beneficiary>) -> (w: Vec<u32>)
    ensures
        w@ == weights_of(beneficiaries_view(bs@)),
{
    let mut w: Vec<u32> = Vec::new();
    let mut i: usize = 0;
    while i < bs.len()
        invariant
            0 <= i <= bs.len(),
            w@ == weights_of(beneficiaries_view(bs@)).take(i as int),
        decreases bs.len() - i,
    {
        w.push(bs[i].percent_bps);
        i = i + 1;
        assert(w@ =~= weights_of(beneficiaries_view(bs@)).take(i as int));
    }
    assert(w@ =~= weights_of(beneficiaries_view(bs@)));
    w
}

/// The addresses of the beneficiaries, in order.
pub fn beneficiary_addresses(bs: &Vec<Beneficiary>) -> (r: Vec<Address>)
    ensures
        addresses_view(r@) == recipients_of(beneficiaries_view(bs@)),
        r.len() == bs.len(),
{
    let mut r: Vec<Address> = Vec::new();
    let mut i: usize = 0;
    while i < bs.len()
        invariant
            0 <= i <= bs.len(),
            r.len() == i,
            addresses_view(r@) == recipients_of(beneficiaries_view(bs@)).take(i as int),
        decreases bs.len() - i,
    {
        r.push(bs[i].address.clone());
        i = i + 1;
        assert(addresses_view(r@) =~= recipients_of(beneficiaries_view(bs@)).take(i as int));
    }
    assert(addresses_view(r@) =~= recipients_of(beneficiaries_view(bs@)));
    r
}

} // verus!
