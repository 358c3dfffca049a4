use vstd::prelude::*;
use crate::address::Address;
use crate::effects::{
    Ledger, Outcome, Transfer, TransferView, authorize, fail, make_transfer, transfer_view,
    transfers_view, pay_if_positive, result_view, option_view, div_trunc, fits_i128,
};
use crate::split::{payouts, payouts_overflow, payout_transfers, split_payouts, pay_out, amounts_view};
use crate::marketplace::errors::MarketError;
use crate::marketplace::state::{
    Listing, ListingView, MarketConfig, MarketConfigView, MarketEvent, MarketEventView, NftMove,
    NftMoveView, make_move,
};
pub use crate::nft::state::{RoyaltyPolicy, RoyaltySplitOnChain};
use crate::nft::state::{
    RoyaltyPolicyView, split_weights, split_recipients, policy_weights, policy_recipients,
};

verus! {

/// The whole, in basis points.
pub const TOTAL_BPS: i128 = 10_000;

/// The platform fee when the marketplace was initialized without one: 2.5%.
pub const DEFAULT_FEE_BPS: u32 = 250;

/// A purchase that has passed its checks and awaits the token's royalty
/// policy, which the NFT contract is asked for next.
pub struct BuyOrder {
    pub buyer: Address,
    pub nft_contract: Address,
    pub token_id: u32,
    pub listing: Listing,
    pub usdc_token: Address,
    pub platform_fee_bps: u32,
    pub platform_address: Address,
}

pub struct BuyOrderView {
    pub buyer: Seq<char>,
    pub nft_contract: Seq<char>,
    pub token_id: u32,
    pub listing: ListingView,
    pub usdc_token: Seq<char>,
    pub platform_fee_bps: u32,
    pub platform_address: Seq<char>,
}

impl View for BuyOrder {
    type V = BuyOrderView;

    open spec fn view(&self) -> BuyOrderView {
        BuyOrderView {
            buyer: self.buyer@,
            nft_contract: self.nft_contract@,
            token_id: self.token_id,
            listing: self.listing@,
            usdc_token: self.usdc_token@,
            platform_fee_bps: self.platform_fee_bps,
            platform_address: self.platform_address@,
        }
    }
}

/// `buy`, first step: the listing and the settings a sale needs.
pub open spec fn buy_spec(
    config: MarketConfigView,
    stored: Option<ListingView>,
    buyer: Seq<char>,
    nft_contract: Seq<char>,
    token_id: u32,
) -> Result<BuyOrderView, MarketError> {
    match stored {
        None => Err(MarketError::NotListed),
        Some(l) => match (config.usdc_token, config.platform_address) {
            (Some(usdc_token), Some(platform_address)) => Ok(
                BuyOrderView {
                    buyer,
                    nft_contract,
                    token_id,
                    listing: l,
                    usdc_token,
                    platform_fee_bps: match config.platform_fee_bps {
                        Some(b) => b,
                        None => DEFAULT_FEE_BPS,
                    },
                    platform_address,
                },
            ),
            _ => Err(MarketError::NotInitialized),
        },
    }
}

fn copy_address(a: &Option<Address>) -> (r: Option<Address>)
    ensures
        option_view(r) == option_view(*a),
{
    match a {
        Some(x) => Some(x.clone()),
        None => None,
    }
}

/// Buy a listed NFT, first step: the buyer must authorize the call; the
/// listing must exist and the marketplace be initialized. The token's
/// royalty policy is then read from the NFT contract and handed to
/// `settle_buy`, which completes the sale.
pub fn buy(
    config: &MarketConfig,
    buyer: Address,
    nft_contract: Address,
    token_id: u32,
    stored: Option<Listing>,
) -> (out: Outcome<BuyOrder, MarketError>)
    ensures
        out.auth_view() == Some(buyer@),
        result_view(out.result) == buy_spec(config@, option_view(stored), buyer@, nft_contract@, token_id),
{
    let auth = authorize(&buyer);
    let listing = match stored {
        Some(l) => l,
        None => return fail(auth, MarketError::NotListed),
    };
    let usdc_token = match copy_address(&config.usdc_token) {
        Some(t) => t,
        None => return fail(auth, MarketError::NotInitialized),
    };
    let platform_fee_bps = match config.platform_fee_bps {
        Some(b) => b,
        None => DEFAULT_FEE_BPS,
    };
    let platform_address = match copy_address(&config.platform_address) {
        Some(p) => p,
        None => return fail(auth, MarketError::NotInitialized),
    };
    let order = BuyOrder {
        buyer,
        nft_contract,
        token_id,
        listing,
        usdc_token,
        platform_fee_bps,
        platform_address,
    };
    Outcome { auth, result: Ok(order) }
}

/// What a completed sale leaves behind, besides the listing's removal: the
/// token transfers in order, the move of the NFT to the buyer, and the
/// event.
pub struct SalePlan {
    pub transfers: Vec<Transfer>,
    pub nft_move: NftMove,
    pub event: MarketEvent,
}

pub struct SalePlanView {
    pub transfers: Seq<TransferView>,
    pub nft_move: NftMoveView,
    pub event: MarketEventView,
}

impl View for SalePlan {
    type V = SalePlanView;

    open spec fn view(&self) -> SalePlanView {
        SalePlanView { transfers: transfers_view(self.transfers@), nft_move: self.nft_move@, event: self.event@ }
    }
}

/// A part of the price at `bps` basis points, rounded toward zero.
pub open spec fn price_part(price: int, bps: int) -> int {
    div_trunc(price * bps, TOTAL_BPS as int)
}

/// The transfers that pay the royalty out to the policy's recipients by
/// their shares of its total, the last one absorbing the rounding dust; no
/// transfer at all when the royalty is 0.
pub open spec fn royalty_transfers(
    usdc_token: Seq<char>,
    market: Seq<char>,
    policy: RoyaltyPolicyView,
    royalty_total: int,
) -> Seq<TransferView> {
    if royalty_total == 0 {
        Seq::empty()
    } else {
        payout_transfers(
            usdc_token,
            market,
            split_recipients(policy.splits),
            payouts(royalty_total, split_weights(policy.splits), policy.total_bps as int),
        )
    }
}

/// Whether splitting a nonzero royalty among the recipients overflows.
pub open spec fn royalty_overflows(policy: RoyaltyPolicyView, royalty_total: int) -> bool {
    royalty_total != 0 && payouts_overflow(
        royalty_total,
        split_weights(policy.splits),
        policy.total_bps as int,
    )
}

/// `buy`, second step: the buyer pays the price into escrow; the platform
/// fee, the royalty (split among its recipients) and the rest go out to the
/// platform, the recipients and the seller; the NFT goes to the buyer.
pub open spec fn settle_buy_spec(market: Seq<char>, order: BuyOrderView, policy: RoyaltyPolicyView) -> Result<
    SalePlanView,
    MarketError,
> {
    let price = order.listing.price as int;
    let platform_fee = price_part(price, order.platform_fee_bps as int);
    let royalty_total = price_part(price, policy.total_bps as int);
    let seller_amount = price - platform_fee - royalty_total;
    if !fits_i128(price * order.platform_fee_bps) || !fits_i128(price * policy.total_bps) {
        Err(MarketError::Overflow)
    } else if !fits_i128(price - platform_fee) || !fits_i128(seller_amount) {
        Err(MarketError::Overflow)
    } else if seller_amount < 0 {
        Err(MarketError::InvalidSplit)
    } else if royalty_overflows(policy, royalty_total) {
        Err(MarketError::Overflow)
    } else {
        Ok(
            SalePlanView {
                transfers: seq![transfer_view(order.usdc_token, order.buyer, market, price)]
                    + pay_if_positive(order.usdc_token, market, order.platform_address, platform_fee)
                    + royalty_transfers(order.usdc_token, market, policy, royalty_total)
                    + pay_if_positive(order.usdc_token, market, order.listing.seller, seller_amount),
                nft_move: NftMoveView {
                    nft_contract: order.nft_contract,
                    from: market,
                    to: order.buyer,
                    token_id: order.token_id,
                },
                event: MarketEventView::Sale {
                    buyer: order.buyer,
                    seller: order.listing.seller,
                    token_id: order.token_id,
                    price: price as i128,
                    royalty_total: royalty_total as i128,
                    platform_fee: platform_fee as i128,
                },
            },
        )
    }
}

/// Buy a listed NFT, second step, given the royalty policy the NFT contract
/// reported: works out the platform fee and the royalty from the price, and
/// pays the buyer's money out atomically, the last royalty recipient
/// absorbing the rounding dust. A sale whose royalty comes to 0 (such as
/// one under a policy with a total of 0) pays no royalty.
pub fn settle_buy(ledger: &Ledger, order: BuyOrder, policy: RoyaltyPolicy) -> (r: Result<SalePlan, MarketError>)
    ensures
        result_view(r) == settle_buy_spec(ledger.contract@, order@, policy@),
{
    let price = order.listing.price;
    let fee_scaled = match price.checked_mul(order.platform_fee_bps as i128) {
        Some(v) => v,
        None => return Err(MarketError::Overflow),
    };
    let platform_fee = fee_scaled / TOTAL_BPS;
    let royalty_scaled = match price.checked_mul(policy.total_bps as i128) {
        Some(v) => v,
        None => return Err(MarketError::Overflow),
    };
    let royalty_total = royalty_scaled / TOTAL_BPS;
    let after_fee = match price.checked_sub(platform_fee) {
        Some(v) => v,
        None => return Err(MarketError::Overflow),
    };
    let seller_amount = match after_fee.checked_sub(royalty_total) {
        Some(v) => v,
        None => return Err(MarketError::Overflow),
    };
    if seller_amount < 0 {
        return Err(MarketError::InvalidSplit);
    }
    let market = &ledger.contract;
    let ghost o = order@;
    let ghost m = market@;
    let mut transfers: Vec<Transfer> = Vec::new();
    transfers.push(make_transfer(&order.usdc_token, &order.buyer, market, price));
    if platform_fee > 0 {
        transfers.push(make_transfer(&order.usdc_token, market, &order.platform_address, platform_fee));
    }
    let ghost head = transfers_view(transfers@);
    assert(head =~= seq![transfer_view(o.usdc_token, o.buyer, m, price as int)] + pay_if_positive(
        o.usdc_token,
        m,
        o.platform_address,
        platform_fee as int,
    ));
    if royalty_total != 0 {
        assert(policy.total_bps > 0) by {
            if policy.total_bps == 0 {
                let t = policy.total_bps as int;
                let pr = price as int;
                assert(pr * t == 0) by (nonlinear_arith)
                    requires
                        t == 0,
                ;
            }
        }
        let weights = policy_weights(&policy.splits);
        let amounts = match split_payouts(royalty_total, &weights, policy.total_bps as i128) {
            Some(a) => a,
            None => return Err(MarketError::Overflow),
        };
        let recipients = policy_recipients(&policy.splits);
        assert(amounts_view(amounts@).len() == amounts@.len());
        pay_out(&order.usdc_token, market, &recipients, &amounts, &mut transfers);
    }
    let ghost mid = transfers_view(transfers@);
    assert(mid =~= head + royalty_transfers(o.usdc_token, m, policy@, royalty_total as int));
    if seller_amount > 0 {
        transfers.push(make_transfer(&order.usdc_token, market, &order.listing.seller, seller_amount));
    }
    assert(transfers_view(transfers@) =~= mid + pay_if_positive(
        o.usdc_token,
        m,
        o.listing.seller,
        seller_amount as int,
    ));
    let nft_move = make_move(&order.nft_contract, market, &order.buyer, order.token_id);
    let event = MarketEvent::Sale {
        buyer: order.buyer,
        seller: order.listing.seller,
        token_id: order.token_id,
        price,
        royalty_total,
        platform_fee,
    };
    Ok(SalePlan { transfers, nft_move, event })
}

} // verus!
