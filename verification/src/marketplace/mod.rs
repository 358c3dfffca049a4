//! The NFT marketplace: sellers list tokens (which move into the
//! marketplace's escrow), may cancel or reprice them, and buyers buy them in
//! one step that pays the platform fee, the token's royalties and the
//! seller, and hands the token over.
pub mod errors;
pub mod state;
pub mod list;
pub mod buy;
pub mod laws;

use vstd::prelude::*;
use crate::address::Address;
use crate::effects::{Ledger, Outcome, authorize, fail, result_view, option_view};
use crate::marketplace::errors::MarketError;
use crate::marketplace::state::{Listing, MarketConfig, MarketConfigView};
use crate::marketplace::list::{ListPlan, CancelPlan, PricePlan, list_spec, cancel_spec, change_price_spec};
use crate::marketplace::buy::{BuyOrder, buy_spec};

verus! {

/// The marketplace contract.
pub struct SteloMarketplace;

/// `init`: the marketplace's settings.
pub open spec fn init_spec(
    config: MarketConfigView,
    admin: Seq<char>,
    usdc_token: Seq<char>,
    platform_address: Seq<char>,
    platform_fee_bps: u32,
) -> Result<MarketConfigView, MarketError> {
    if config.admin is Some {
        Err(MarketError::AlreadyInitialized)
    } else {
        Ok(
            MarketConfigView {
                admin: Some(admin),
                usdc_token: Some(usdc_token),
                platform_fee_bps: Some(platform_fee_bps),
                platform_address: Some(platform_address),
            },
        )
    }
}

impl SteloMarketplace {
    /// One-time initialization; the admin must authorize it.
    pub fn init(
        config: &MarketConfig,
        admin: Address,
        usdc_token: Address,
        platform_address: Address,
        platform_fee_bps: u32,
    ) -> (out: Outcome<MarketConfig, MarketError>)
        ensures
            out.auth_view() == (if config@.admin is Some { None } else { Some(admin@) }),
            result_view(out.result) == init_spec(
                config@,
                admin@,
                usdc_token@,
                platform_address@,
                platform_fee_bps,
            ),
    {
        if config.admin.is_some() {
            return fail(None, MarketError::AlreadyInitialized);
        }
        let auth = authorize(&admin);
        let next = MarketConfig {
            admin: Some(admin),
            usdc_token: Some(usdc_token),
            platform_fee_bps: Some(platform_fee_bps),
            platform_address: Some(platform_address),
        };
        Outcome { auth, result: Ok(next) }
    }

    /// List an NFT for sale. Moves the token into the marketplace's escrow.
    pub fn list(
        ledger: &Ledger,
        listed: bool,
        seller: Address,
        nft_contract: Address,
        token_id: u32,
        price: i128,
    ) -> (out: Outcome<ListPlan, MarketError>)
        ensures
            out.auth_view() == (if price <= 0 { None } else { Some(seller@) }),
            result_view(out.result) == list_spec(
                ledger.timestamp,
                ledger.contract@,
                listed,
                seller@,
                nft_contract@,
                token_id,
                price,
            ),
    {
        list::list(ledger, listed, seller, nft_contract, token_id, price)
    }

    /// Cancel a listing. Returns the NFT from escrow to the seller.
    pub fn cancel(
        ledger: &Ledger,
        seller: Address,
        nft_contract: Address,
        token_id: u32,
        stored: Option<Listing>,
    ) -> (out: Outcome<CancelPlan, MarketError>)
        ensures
            out.auth_view() == Some(seller@),
            result_view(out.result) == cancel_spec(
                ledger.contract@,
                option_view(stored),
                seller@,
                nft_contract@,
                token_id,
            ),
    {
        list::cancel(ledger, seller, nft_contract, token_id, stored)
    }

    /// Update a listing's price. Only the original seller can call this.
    pub fn change_price(seller: Address, token_id: u32, new_price: i128, stored: Option<Listing>) -> (out:
        Outcome<PricePlan, MarketError>)
        ensures
            out.auth_view() == Some(seller@),
            result_view(out.result) == change_price_spec(option_view(stored), seller@, token_id, new_price),
    {
        list::change_price(seller, token_id, new_price, stored)
    }

    /// Buy a listed NFT, first step (see `buy::settle_buy` for the second).
    pub fn buy(
        config: &MarketConfig,
        buyer: Address,
        nft_contract: Address,
        token_id: u32,
        stored: Option<Listing>,
    ) -> (out: Outcome<BuyOrder, MarketError>)
        ensures
            out.auth_view() == Some(buyer@),
            result_view(out.result) == buy_spec(config@, option_view(stored), buyer@, nft_contract@, token_id),
    {
        buy::buy(config, buyer, nft_contract, token_id, stored)
    }
}

} // verus!
