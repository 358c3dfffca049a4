use vstd::prelude::*;
use crate::address::Address;
use crate::effects::option_view;

verus! {

/// An NFT offered for sale, held in the marketplace's escrow meanwhile.
#[derive(Debug)]
pub struct Listing {
    pub seller: Address,
    pub nft_contract: Address,
    pub token_id: u32,
    /// In USDC stroops.
    pub price: i128,
    pub created_at: u64,
}

pub struct ListingView {
    pub seller: Seq<char>,
    pub nft_contract: Seq<char>,
    pub token_id: u32,
    pub price: i128,
    pub created_at: u64,
}

impl View for Listing {
    type V = ListingView;

    open spec fn view(&self) -> ListingView {
        ListingView {
            seller: self.seller@,
            nft_contract: self.nft_contract@,
            token_id: self.token_id,
            price: self.price,
            created_at: self.created_at,
        }
    }
}

impl Clone for Listing {
    fn clone(&self) -> (r: Self)
        ensures
            r@ == self@,
    {
        Listing {
            seller: self.seller.clone(),
            nft_contract: self.nft_contract.clone(),
            token_id: self.token_id,
            price: self.price,
            created_at: self.created_at,
        }
    }
}

/// The marketplace's settings, as it keeps them in instance storage; each
/// is absent until the marketplace is initialized.
#[derive(Debug)]
pub struct MarketConfig {
    pub admin: Option<Address>,
    pub usdc_token: Option<Address>,
    pub platform_fee_bps: Option<u32>,
    pub platform_address: Option<Address>,
}

pub struct MarketConfigView {
    pub admin: Option<Seq<char>>,
    pub usdc_token: Option<Seq<char>>,
    pub platform_fee_bps: Option<u32>,
    pub platform_address: Option<Seq<char>>,
}

impl View for MarketConfig {
    type V = MarketConfigView;

    open spec fn view(&self) -> MarketConfigView {
        MarketConfigView {
            admin: option_view(self.admin),
            usdc_token: option_view(self.usdc_token),
            platform_fee_bps: self.platform_fee_bps,
            platform_address: option_view(self.platform_address),
        }
    }
}

/// A call to the NFT contract's `marketplace_transfer`, moving `token_id`
/// from `from` to `to`.
#[derive(Debug)]
pub struct NftMove {
    pub nft_contract: Address,
    pub from: Address,
    pub to: Address,
    pub token_id: u32,
}

pub struct NftMoveView {
    pub nft_contract: Seq<char>,
    pub from: Seq<char>,
    pub to: Seq<char>,
    pub token_id: u32,
}

impl View for NftMove {
    type V = NftMoveView;

    open spec fn view(&self) -> NftMoveView {
        NftMoveView { nft_contract: self.nft_contract@, from: self.from@, to: self.to@, token_id: self.token_id }
    }
}

pub fn make_move(nft_contract: &Address, from: &Address, to: &Address, token_id: u32) -> (m: NftMove)
    ensures
        m@ == (NftMoveView { nft_contract: nft_contract@, from: from@, to: to@, token_id }),
{
    NftMove { nft_contract: nft_contract.clone(), from: from.clone(), to: to.clone(), token_id }
}

/// The events the marketplace publishes.
#[derive(Debug)]
pub enum MarketEvent {
    ListingCreated { seller: Address, token_id: u32, price: i128 },
    ListingCancelled { seller: Address, token_id: u32 },
    PriceChanged { seller: Address, token_id: u32, old_price: i128, new_price: i128 },
    Sale {
        buyer: Address,
        seller: Address,
        token_id: u32,
        price: i128,
        royalty_total: i128,
        platform_fee: i128,
    },
}

pub enum MarketEventView {
    ListingCreated { seller: Seq<char>, token_id: u32, price: i128 },
    ListingCancelled { seller: Seq<char>, token_id: u32 },
    PriceChanged { seller: Seq<char>, token_id: u32, old_price: i128, new_price: i128 },
    Sale {
        buyer: Seq<char>,
        seller: Seq<char>,
        token_id: u32,
        price: i128,
        royalty_total: i128,
        platform_fee: i128,
    },
}

impl View for MarketEvent {
    type V = MarketEventView;

    open spec fn view(&self) -> MarketEventView {
        match self {
            MarketEvent::ListingCreated { seller, token_id, price } => MarketEventView::ListingCreated {
                seller: seller@,
                token_id: *token_id,
                price: *price,
            },
            MarketEvent::ListingCancelled { seller, token_id } => MarketEventView::ListingCancelled {
                seller: seller@,
                token_id: *token_id,
            },
            MarketEvent::PriceChanged { seller, token_id, old_price, new_price } =>
                MarketEventView::PriceChanged {
                seller: seller@,
                token_id: *token_id,
                old_price: *old_price,
                new_price: *new_price,
            },
            MarketEvent::Sale { buyer, seller, token_id, price, royalty_total, platform_fee } =>
                MarketEventView::Sale {
                buyer: buyer@,
                seller: seller@,
                token_id: *token_id,
                price: *price,
                royalty_total: *royalty_total,
                platform_fee: *platform_fee,
            },
        }
    }
}

} // verus!
