use vstd::prelude::*;
use crate::address::Address;
use crate::effects::{Ledger, Outcome, authorize, fail, result_view, option_view};
use crate::marketplace::errors::MarketError;
use crate::marketplace::state::{
    Listing, ListingView, MarketEvent, MarketEventView, NftMove, NftMoveView, make_move,
};

verus! {

/// What a successful listing leaves behind: the listing to store, the
/// move of the token into the marketplace's escrow, and the event.
pub struct ListPlan {
    pub listing: Listing,
    pub nft_move: NftMove,
    pub event: MarketEvent,
}

pub struct ListPlanView {
    pub listing: ListingView,
    pub nft_move: NftMoveView,
    pub event: MarketEventView,
}

impl View for ListPlan {
    type V = ListPlanView;

    open spec fn view(&self) -> ListPlanView {
        ListPlanView { listing: self.listing@, nft_move: self.nft_move@, event: self.event@ }
    }
}

/// `list`: the token moves from the seller into escrow and is listed at
/// `price`.
pub open spec fn list_spec(
    now: u64,
    market: Seq<char>,
    listed: bool,
    seller: Seq<char>,
    nft_contract: Seq<char>,
    token_id: u32,
    price: i128,
) -> Result<ListPlanView, MarketError> {
    if price <= 0 {
        Err(MarketError::InvalidPrice)
    } else if listed {
        Err(MarketError::AlreadyListed)
    } else {
        Ok(
            ListPlanView {
                listing: ListingView { seller, nft_contract, token_id, price, created_at: now },
                nft_move: NftMoveView { nft_contract, from: seller, to: market, token_id },
                event: MarketEventView::ListingCreated { seller, token_id, price },
            },
        )
    }
}

/// List an NFT for sale, moving it into the marketplace's escrow. `listed`
/// says whether the token is already listed. The seller must authorize the
/// call unless the price is not positive.
pub fn list(
    ledger: &Ledger,
    listed: bool,
    seller: Address,
    nft_contract: Address,
    token_id: u32,
    price: i128,
) -> (out: Outcome<ListPlan, MarketError>)
    ensures
        out.auth_view() == (if price <= 0 { None } else { Some(seller@) }),
        result_view(out.result) == list_spec(
            ledger.timestamp,
            ledger.contract@,
            listed,
            seller@,
            nft_contract@,
            token_id,
            price,
        ),
{
    if price <= 0 {
        return fail(None, MarketError::InvalidPrice);
    }
    let auth = authorize(&seller);
    if listed {
        return fail(auth, MarketError::AlreadyListed);
    }
    let nft_move = make_move(&nft_contract, &seller, &ledger.contract, token_id);
    let event = MarketEvent::ListingCreated { seller: seller.clone(), token_id, price };
    let listing = Listing { seller, nft_contract, token_id, price, created_at: ledger.timestamp };
    Outcome { auth, result: Ok(ListPlan { listing, nft_move, event }) }
}

/// What a successful cancellation leaves behind, besides the listing's
/// removal: the move of the token back to the seller, and the event.
pub struct CancelPlan {
    pub nft_move: NftMove,
    pub event: MarketEvent,
}

pub struct CancelPlanView {
    pub nft_move: NftMoveView,
    pub event: MarketEventView,
}

impl View for CancelPlan {
    type V = CancelPlanView;

    open spec fn view(&self) -> CancelPlanView {
        CancelPlanView { nft_move: self.nft_move@, event: self.event@ }
    }
}

/// `cancel`: the token goes back from escrow to its seller and the listing
/// is removed.
pub open spec fn cancel_spec(
    market: Seq<char>,
    stored: Option<ListingView>,
    seller: Seq<char>,
    nft_contract: Seq<char>,
    token_id: u32,
) -> Result<CancelPlanView, MarketError> {
    match stored {
        None => Err(MarketError::NotListed),
        Some(l) => if l.seller != seller {
            Err(MarketError::NotAuthorized)
        } else {
            Ok(
                CancelPlanView {
                    nft_move: NftMoveView { nft_contract, from: market, to: seller, token_id },
                    event: MarketEventView::ListingCancelled { seller, token_id },
                },
            )
        },
    }
}

/// Cancel a listing, returning the NFT from escrow to the seller. Only the
/// seller may cancel; the seller must authorize the call.
pub fn cancel(
    ledger: &Ledger,
    seller: Address,
    nft_contract: Address,
    token_id: u32,
    stored: Option<Listing>,
) -> (out: Outcome<CancelPlan, MarketError>)
    ensures
        out.auth_view() == Some(seller@),
        result_view(out.result) == cancel_spec(
            ledger.contract@,
            option_view(stored),
            seller@,
            nft_contract@,
            token_id,
        ),
{
    let auth = authorize(&seller);
    let listing = match stored {
        Some(l) => l,
        None => return fail(auth, MarketError::NotListed),
    };
    if !listing.seller.same_as(&seller) {
        return fail(auth, MarketError::NotAuthorized);
    }
    let nft_move = make_move(&nft_contract, &ledger.contract, &seller, token_id);
    let event = MarketEvent::ListingCancelled { seller, token_id };
    Outcome { auth, result: Ok(CancelPlan { nft_move, event }) }
}

/// What a successful repricing leaves behind: the updated listing and the
/// event.
pub struct PricePlan {
    pub listing: Listing,
    pub event: MarketEvent,
}

pub struct PricePlanView {
    pub listing: ListingView,
    pub event: MarketEventView,
}

impl View for PricePlan {
    type V = PricePlanView;

    open spec fn view(&self) -> PricePlanView {
        PricePlanView { listing: self.listing@, event: self.event@ }
    }
}

/// `change_price`: the listing at its new price, nothing else changed.
pub open spec fn change_price_spec(
    stored: Option<ListingView>,
    seller: Seq<char>,
    token_id: u32,
    new_price: i128,
) -> Result<PricePlanView, MarketError> {
    if new_price <= 0 {
        Err(MarketError::InvalidPrice)
    } else {
        match stored {
            None => Err(MarketError::NotListed),
            Some(l) => if l.seller != seller {
                Err(MarketError::NotAuthorized)
            } else {
                Ok(
                    PricePlanView {
                        listing: ListingView { price: new_price, ..l },
                        event: MarketEventView::PriceChanged {
                            seller,
                            token_id,
                            old_price: l.price,
                            new_price,
                        },
                    },
                )
            },
        }
    }
}

/// Update a listing's price. Only the seller may; the seller must
/// authorize the call.
pub fn change_price(
    seller: Address,
    token_id: u32,
    new_price: i128,
    stored: Option<Listing>,
) -> (out: Outcome<PricePlan, MarketError>)
    ensures
        out.auth_view() == Some(seller@),
        result_view(out.result) == change_price_spec(option_view(stored), seller@, token_id, new_price),
{
    let auth = authorize(&seller);
    if new_price <= 0 {
        return fail(auth, MarketError::InvalidPrice);
    }
    let mut listing = match stored {
        Some(l) => l,
        None => return fail(auth, MarketError::NotListed),
    };
    if !listing.seller.same_as(&seller) {
        return fail(auth, MarketError::NotAuthorized);
    }
    let old_price = listing.price;
    listing.price = new_price;
    let event = MarketEvent::PriceChanged { seller, token_id, old_price, new_price };
    Outcome { auth, result: Ok(PricePlan { listing, event }) }
}

} // verus!
