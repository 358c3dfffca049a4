//! What holds of the marketplace across its entry points.
use vstd::prelude::*;
use crate::effects::{
    TransferView, fits_i128, transfer_view, pay_if_positive, total_paid_by, lemma_total_paid_by_concat,
    lemma_pay_if_positive_total, lemma_total_paid_by_single, lemma_total_paid_by_none,
};
use crate::split::{
    payouts, weight_sum, shares_before, lemma_payouts_sum, payout_transfers, sum_ints,
    lemma_payouts_fit,
    lemma_payouts_nonnegative, lemma_payout_transfers_total, lemma_payout_transfers_from,
};
use crate::nft::state::{RoyaltyPolicyView, split_weights, split_recipients};
use crate::nft::admin::share_sum;
use crate::marketplace::errors::MarketError;
use crate::marketplace::state::{ListingView, MarketConfigView, MarketEventView, NftMoveView};
use crate::marketplace::list::{list_spec, cancel_spec, change_price_spec};
use crate::marketplace::buy::{
    BuyOrderView, buy_spec, settle_buy_spec, royalty_transfers, price_part,
};
use crate::marketplace::init_spec;

verus! {

/// The marketplace can be initialized only once.
pub proof fn lemma_init_once(
    config: MarketConfigView,
    admin: Seq<char>,
    usdc_token: Seq<char>,
    platform_address: Seq<char>,
    platform_fee_bps: u32,
)
    ensures
        config.admin is Some ==> init_spec(config, admin, usdc_token, platform_address, platform_fee_bps)
            == Err::<MarketConfigView, MarketError>(MarketError::AlreadyInitialized),
        init_spec(config, admin, usdc_token, platform_address, platform_fee_bps) matches Ok(c) ==> init_spec(
            c,
            admin,
            usdc_token,
            platform_address,
            platform_fee_bps,
        ) == Err::<MarketConfigView, MarketError>(MarketError::AlreadyInitialized),
{
}

/// A listed token sits in the marketplace's escrow: listing moves it from
/// the seller to the marketplace, and cancelling (which only its seller can
/// do) moves it back; only the seller can reprice it, which changes nothing
/// but the price.
pub proof fn lemma_listing_escrow(
    now: u64,
    market: Seq<char>,
    listed: bool,
    stored: Option<ListingView>,
    seller: Seq<char>,
    nft_contract: Seq<char>,
    token_id: u32,
    price: i128,
)
    ensures
        list_spec(now, market, listed, seller, nft_contract, token_id, price) matches Ok(p) ==> {
            &&& !listed && price > 0
            &&& p.nft_move == (NftMoveView { nft_contract, from: seller, to: market, token_id })
            &&& p.listing.seller == seller && p.listing.price == price
        },
        cancel_spec(market, stored, seller, nft_contract, token_id) matches Ok(p) ==> {
            &&& stored matches Some(l) && l.seller == seller
            &&& p.nft_move == (NftMoveView { nft_contract, from: market, to: seller, token_id })
        },
        change_price_spec(stored, seller, token_id, price) matches Ok(p) ==> {
            &&& stored matches Some(l) && l.seller == seller && p.listing == (ListingView { price, ..l })
            &&& price > 0
        },
{
}

/// Anyone can start buying a listed token once the marketplace is
/// initialized, at the platform fee it was initialized with (2.5% when none
/// is set); nothing else stops the first step of a purchase.
pub proof fn lemma_buy_needs_listing_and_settings(
    config: MarketConfigView,
    stored: Option<ListingView>,
    buyer: Seq<char>,
    nft_contract: Seq<char>,
    token_id: u32,
)
    ensures
        (buy_spec(config, stored, buyer, nft_contract, token_id) is Ok) == (stored is Some
            && config.usdc_token is Some && config.platform_address is Some),
        buy_spec(config, stored, buyer, nft_contract, token_id) matches Ok(o) ==> {
            &&& stored == Some(o.listing)
            &&& o.platform_fee_bps == (match config.platform_fee_bps {
                Some(b) => b,
                None => 250u32,
            })
        },
{
}

/// The royalty payouts of a policy whose shares add up to its total: none
/// negative, and all of the royalty paid out.
proof fn lemma_royalty_paid_in_full(usdc_token: Seq<char>, market: Seq<char>, policy: RoyaltyPolicyView, total: int)
    requires
        total >= 0,
        share_sum(policy) == policy.total_bps,
        total > 0 ==> policy.total_bps > 0,
        policy.splits.len() == 0 ==> total == 0,
    ensures
        total_paid_by(royalty_transfers(usdc_token, market, policy, total), market) == total,
{
    if total == 0 {
        return;
    }
    let w = split_weights(policy.splits);
    let n = w.len() as int;
    let p = payouts(total, w, policy.total_bps as int);
    if n == 0 {
        assert(p =~= Seq::<int>::empty());
    } else {
        if n >= 2 {
            assert(weight_sum(w, n) == weight_sum(w, n - 1) + w[n - 1]);
            lemma_payouts_nonnegative(total, w, policy.total_bps as int);
        } else {
            assert(shares_before(total, w, policy.total_bps as int, 0) == 0);
            assert(p[0] == total);
        }
        lemma_payouts_sum(total, w, policy.total_bps as int);
    }
    lemma_payout_transfers_total(usdc_token, market, split_recipients(policy.splits), p);
}

/// A sale conserves money: for a listing at a positive price and a royalty
/// policy whose shares add up to its total, the buyer pays exactly the
/// price into the marketplace, and exactly the price leaves it again, split
/// between the platform fee, the royalty recipients and the seller; the
/// token goes to the buyer.
pub proof fn lemma_sale_conserves_funds(market: Seq<char>, order: BuyOrderView, policy: RoyaltyPolicyView)
    requires
        order.listing.price > 0,
        order.buyer != market,
        share_sum(policy) == policy.total_bps,
    ensures
        settle_buy_spec(market, order, policy) matches Ok(s) ==> {
            let price = order.listing.price as int;
            let platform_fee = price_part(price, order.platform_fee_bps as int);
            let royalty_total = price_part(price, policy.total_bps as int);
            &&& 0 <= platform_fee && 0 <= royalty_total
            &&& 0 <= price - platform_fee - royalty_total
            &&& total_paid_by(s.transfers, order.buyer) == price
            &&& total_paid_by(s.transfers, market) == price
            &&& s.nft_move == (NftMoveView {
                nft_contract: order.nft_contract,
                from: market,
                to: order.buyer,
                token_id: order.token_id,
            })
        },
{
    if settle_buy_spec(market, order, policy) is Ok {
        let price = order.listing.price as int;
        let fee_bps = order.platform_fee_bps as int;
        let roy_bps = policy.total_bps as int;
        assert(price * fee_bps >= 0) by (nonlinear_arith)
            requires
                price > 0,
                fee_bps >= 0,
        ;
        assert(price * roy_bps >= 0) by (nonlinear_arith)
            requires
                price > 0,
                roy_bps >= 0,
        ;
        assert((price * fee_bps) / 10000 >= 0) by (nonlinear_arith)
            requires
                price * fee_bps >= 0,
        ;
        assert((price * roy_bps) / 10000 >= 0) by (nonlinear_arith)
            requires
                price * roy_bps >= 0,
        ;
        let platform_fee = price_part(price, fee_bps);
        let royalty_total = price_part(price, roy_bps);
        let seller_amount = price - platform_fee - royalty_total;
        let t = order.usdc_token;
        let a = seq![transfer_view(t, order.buyer, market, price)];
        let b = pay_if_positive(t, market, order.platform_address, platform_fee);
        let c = royalty_transfers(t, market, policy, royalty_total);
        let d = pay_if_positive(t, market, order.listing.seller, seller_amount);
        if policy.splits.len() == 0 {
            assert(split_weights(policy.splits) =~= Seq::<u32>::empty());
            assert(share_sum(policy) == 0);
        }
        lemma_royalty_paid_in_full(t, market, policy, royalty_total);
        lemma_total_paid_by_concat(a, b, market);
        lemma_total_paid_by_concat(a + b, c, market);
        lemma_total_paid_by_concat(a + b + c, d, market);
        lemma_total_paid_by_single(a[0], market);
        assert(a =~= seq![a[0]]);
        lemma_pay_if_positive_total(t, market, order.platform_address, platform_fee);
        lemma_pay_if_positive_total(t, market, order.listing.seller, seller_amount);
        lemma_total_paid_by_concat(a, b, order.buyer);
        lemma_total_paid_by_concat(a + b, c, order.buyer);
        lemma_total_paid_by_concat(a + b + c, d, order.buyer);
        lemma_total_paid_by_single(a[0], order.buyer);
        lemma_total_paid_by_none(b, order.buyer);
        lemma_total_paid_by_none(d, order.buyer);
        lemma_payout_transfers_from(
            t,
            market,
            split_recipients(policy.splits),
            payouts(royalty_total, split_weights(policy.splits), roy_bps),
        );
        lemma_total_paid_by_none(c, order.buyer);
    }
}

/// `init` on a marketplace not yet initialized stores exactly the settings
/// it is given, and every later purchase works with them: the token, the
/// platform address and the very fee rate passed to `init`.
pub proof fn lemma_init_settings_reach_buy(
    config: MarketConfigView,
    admin: Seq<char>,
    usdc_token: Seq<char>,
    platform_address: Seq<char>,
    platform_fee_bps: u32,
    listing: ListingView,
    buyer: Seq<char>,
    nft_contract: Seq<char>,
    token_id: u32,
)
    requires
        config.admin is None,
    ensures
        init_spec(config, admin, usdc_token, platform_address, platform_fee_bps) == Ok::<
            MarketConfigView,
            MarketError,
        >(
            MarketConfigView {
                admin: Some(admin),
                usdc_token: Some(usdc_token),
                platform_fee_bps: Some(platform_fee_bps),
                platform_address: Some(platform_address),
            },
        ),
        init_spec(config, admin, usdc_token, platform_address, platform_fee_bps) matches Ok(c) ==> buy_spec(
            c,
            Some(listing),
            buyer,
            nft_contract,
            token_id,
        ) == Ok::<BuyOrderView, MarketError>(
            BuyOrderView {
                buyer,
                nft_contract,
                token_id,
                listing,
                usdc_token,
                platform_fee_bps,
                platform_address,
            },
        ),
{
}

/// A sale goes through whenever its numbers allow it, whatever the number
/// of royalty recipients: for a positive price, a policy whose shares add
/// up to its total, products that fit in 128 bits and a fee and royalty
/// that leave the seller something not negative. The buyer pays the price
/// in; the platform gets its fee (price × fee rate / 10000, rounded down);
/// the royalty (price × policy total / 10000, rounded down) goes to the
/// recipients in their order, each but the last its share of the royalty
/// rounded down and the last the rest; the seller gets what is left; and the
/// token goes to the buyer.
pub proof fn lemma_sale_goes_through(market: Seq<char>, order: BuyOrderView, policy: RoyaltyPolicyView)
    requires
        order.listing.price > 0,
        share_sum(policy) == policy.total_bps,
        fits_i128(order.listing.price * order.platform_fee_bps),
        fits_i128(order.listing.price * policy.total_bps),
        forall|i: int|
            0 <= i < policy.splits.len() ==> fits_i128(
                ((order.listing.price * policy.total_bps) / 10000) * #[trigger] policy.splits[i].percent_bps,
            ),
        order.listing.price - (order.listing.price * order.platform_fee_bps) / 10000 - (order.listing.price
            * policy.total_bps) / 10000 >= 0,
    ensures
        ({
            let price = order.listing.price as int;
            let fee = (price * order.platform_fee_bps) / 10000;
            let royalty = (price * policy.total_bps) / 10000;
            let rest = price - fee - royalty;
            let n = policy.splits.len() as int;
            let p = payouts(royalty, split_weights(policy.splits), policy.total_bps as int);
            let pay_in = seq![
                TransferView { token: order.usdc_token, from: order.buyer, to: market, amount: price },
            ];
            let to_platform = if fee > 0 {
                seq![
                    TransferView {
                        token: order.usdc_token,
                        from: market,
                        to: order.platform_address,
                        amount: fee,
                    },
                ]
            } else {
                Seq::<TransferView>::empty()
            };
            let to_seller = if rest > 0 {
                seq![
                    TransferView {
                        token: order.usdc_token,
                        from: market,
                        to: order.listing.seller,
                        amount: rest,
                    },
                ]
            } else {
                Seq::<TransferView>::empty()
            };
            &&& settle_buy_spec(market, order, policy) is Ok
            &&& settle_buy_spec(market, order, policy) matches Ok(s) && {
                &&& royalty == 0 ==> s.transfers == pay_in + to_platform + to_seller
                &&& royalty > 0 ==> s.transfers == pay_in + to_platform + payout_transfers(
                    order.usdc_token,
                    market,
                    split_recipients(policy.splits),
                    p,
                ) + to_seller
                &&& s.nft_move == (NftMoveView {
                    nft_contract: order.nft_contract,
                    from: market,
                    to: order.buyer,
                    token_id: order.token_id,
                })
                &&& s.event == (MarketEventView::Sale {
                    buyer: order.buyer,
                    seller: order.listing.seller,
                    token_id: order.token_id,
                    price: order.listing.price,
                    royalty_total: royalty as i128,
                    platform_fee: fee as i128,
                })
            }
            &&& royalty > 0 ==> {
                &&& p.len() == n
                &&& forall|i: int|
                    0 <= i < n - 1 ==> #[trigger] p[i] == (royalty * policy.splits[i].percent_bps)
                        / (policy.total_bps as int)
                &&& sum_ints(p) == royalty
            }
        }),
{
    let price = order.listing.price as int;
    let fee_bps = order.platform_fee_bps as int;
    let roy_bps = policy.total_bps as int;
    assert(price * fee_bps >= 0) by (nonlinear_arith)
        requires
            price > 0,
            fee_bps >= 0,
    ;
    assert(price * roy_bps >= 0) by (nonlinear_arith)
        requires
            price > 0,
            roy_bps >= 0,
    ;
    let fee = (price * fee_bps) / 10000;
    let royalty = (price * roy_bps) / 10000;
    assert(0 <= fee <= price * fee_bps) by (nonlinear_arith)
        requires
            price * fee_bps >= 0,
            fee == (price * fee_bps) / 10000,
    ;
    assert(0 <= royalty <= price * roy_bps) by (nonlinear_arith)
        requires
            price * roy_bps >= 0,
            royalty == (price * roy_bps) / 10000,
    ;
    assert(price_part(price, fee_bps) == fee);
    assert(price_part(price, roy_bps) == royalty);
    let w = split_weights(policy.splits);
    let n = policy.splits.len() as int;
    if royalty > 0 {
        if roy_bps == 0 {
            assert(price * roy_bps == 0);
        }
        assert(roy_bps > 0);
        if n == 0 {
            assert(w =~= Seq::<u32>::empty());
        }
        assert forall|i: int| 0 <= i < w.len() implies fits_i128(royalty * #[trigger] w[i]) by {
            assert(w[i] == policy.splits[i].percent_bps);
        }
        lemma_payouts_fit(royalty, w, roy_bps);
        lemma_payouts_sum(royalty, w, roy_bps);
        let p = payouts(royalty, w, roy_bps);
        assert forall|i: int| 0 <= i < n - 1 implies #[trigger] p[i] == (royalty
            * policy.splits[i].percent_bps) / roy_bps by {
            assert(w[i] == policy.splits[i].percent_bps);
            assert(royalty * w[i] >= 0) by (nonlinear_arith)
                requires
                    royalty >= 0,
                    w[i] >= 0,
            ;
        }
    }
    let t = order.usdc_token;
    let rest = price - fee - royalty;
    if fee > 0 {
        assert(pay_if_positive(t, market, order.platform_address, fee) == seq![
            TransferView { token: t, from: market, to: order.platform_address, amount: fee },
        ]);
    } else {
        assert(pay_if_positive(t, market, order.platform_address, fee) == Seq::<TransferView>::empty());
    }
    if rest > 0 {
        assert(pay_if_positive(t, market, order.listing.seller, rest) == seq![
            TransferView { token: t, from: market, to: order.listing.seller, amount: rest },
        ]);
    } else {
        assert(pay_if_positive(t, market, order.listing.seller, rest) == Seq::<TransferView>::empty());
    }
    if royalty == 0 {
        let a = seq![TransferView { token: t, from: order.buyer, to: market, amount: price }];
        let b = pay_if_positive(t, market, order.platform_address, fee);
        let d = pay_if_positive(t, market, order.listing.seller, rest);
        assert(a + b + Seq::<TransferView>::empty() + d =~= a + b + d);
    }
}

/// The seller's own listing calls go through: a token not yet listed can be
/// listed at any positive price (the listing records the seller, the token,
/// the price and the time, and the token moves into the marketplace); the
/// seller of a listing can always cancel it (the token moves back to them)
/// and reprice it at any positive price (only the price changes). A price
/// that is not positive is refused with `InvalidPrice`, and anyone but the
/// seller is refused with `NotAuthorized`.
pub proof fn lemma_seller_controls_listing(
    now: u64,
    market: Seq<char>,
    seller: Seq<char>,
    other: Seq<char>,
    nft_contract: Seq<char>,
    token_id: u32,
    price: i128,
    l: ListingView,
)
    ensures
        price > 0 ==> (list_spec(now, market, false, seller, nft_contract, token_id, price) matches Ok(p) && {
            &&& p.listing == (ListingView { seller, nft_contract, token_id, price, created_at: now })
            &&& p.nft_move == (NftMoveView { nft_contract, from: seller, to: market, token_id })
            &&& p.event == (MarketEventView::ListingCreated { seller, token_id, price })
        }),
        price <= 0 ==> list_spec(now, market, false, seller, nft_contract, token_id, price) is Err
            && change_price_spec(Some(l), l.seller, token_id, price) is Err,
        cancel_spec(market, Some(l), l.seller, nft_contract, token_id) matches Ok(p) && p.nft_move == (
        NftMoveView { nft_contract, from: market, to: l.seller, token_id }) && p.event == (
        MarketEventView::ListingCancelled { seller: l.seller, token_id }),
        price > 0 ==> (change_price_spec(Some(l), l.seller, token_id, price) matches Ok(p) && p.listing == (
        ListingView {
            seller: l.seller,
            nft_contract: l.nft_contract,
            token_id: l.token_id,
            price,
            created_at: l.created_at,
        }) && p.event == (MarketEventView::PriceChanged {
            seller: l.seller,
            token_id,
            old_price: l.price,
            new_price: price,
        })),
        other != l.seller ==> cancel_spec(market, Some(l), other, nft_contract, token_id) == Err::<
            crate::marketplace::list::CancelPlanView,
            MarketError,
        >(MarketError::NotAuthorized),
        price > 0 && other != l.seller ==> change_price_spec(Some(l), other, token_id, price) == Err::<
            crate::marketplace::list::PricePlanView,
            MarketError,
        >(MarketError::NotAuthorized),
{
}

} // verus!
