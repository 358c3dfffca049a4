use std::collections::HashMap;

use stelo::address::Address;
use stelo::effects::{Ledger, Transfer};
use stelo::marketplace::buy::{settle_buy, BuyOrder};
use stelo::marketplace::errors::MarketError;
use stelo::marketplace::state::{Listing, MarketConfig, MarketEvent, NftMove};
use stelo::marketplace::SteloMarketplace;
use stelo::nft::state::{NftConfig, RoyaltyPolicy, RoyaltySplitOnChain, TokenData};
use stelo::nft::SteloNft;

// ─── A small host: the marketplace, one NFT registry, token balances ────

struct Registry {
    address: Address,
    config: NftConfig,
    tokens: HashMap<u32, TokenData>,
}

struct Chain {
    now: u64,
    market: Address,
    config: MarketConfig,
    listings: HashMap<(String, u32), Listing>,
    balances: HashMap<String, i128>,
    nft: Registry,
    events: Vec<MarketEvent>,
    next_id: u32,
}

impl Chain {
    fn ledger(&self) -> Ledger {
        Ledger { timestamp: self.now, contract: self.market.clone() }
    }

    fn generate(&mut self) -> Address {
        self.next_id += 1;
        Address::new(format!("G{:055}", self.next_id))
    }

    fn balance(&self, a: &Address) -> i128 {
        *self.balances.get(&a.strkey).unwrap_or(&0)
    }

    fn mint_usdc(&mut self, to: &Address, amount: i128) {
        *self.balances.entry(to.strkey.clone()).or_insert(0) += amount;
    }

    fn pay(&mut self, transfers: &[Transfer]) {
        for t in transfers {
            assert!(t.amount > 0);
            let from = self.balances.entry(t.from.strkey.clone()).or_insert(0);
            assert!(*from >= t.amount, "insufficient balance");
            *from -= t.amount;
            *self.balances.entry(t.to.strkey.clone()).or_insert(0) += t.amount;
        }
    }

    /// The NFT contract's `marketplace_transfer`, invoked by the marketplace.
    fn move_nft(&mut self, m: &NftMove) {
        assert_eq!(m.nft_contract, self.nft.address);
        let stored = self.nft.tokens.get(&m.token_id).cloned();
        let out = SteloNft::marketplace_transfer(&self.nft.config, m.from.clone(), m.to.clone(), stored);
        assert_eq!(out.auth.as_ref(), Some(&self.market));
        let t = out.result.expect("marketplace_transfer failed");
        self.nft.tokens.insert(m.token_id, t);
    }

    fn key(nft_contract: &Address, token_id: u32) -> (String, u32) {
        (nft_contract.strkey.clone(), token_id)
    }

    fn init(&mut self, admin: &Address, usdc: &Address, platform: &Address, fee_bps: u32) -> Result<(), MarketError> {
        let out = SteloMarketplace::init(&self.config, admin.clone(), usdc.clone(), platform.clone(), fee_bps);
        self.config = out.result?;
        Ok(())
    }

    fn list(&mut self, seller: &Address, nft_contract: &Address, token_id: u32, price: i128) -> Result<(), MarketError> {
        let key = Self::key(nft_contract, token_id);
        let listed = self.listings.contains_key(&key);
        let out = SteloMarketplace::list(&self.ledger(), listed, seller.clone(), nft_contract.clone(), token_id, price);
        let plan = out.result?;
        assert_eq!(out.auth.as_ref(), Some(seller));
        self.move_nft(&plan.nft_move);
        self.listings.insert(key, plan.listing);
        self.events.push(plan.event);
        Ok(())
    }

    fn cancel(&mut self, seller: &Address, nft_contract: &Address, token_id: u32) -> Result<(), MarketError> {
        let key = Self::key(nft_contract, token_id);
        let stored = self.listings.get(&key).cloned();
        let out = SteloMarketplace::cancel(&self.ledger(), seller.clone(), nft_contract.clone(), token_id, stored);
        let plan = out.result?;
        self.move_nft(&plan.nft_move);
        self.listings.remove(&key);
        self.events.push(plan.event);
        Ok(())
    }

    fn change_price(&mut self, seller: &Address, nft_contract: &Address, token_id: u32, new_price: i128) -> Result<(), MarketError> {
        let key = Self::key(nft_contract, token_id);
        let stored = self.listings.get(&key).cloned();
        let out = SteloMarketplace::change_price(seller.clone(), token_id, new_price, stored);
        let plan = out.result?;
        self.listings.insert(key, plan.listing);
        self.events.push(plan.event);
        Ok(())
    }

    fn buy(&mut self, buyer: &Address, nft_contract: &Address, token_id: u32) -> Result<(), MarketError> {
        let key = Self::key(nft_contract, token_id);
        let stored = self.listings.get(&key).cloned();
        let out = SteloMarketplace::buy(&self.config, buyer.clone(), nft_contract.clone(), token_id, stored);
        assert_eq!(out.auth.as_ref(), Some(buyer));
        let order: BuyOrder = out.result?;
        // The NFT contract's `royalty_policy`.
        let policy = SteloNft::royalty_policy(self.nft.tokens.get(&token_id).cloned()).expect("no policy");
        let plan = settle_buy(&self.ledger(), order, policy)?;
        self.pay(&plan.transfers);
        self.move_nft(&plan.nft_move);
        self.listings.remove(&key);
        self.events.push(plan.event);
        Ok(())
    }

    fn mint_nft(&mut self, to: &Address, policy: RoyaltyPolicy) -> u32 {
        let out = SteloNft::mint(&self.nft.config, to.clone(), [5u8; 32], policy);
        let m = out.result.unwrap();
        self.nft.tokens.insert(m.token_id, m.token);
        self.nft.config.next_token_id = Some(m.next_token_id);
        m.token_id
    }

    fn nft_owner(&self, token_id: u32) -> Address {
        SteloNft::owner_of(self.nft.tokens.get(&token_id).cloned()).unwrap()
    }
}

fn empty_config() -> MarketConfig {
    MarketConfig { admin: None, usdc_token: None, platform_fee_bps: None, platform_address: None }
}

fn setup() -> (Chain, Address, Address, Address) {
    let market = Address::new("CMARKET".to_string());
    let nft_address = Address::new("CNFT".to_string());
    let nft_admin = Address::new("GNFTADMIN".to_string());
    let nft_config = SteloNft::init(
        &NftConfig { admin: None, marketplace: None, next_token_id: None },
        nft_admin,
        market.clone(),
    )
    .result
    .unwrap();
    let mut chain = Chain {
        now: 1_000_000,
        market,
        config: empty_config(),
        listings: HashMap::new(),
        balances: HashMap::new(),
        nft: Registry { address: nft_address, config: nft_config, tokens: HashMap::new() },
        events: Vec::new(),
        next_id: 0,
    };
    let admin = chain.generate();
    let platform = chain.generate();
    let usdc_token = Address::new("CUSDC".to_string());
    // 2.5% platform fee
    chain.init(&admin, &usdc_token, &platform, 250).unwrap();
    (chain, admin, platform, usdc_token)
}

#[test]
fn double_init_rejected() {
    let (mut chain, _, _, _) = setup();
    let a = chain.generate();
    let b = chain.generate();
    let c = chain.generate();
    let result = chain.init(&a, &b, &c, 250);
    assert_eq!(result, Err(MarketError::AlreadyInitialized));
}

#[test]
fn cancel_unknown_listing_rejected() {
    let (mut chain, _, _, _) = setup();
    let seller = chain.generate();
    let fake_nft = chain.generate();
    let result = chain.cancel(&seller, &fake_nft, 1);
    assert_eq!(result, Err(MarketError::NotListed));
}

#[test]
fn buy_unknown_listing_rejected() {
    let (mut chain, _, _, _) = setup();
    let buyer = chain.generate();
    let fake_nft = chain.generate();
    let result = chain.buy(&buyer, &fake_nft, 1);
    assert_eq!(result, Err(MarketError::NotListed));
}

#[test]
fn change_price_rejects_zero() {
    let (mut chain, _, _, _) = setup();
    let seller = chain.generate();
    let fake_nft = chain.generate();
    let result = chain.change_price(&seller, &fake_nft, 1, 0);
    assert_eq!(result, Err(MarketError::InvalidPrice));
}

#[test]
fn change_price_rejects_negative() {
    let (mut chain, _, _, _) = setup();
    let seller = chain.generate();
    let fake_nft = chain.generate();
    let result = chain.change_price(&seller, &fake_nft, 1, -100);
    assert_eq!(result, Err(MarketError::InvalidPrice));
}

// ─── FULL FLOWS ──────────────────────────────────────────────────────

#[test]
fn sale_pays_fee_royalties_and_seller() {
    let (mut chain, _, platform, _) = setup();
    let seller = chain.generate();
    let buyer = chain.generate();
    let designer = chain.generate();
    let artist = chain.generate();
    let policy = RoyaltyPolicy {
        splits: vec![
            RoyaltySplitOnChain { address: designer.clone(), percent_bps: 700 },
            RoyaltySplitOnChain { address: artist.clone(), percent_bps: 300 },
        ],
        total_bps: 1000,
    };
    let id = chain.mint_nft(&seller, policy);
    let nft = chain.nft.address.clone();
    chain.list(&seller, &nft, id, 1_000_0000000).unwrap();
    assert_eq!(chain.nft_owner(id), chain.market);

    chain.mint_usdc(&buyer, 2_000_0000000);
    chain.buy(&buyer, &nft, id).unwrap();

    // Fee 2.5% = 25; royalty 10% = 100 (70 + 30); seller 875.
    assert_eq!(chain.balance(&platform), 25_0000000);
    assert_eq!(chain.balance(&designer), 70_0000000);
    assert_eq!(chain.balance(&artist), 30_0000000);
    assert_eq!(chain.balance(&seller), 875_0000000);
    assert_eq!(chain.balance(&buyer), 1_000_0000000);
    assert_eq!(chain.balance(&chain.market.clone()), 0);
    assert_eq!(chain.nft_owner(id), buyer);
    assert!(chain.listings.is_empty());
    match chain.events.last().unwrap() {
        MarketEvent::Sale { price, royalty_total, platform_fee, token_id, .. } => {
            assert_eq!((*price, *royalty_total, *platform_fee, *token_id), (1_000_0000000, 100_0000000, 25_0000000, id));
        }
        e => panic!("unexpected event {:?}", e),
    }
}

#[test]
fn royalty_dust_goes_to_the_last_recipient() {
    let (mut chain, _, platform, _) = setup();
    let seller = chain.generate();
    let buyer = chain.generate();
    let r1 = chain.generate();
    let r2 = chain.generate();
    let r3 = chain.generate();
    let policy = RoyaltyPolicy {
        splits: vec![
            RoyaltySplitOnChain { address: r1.clone(), percent_bps: 333 },
            RoyaltySplitOnChain { address: r2.clone(), percent_bps: 333 },
            RoyaltySplitOnChain { address: r3.clone(), percent_bps: 334 },
        ],
        total_bps: 1000,
    };
    let id = chain.mint_nft(&seller, policy);
    let nft = chain.nft.address.clone();
    // price 101: fee 101*250/10000 = 2; royalty 101*1000/10000 = 10;
    // shares 10*333/1000 = 3, 3, and the last gets 10 - 6 = 4; seller 89.
    chain.list(&seller, &nft, id, 101).unwrap();
    chain.mint_usdc(&buyer, 101);
    chain.buy(&buyer, &nft, id).unwrap();
    assert_eq!(chain.balance(&platform), 2);
    assert_eq!(chain.balance(&r1), 3);
    assert_eq!(chain.balance(&r2), 3);
    assert_eq!(chain.balance(&r3), 4);
    assert_eq!(chain.balance(&seller), 89);
    assert_eq!(chain.balance(&chain.market.clone()), 0);
}

#[test]
fn list_cancel_returns_the_token() {
    let (mut chain, _, _, _) = setup();
    let seller = chain.generate();
    let other = chain.generate();
    let id = chain.mint_nft(&seller, RoyaltyPolicy { splits: vec![], total_bps: 0 });
    let nft = chain.nft.address.clone();
    chain.list(&seller, &nft, id, 50).unwrap();
    assert_eq!(chain.list(&seller, &nft, id, 60), Err(MarketError::AlreadyListed));
    assert_eq!(chain.cancel(&other, &nft, id), Err(MarketError::NotAuthorized));
    assert_eq!(chain.change_price(&other, &nft, id, 70), Err(MarketError::NotAuthorized));
    chain.change_price(&seller, &nft, id, 70).unwrap();
    assert_eq!(chain.listings.values().next().unwrap().price, 70);
    chain.cancel(&seller, &nft, id).unwrap();
    assert_eq!(chain.nft_owner(id), seller);
    assert!(chain.listings.is_empty());
    assert_eq!(chain.events.len(), 3);
}

#[test]
fn list_rejects_non_positive_price_without_authorization() {
    let (mut chain, _, _, _) = setup();
    let seller = chain.generate();
    let nft = chain.nft.address.clone();
    let out = SteloMarketplace::list(&chain.ledger(), false, seller, nft, 1, 0);
    assert!(out.auth.is_none());
    assert_eq!(out.result.err(), Some(MarketError::InvalidPrice));
}

#[test]
fn sale_without_royalty_and_default_fee() {
    let (mut chain, _, _, usdc) = setup();
    // A marketplace whose settings lack a fee charges the default 2.5%.
    chain.config.platform_fee_bps = None;
    let seller = chain.generate();
    let buyer = chain.generate();
    let platform = chain.config.platform_address.clone().unwrap();
    let id = chain.mint_nft(&seller, RoyaltyPolicy { splits: vec![], total_bps: 0 });
    let nft = chain.nft.address.clone();
    chain.list(&seller, &nft, id, 400).unwrap();
    chain.mint_usdc(&buyer, 400);
    chain.buy(&buyer, &nft, id).unwrap();
    assert_eq!(chain.balance(&platform), 10);
    assert_eq!(chain.balance(&seller), 390);
    assert_eq!(usdc.strkey, "CUSDC");
}

#[test]
fn buy_before_init_is_refused() {
    let (mut chain, _, _, _) = setup();
    let seller = chain.generate();
    let buyer = chain.generate();
    let id = chain.mint_nft(&seller, RoyaltyPolicy { splits: vec![], total_bps: 0 });
    let nft = chain.nft.address.clone();
    chain.list(&seller, &nft, id, 400).unwrap();
    chain.config = empty_config();
    assert_eq!(chain.buy(&buyer, &nft, id), Err(MarketError::NotInitialized));
}

#[test]
fn fee_over_the_price_is_an_invalid_split() {
    let (mut chain, _, _, _) = setup();
    chain.config.platform_fee_bps = Some(9_500);
    let seller = chain.generate();
    let buyer = chain.generate();
    let r = chain.generate();
    let policy = RoyaltyPolicy { splits: vec![RoyaltySplitOnChain { address: r, percent_bps: 1000 }], total_bps: 1000 };
    let id = chain.mint_nft(&seller, policy);
    let nft = chain.nft.address.clone();
    chain.list(&seller, &nft, id, 10_000).unwrap();
    chain.mint_usdc(&buyer, 10_000);
    assert_eq!(chain.buy(&buyer, &nft, id), Err(MarketError::InvalidSplit));
    assert_eq!(chain.balance(&buyer), 10_000);
}

#[test]
fn huge_price_overflows() {
    let (chain, _, platform, usdc) = setup();
    let seller = Address::new("S".to_string());
    let buyer = Address::new("B".to_string());
    let order = BuyOrder {
        buyer,
        nft_contract: chain.nft.address.clone(),
        token_id: 1,
        listing: Listing {
            seller,
            nft_contract: chain.nft.address.clone(),
            token_id: 1,
            price: i128::MAX,
            created_at: 0,
        },
        usdc_token: usdc,
        platform_fee_bps: 250,
        platform_address: platform,
    };
    let result = settle_buy(&chain.ledger(), order, RoyaltyPolicy { splits: vec![], total_bps: 0 });
    assert_eq!(result.err(), Some(MarketError::Overflow));
}

#[test]
fn zero_total_policy_with_several_splits_pays_no_royalty() {
    let (mut chain, _, platform, _) = setup();
    let seller = chain.generate();
    let buyer = chain.generate();
    let r1 = chain.generate();
    let r2 = chain.generate();
    let policy = RoyaltyPolicy {
        splits: vec![
            RoyaltySplitOnChain { address: r1.clone(), percent_bps: 0 },
            RoyaltySplitOnChain { address: r2.clone(), percent_bps: 0 },
        ],
        total_bps: 0,
    };
    let id = chain.mint_nft(&seller, policy);
    let nft = chain.nft.address.clone();
    chain.list(&seller, &nft, id, 1_000).unwrap();
    chain.mint_usdc(&buyer, 1_000);
    chain.buy(&buyer, &nft, id).unwrap();
    // Fee 1000 * 250 / 10000 = 25; no royalty; seller 975.
    assert_eq!(chain.balance(&platform), 25);
    assert_eq!(chain.balance(&r1), 0);
    assert_eq!(chain.balance(&r2), 0);
    assert_eq!(chain.balance(&seller), 975);
    assert_eq!(chain.balance(&buyer), 0);
    assert_eq!(chain.nft_owner(id), buyer);
    assert!(chain.listings.is_empty());
    match chain.events.last().unwrap() {
        MarketEvent::Sale { royalty_total, platform_fee, .. } => {
            assert_eq!((*royalty_total, *platform_fee), (0, 25));
        }
        e => panic!("unexpected event {:?}", e),
    }
}

#[test]
fn zero_total_policy_with_fee_over_the_price_is_an_invalid_split() {
    let (mut chain, _, _, _) = setup();
    chain.config.platform_fee_bps = Some(20_000);
    let seller = chain.generate();
    let buyer = chain.generate();
    let r1 = chain.generate();
    let r2 = chain.generate();
    let policy = RoyaltyPolicy {
        splits: vec![
            RoyaltySplitOnChain { address: r1, percent_bps: 0 },
            RoyaltySplitOnChain { address: r2, percent_bps: 0 },
        ],
        total_bps: 0,
    };
    let id = chain.mint_nft(&seller, policy);
    let nft = chain.nft.address.clone();
    chain.list(&seller, &nft, id, 1_000).unwrap();
    chain.mint_usdc(&buyer, 1_000);
    assert_eq!(chain.buy(&buyer, &nft, id), Err(MarketError::InvalidSplit));
    assert_eq!(chain.balance(&buyer), 1_000);
    assert_eq!(chain.listings.len(), 1);
    assert_eq!(chain.nft_owner(id), chain.market);
}
