use std::collections::HashMap;

use stelo::address::Address;
use stelo::nft::errors::NftError;
use stelo::nft::state::{NftConfig, RoyaltyPolicy, RoyaltySplitOnChain, TokenData, MAX_ROYALTY_BPS};
use stelo::nft::SteloNft;

// ─── A small host: instance settings and token storage ─────────────────

struct Chain {
    config: NftConfig,
    tokens: HashMap<u32, TokenData>,
    next_id: u32,
}

impl Chain {
    fn generate(&mut self) -> Address {
        self.next_id += 1;
        Address::new(format!("G{:055}", self.next_id))
    }

    fn init(&mut self, admin: &Address, marketplace: &Address) -> Result<(), NftError> {
        let out = SteloNft::init(&self.config, admin.clone(), marketplace.clone());
        self.config = out.result?;
        Ok(())
    }

    fn mint(&mut self, to: &Address, hash: [u8; 32], policy: &RoyaltyPolicy) -> Result<u32, NftError> {
        let out = SteloNft::mint(&self.config, to.clone(), hash, policy.clone());
        assert_eq!(out.auth, self.config.admin);
        let m = out.result?;
        self.tokens.insert(m.token_id, m.token);
        self.config.next_token_id = Some(m.next_token_id);
        Ok(m.token_id)
    }

    fn set_royalty_policy(&mut self, token_id: u32, policy: &RoyaltyPolicy) -> Result<(), NftError> {
        let stored = self.tokens.get(&token_id).cloned();
        let out = SteloNft::set_royalty_policy(&self.config, stored, policy.clone());
        let t = out.result?;
        self.tokens.insert(token_id, t);
        Ok(())
    }

    fn set_marketplace(&mut self, marketplace: &Address) -> Result<(), NftError> {
        let out = SteloNft::set_marketplace(&self.config, marketplace.clone());
        self.config = out.result?;
        Ok(())
    }

    fn transfer(&mut self, from: &Address, to: &Address, token_id: u32) -> Result<(), NftError> {
        let stored = self.tokens.get(&token_id).cloned();
        let out = SteloNft::transfer(from.clone(), to.clone(), stored);
        let t = out.result?;
        assert_eq!(out.auth.as_ref(), Some(from));
        self.tokens.insert(token_id, t);
        Ok(())
    }

    fn marketplace_transfer(&mut self, from: &Address, to: &Address, token_id: u32) -> Result<(), NftError> {
        let stored = self.tokens.get(&token_id).cloned();
        let out = SteloNft::marketplace_transfer(&self.config, from.clone(), to.clone(), stored);
        assert_eq!(out.auth, self.config.marketplace);
        let t = out.result?;
        self.tokens.insert(token_id, t);
        Ok(())
    }

    fn owner_of(&self, token_id: u32) -> Result<Address, NftError> {
        SteloNft::owner_of(self.tokens.get(&token_id).cloned())
    }

    fn metadata_hash(&self, token_id: u32) -> Result<[u8; 32], NftError> {
        SteloNft::metadata_hash(self.tokens.get(&token_id).cloned())
    }

    fn royalty_policy(&self, token_id: u32) -> Result<RoyaltyPolicy, NftError> {
        SteloNft::royalty_policy(self.tokens.get(&token_id).cloned())
    }
}

fn empty_policy() -> RoyaltyPolicy {
    RoyaltyPolicy { splits: vec![], total_bps: 0 }
}

fn setup() -> (Chain, Address, Address) {
    let mut chain = Chain {
        config: NftConfig { admin: None, marketplace: None, next_token_id: None },
        tokens: HashMap::new(),
        next_id: 0,
    };
    let admin = chain.generate();
    let marketplace = chain.generate();
    chain.init(&admin, &marketplace).unwrap();
    (chain, admin, marketplace)
}

#[test]
fn mint_with_no_royalty() {
    let (mut chain, _, _) = setup();
    let owner = chain.generate();
    let id = chain.mint(&owner, [0u8; 32], &empty_policy()).unwrap();
    assert_eq!(id, 1);
    assert_eq!(chain.owner_of(id), Ok(owner));
}

#[test]
fn mint_with_valid_royalty() {
    let (mut chain, _, _) = setup();
    let designer = chain.generate();
    let owner = chain.generate();
    let splits = vec![RoyaltySplitOnChain { address: designer.clone(), percent_bps: 1000 }]; // 10%
    let policy = RoyaltyPolicy { splits, total_bps: 1000 };
    let id = chain.mint(&owner, [1u8; 32], &policy).unwrap();
    let p = chain.royalty_policy(id).unwrap();
    assert_eq!(p.total_bps, 1000);
    assert_eq!(p.splits.len(), 1);
}

#[test]
fn mint_serial_increments() {
    let (mut chain, _, _) = setup();
    let owner = chain.generate();
    let id1 = chain.mint(&owner, [1u8; 32], &empty_policy()).unwrap();
    let id2 = chain.mint(&owner, [2u8; 32], &empty_policy()).unwrap();
    assert_eq!(id1, 1);
    assert_eq!(id2, 2);
}

#[test]
fn mint_rejects_royalty_over_25_percent() {
    let (mut chain, _, _) = setup();
    let owner = chain.generate();
    let recipient = chain.generate();
    let splits = vec![RoyaltySplitOnChain { address: recipient, percent_bps: 3000 }];
    let policy = RoyaltyPolicy { splits, total_bps: 3000 }; // 30% > 25% cap
    let result = chain.mint(&owner, [0u8; 32], &policy);
    assert_eq!(result, Err(NftError::InvalidRoyalty));
}

#[test]
fn mint_rejects_split_sum_mismatch() {
    let (mut chain, _, _) = setup();
    let r1 = chain.generate();
    let r2 = chain.generate();
    let splits = vec![
        RoyaltySplitOnChain { address: r1, percent_bps: 500 },
        RoyaltySplitOnChain { address: r2, percent_bps: 400 },
    ];
    let policy = RoyaltyPolicy { splits, total_bps: 1000 }; // sum=900 != 1000
    let owner = chain.generate();
    let result = chain.mint(&owner, [0u8; 32], &policy);
    assert_eq!(result, Err(NftError::InvalidSplit));
}

#[test]
fn p2p_transfer_changes_owner() {
    let (mut chain, _, _) = setup();
    let owner_a = chain.generate();
    let owner_b = chain.generate();
    let id = chain.mint(&owner_a, [0u8; 32], &empty_policy()).unwrap();
    chain.transfer(&owner_a, &owner_b, id).unwrap();
    assert_eq!(chain.owner_of(id), Ok(owner_b));
}

#[test]
fn p2p_transfer_rejects_non_owner() {
    let (mut chain, _, _) = setup();
    let owner_a = chain.generate();
    let stranger = chain.generate();
    let owner_b = chain.generate();
    let id = chain.mint(&owner_a, [0u8; 32], &empty_policy()).unwrap();
    let result = chain.transfer(&stranger, &owner_b, id);
    assert_eq!(result, Err(NftError::NotAuthorized));
}

#[test]
fn marketplace_transfer_changes_owner() {
    let (mut chain, _, _) = setup();
    let owner = chain.generate();
    let buyer = chain.generate();
    let id = chain.mint(&owner, [0u8; 32], &empty_policy()).unwrap();
    chain.marketplace_transfer(&owner, &buyer, id).unwrap();
    assert_eq!(chain.owner_of(id), Ok(buyer));
}

#[test]
fn metadata_hash_persists() {
    let (mut chain, _, _) = setup();
    let owner = chain.generate();
    let hash = [7u8; 32];
    let id = chain.mint(&owner, hash, &empty_policy()).unwrap();
    assert_eq!(chain.metadata_hash(id), Ok(hash));
}

#[test]
fn set_royalty_policy_updates_token() {
    let (mut chain, _, _) = setup();
    let owner = chain.generate();
    let id = chain.mint(&owner, [0u8; 32], &empty_policy()).unwrap();
    let recipient = chain.generate();
    let new_policy = RoyaltyPolicy {
        splits: vec![RoyaltySplitOnChain { address: recipient, percent_bps: 1500 }],
        total_bps: 1500,
    };
    chain.set_royalty_policy(id, &new_policy).unwrap();
    assert_eq!(chain.royalty_policy(id).unwrap().total_bps, 1500);
}

#[test]
fn views_reject_unknown_token() {
    let (chain, _, _) = setup();
    let result = chain.owner_of(999);
    assert_eq!(result, Err(NftError::TokenNotFound));
}

#[test]
fn test_double_init_rejected() {
    let (mut chain, _, _) = setup();
    let a = chain.generate();
    let m = chain.generate();
    let result = chain.init(&a, &m);
    assert_eq!(result, Err(NftError::AlreadyInitialized));
}

// ─── FURTHER CASES ───────────────────────────────────────────────────

#[test]
fn uninitialized_contract_refuses_admin_calls() {
    let mut chain = Chain {
        config: NftConfig { admin: None, marketplace: None, next_token_id: None },
        tokens: HashMap::new(),
        next_id: 0,
    };
    let owner = chain.generate();
    let out = SteloNft::mint(&chain.config, owner.clone(), [0u8; 32], empty_policy());
    assert!(out.auth.is_none());
    assert_eq!(out.result.err(), Some(NftError::NotInitialized));
    assert_eq!(chain.set_marketplace(&owner), Err(NftError::NotInitialized));
    assert_eq!(chain.set_royalty_policy(1, &empty_policy()), Err(NftError::NotInitialized));
    let other = chain.generate();
    assert_eq!(chain.marketplace_transfer(&owner, &other, 1), Err(NftError::NotInitialized));
}

#[test]
fn royalty_at_the_cap_is_accepted() {
    let (mut chain, _, _) = setup();
    let r1 = chain.generate();
    let r2 = chain.generate();
    let policy = RoyaltyPolicy {
        splits: vec![
            RoyaltySplitOnChain { address: r1, percent_bps: 2000 },
            RoyaltySplitOnChain { address: r2, percent_bps: 500 },
        ],
        total_bps: MAX_ROYALTY_BPS,
    };
    let owner = chain.generate();
    assert_eq!(chain.mint(&owner, [3u8; 32], &policy), Ok(1));
}

#[test]
fn overflowing_shares_are_an_invalid_royalty() {
    let (mut chain, _, _) = setup();
    let r1 = chain.generate();
    let r2 = chain.generate();
    let policy = RoyaltyPolicy {
        splits: vec![
            RoyaltySplitOnChain { address: r1, percent_bps: u32::MAX },
            RoyaltySplitOnChain { address: r2, percent_bps: 2 },
        ],
        total_bps: 1,
    };
    let owner = chain.generate();
    assert_eq!(chain.mint(&owner, [3u8; 32], &policy), Err(NftError::InvalidRoyalty));
}

#[test]
fn mint_after_the_last_id_fails() {
    let (mut chain, _, _) = setup();
    chain.config.next_token_id = Some(u32::MAX);
    let owner = chain.generate();
    assert_eq!(chain.mint(&owner, [0u8; 32], &empty_policy()), Err(NftError::InvalidSplit));
}

#[test]
fn set_royalty_policy_validates_and_needs_the_token() {
    let (mut chain, _, _) = setup();
    let r = chain.generate();
    let bad = RoyaltyPolicy { splits: vec![RoyaltySplitOnChain { address: r, percent_bps: 100 }], total_bps: 200 };
    assert_eq!(chain.set_royalty_policy(1, &bad), Err(NftError::InvalidSplit));
    assert_eq!(chain.set_royalty_policy(1, &empty_policy()), Err(NftError::TokenNotFound));
}

#[test]
fn marketplace_can_be_replaced() {
    let (mut chain, admin, old_market) = setup();
    let owner = chain.generate();
    let buyer = chain.generate();
    let id = chain.mint(&owner, [0u8; 32], &empty_policy()).unwrap();
    let new_market = chain.generate();
    chain.set_marketplace(&new_market).unwrap();
    assert_eq!(chain.config.marketplace, Some(new_market.clone()));
    assert_eq!(chain.config.admin, Some(admin));
    assert_ne!(chain.config.marketplace, Some(old_market));
    chain.marketplace_transfer(&owner, &buyer, id).unwrap();
    assert_eq!(chain.owner_of(id), Ok(buyer.clone()));
    assert_eq!(chain.marketplace_transfer(&owner, &buyer, id), Err(NftError::NotAuthorized));
}

#[test]
fn transfer_keeps_hash_and_policy() {
    let (mut chain, _, _) = setup();
    let owner = chain.generate();
    let next = chain.generate();
    let r = chain.generate();
    let policy = RoyaltyPolicy { splits: vec![RoyaltySplitOnChain { address: r, percent_bps: 250 }], total_bps: 250 };
    let id = chain.mint(&owner, [9u8; 32], &policy).unwrap();
    chain.transfer(&owner, &next, id).unwrap();
    assert_eq!(chain.metadata_hash(id), Ok([9u8; 32]));
    assert_eq!(chain.royalty_policy(id).unwrap().total_bps, 250);
    assert_eq!(chain.transfer(&owner, &next, 42), Err(NftError::TokenNotFound));
}
