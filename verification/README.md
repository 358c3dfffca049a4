# stelo

Verified models of the Stelo Soroban contracts, written in Verus.

- `src/escrow.rs` — the multi-order escrow (lock, release, refund, dispute,
  resolve by percentage, queries).
- `src/escrow_v2/` — the royalty-split escrow: up to eight beneficiaries whose
  basis-point shares add up to 10000; the last beneficiary absorbs rounding.
- `src/nft/` — the NFT registry with capped royalty policies.
- `src/marketplace/` — listing, cancelling, repricing and buying NFTs; a sale
  pays the platform fee, the royalties and the seller in one step.
- `src/split.rs` — proportional payouts shared by the escrow and the market.
- `src/effects.rs` — what an entry point asks the host to do: the
  authorization to demand, the token transfers to make.

Each entry point is a function from what the contract reads to what it does,
with a contract stating the result exactly; the `laws` modules and the
`lemma_*` functions prove what holds across entry points (funds conserved,
settled escrows final, only the parties act, token ids in sequence).

`app/` wraps the models as Soroban contracts: it reads storage, the ledger
time and the contract's address, calls the model, and performs its decisions.
