//! Snapshot records read during validation.
//!
//! Every entity is a plain read-only value: validation never creates,
//! mutates, or persists a record.  An account address is modeled by [`Key`];
//! each record carries its own address in `key` next to the fields of its
//! account data, so that a validator can compare a record's address with a
//! reference held by another record.

use vstd::prelude::*;

verus! {

/// An account address.  Validation only ever compares addresses for
/// equality or inequality, so a single machine word models one.
#[derive(Clone, Copy, Debug, Hash, PartialEq, Eq, Structural)]
pub struct Key {
    pub value: u64,
}

/// A token mint: the authority configuration and supply of one token kind.
#[derive(Clone, Copy, Debug)]
pub struct Mint {
    /// Address of the mint account.
    pub key: Key,
    /// Authority allowed to mint new supply, if any.
    pub mint_authority: Option<Key>,
    /// Authority allowed to freeze token accounts, if any.
    pub freeze_authority: Option<Key>,
    /// Decimal precision of the token.
    pub decimals: u8,
    /// Current total supply.
    pub supply: u64,
}

/// A token account (vault): holds a balance of one mint for one owner.
#[derive(Clone, Copy, Debug)]
pub struct TokenAccount {
    /// Address of the token account.
    pub key: Key,
    /// Mint of the tokens held.
    pub mint: Key,
    /// Identity that owns the account.
    pub owner: Key,
    /// Balance held.
    pub amount: u64,
}

/// A pool: pairs a primary mint with a pool-controlled replica mint.
#[derive(Clone, Copy, Debug)]
pub struct Pool {
    /// Address of the pool account.
    pub key: Key,
    /// The staked (primary) mint.
    pub primary_mint: Key,
    /// The derived (replica) mint, whose authority must be the pool.
    pub replica_mint: Key,
}

/// A merge miner: one staking position per (owner, pool).
#[derive(Clone, Copy, Debug)]
pub struct MergeMiner {
    /// Address of the merge miner account.
    pub key: Key,
    /// The authenticated owner of the position.
    pub owner: Key,
    /// The pool the position belongs to.
    pub pool: Key,
    /// Outstanding replica-token balance of the position.
    pub replica_balance: u64,
}

/// A quarry: a yield-bearing staking target for one specific mint.
#[derive(Clone, Copy, Debug)]
pub struct Quarry {
    /// Address of the quarry account.
    pub key: Key,
    /// The mint staked into this quarry.
    pub token_mint_key: Key,
    /// The rewarder that owns this quarry.
    pub rewarder_key: Key,
}

/// A miner: one staking position per (authority, quarry), with its vault.
#[derive(Clone, Copy, Debug)]
pub struct Miner {
    /// Address of the miner account.
    pub key: Key,
    /// The authority staking through this miner.
    pub authority: Key,
    /// The quarry staked into.
    pub quarry_key: Key,
    /// The vault holding the staked tokens.
    pub token_vault_key: Key,
}

/// A minter: an authorization to issue rewards through a mint wrapper.
#[derive(Clone, Copy, Debug)]
pub struct Minter {
    /// Address of the minter account.
    pub key: Key,
    /// The mint wrapper this minter issues through.
    pub mint_wrapper: Key,
    /// The authority allowed to use this minter.
    pub minter_authority: Key,
}

/// A mint wrapper: names the underlying reward-token mint.
#[derive(Clone, Copy, Debug)]
pub struct MintWrapper {
    /// Address of the mint wrapper account.
    pub key: Key,
    /// The underlying reward-token mint.
    pub token_mint: Key,
}

} // verus!
