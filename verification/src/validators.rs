//! One typed context per operation, each with its `validate` method, and
//! the uniform entry point [`validate`].
//!
//! Every `validate` is a pure, stateless, single-pass function over one
//! read-only snapshot: its result is exactly the value of the matching
//! `spec_validate`, which evaluates a fixed, documented sequence of checks
//! and stops at the first failure.  Each context also carries a spec-level
//! `checks` sequence listing those checks in evaluation order; the lemmas
//! in [`crate::laws`] prove that `spec_validate` is its first failure.

use crate::checks::check_invariant;
use crate::checks::check_keys_eq;
use crate::checks::spec_check_invariant;
use crate::checks::spec_check_keys_eq;
use crate::failure::ValidationFailure;
use crate::model::Key;
use crate::model::MergeMiner;
use crate::model::Miner;
use crate::model::Mint;
use crate::model::MintWrapper;
use crate::model::Minter;
use crate::model::Pool;
use crate::model::Quarry;
use crate::model::TokenAccount;
use vstd::prelude::*;

verus! {

/// Context of pool creation: the new pool's address and the data of its
/// primary and replica mints.
#[derive(Clone, Copy, Debug)]
pub struct NewPool {
    /// Address of the pool being created.
    pub pool: Key,
    /// Data of the primary mint.
    pub primary_mint: Mint,
    /// Data of the replica mint.
    pub replica_mint: Mint,
}

impl NewPool {
    /// The check sequence of pool creation, in evaluation order.
    pub open spec fn checks(self) -> Seq<Result<(), ValidationFailure>> {
        seq![
            spec_check_invariant(
                self.replica_mint.mint_authority == Some(self.pool),
                ValidationFailure::InvalidMintConfiguration {
                    label: "replica_mint.mint_authority",
                },
            ),
            spec_check_invariant(
                self.replica_mint.freeze_authority is None,
                ValidationFailure::InvalidMintConfiguration {
                    label: "cannot have freeze authority",
                },
            ),
            spec_check_invariant(
                self.replica_mint.decimals == self.primary_mint.decimals,
                ValidationFailure::InvalidMintConfiguration { label: "decimals mismatch" },
            ),
            spec_check_invariant(
                self.replica_mint.supply == 0,
                ValidationFailure::InvalidMintConfiguration { label: "replica must have zero supply" },
            ),
        ]
    }

    /// What [`NewPool::validate`] returns.
    pub open spec fn spec_validate(self) -> Result<(), ValidationFailure> {
        if self.replica_mint.mint_authority != Some(self.pool) {
            Err(ValidationFailure::InvalidMintConfiguration { label: "replica_mint.mint_authority" })
        } else if !(self.replica_mint.freeze_authority is None) {
            Err(ValidationFailure::InvalidMintConfiguration { label: "cannot have freeze authority" })
        } else if self.replica_mint.decimals != self.primary_mint.decimals {
            Err(ValidationFailure::InvalidMintConfiguration { label: "decimals mismatch" })
        } else if self.replica_mint.supply != 0 {
            Err(ValidationFailure::InvalidMintConfiguration { label: "replica must have zero supply" })
        } else {
            Ok(())
        }
    }

    /// Pool creation is valid when the replica mint is configured exactly
    /// as a pool-controlled mint: its mint authority is the pool, it has
    /// no freeze authority, its decimals match the primary mint, and its
    /// supply is zero.
    pub fn validate(&self) -> (r: Result<(), ValidationFailure>)
        ensures
            r == self.spec_validate(),
    {
        let authority_is_pool: bool = match self.replica_mint.mint_authority {
            Some(authority) => authority == self.pool,
            None => false,
        };
        let step = check_invariant(
            authority_is_pool,
            ValidationFailure::InvalidMintConfiguration { label: "replica_mint.mint_authority" },
        );
        if step.is_err() {
            return step;
        }
        let step = check_invariant(
            self.replica_mint.freeze_authority.is_none(),
            ValidationFailure::InvalidMintConfiguration { label: "cannot have freeze authority" },
        );
        if step.is_err() {
            return step;
        }
        let step = check_invariant(
            self.replica_mint.decimals == self.primary_mint.decimals,
            ValidationFailure::InvalidMintConfiguration { label: "decimals mismatch" },
        );
        if step.is_err() {
            return step;
        }
        let step = check_invariant(
            self.replica_mint.supply == 0,
            ValidationFailure::InvalidMintConfiguration { label: "replica must have zero supply" },
        );
        if step.is_err() {
            return step;
        }
        Ok(())
    }
}

/// Context of merge-miner initialization: the pool, the owner, and the
/// position being created.
#[derive(Clone, Copy, Debug)]
pub struct InitMergeMiner {
    /// Address of the pool.
    pub pool: Key,
    /// The authenticated owner of the new position.
    pub owner: Key,
    /// Address of the merge miner being created.
    pub mm: Key,
}

impl InitMergeMiner {
    /// Merge-miner initialization runs no structural checks at this layer.
    pub open spec fn checks(self) -> Seq<Result<(), ValidationFailure>> {
        Seq::empty()
    }

    /// What [`InitMergeMiner::validate`] returns.
    pub open spec fn spec_validate(self) -> Result<(), ValidationFailure> {
        Ok(())
    }

    /// Accepts unconditionally: the deeper checks belong to the
    /// account-creation mechanics, which are outside this crate.
    pub fn validate(&self) -> (r: Result<(), ValidationFailure>)
        ensures
            r == self.spec_validate(),
    {
        Ok(())
    }
}

/// Context of miner initialization: the pool, the merge miner staking
/// through it, the new miner, and the quarry it stakes into.
#[derive(Clone, Copy, Debug)]
pub struct InitMiner {
    /// Data of the pool.
    pub pool: Pool,
    /// Data of the merge miner.
    pub mm: MergeMiner,
    /// Address of the miner being created.
    pub miner: Key,
    /// Data of the quarry staked into.
    pub quarry: Quarry,
    /// Address of the rewarder owning the quarry.
    pub rewarder: Key,
    /// Data of the new miner's vault.
    pub miner_vault: TokenAccount,
}

impl InitMiner {
    /// The check sequence of miner initialization, in evaluation order.
    pub open spec fn checks(self) -> Seq<Result<(), ValidationFailure>> {
        seq![
            spec_check_invariant(
                self.quarry.token_mint_key == self.pool.primary_mint
                    || self.quarry.token_mint_key == self.pool.replica_mint,
                ValidationFailure::InvalidStakingMint { label: "quarry.token_mint_key" },
            ),
            spec_check_keys_eq(self.mm.pool, self.pool.key, "mm.pool / pool"),
            spec_check_keys_eq(self.quarry.rewarder_key, self.rewarder, "quarry.rewarder_key / rewarder"),
            spec_check_keys_eq(self.miner_vault.owner, self.miner, "miner_vault.owner / miner"),
            spec_check_keys_eq(
                self.miner_vault.mint,
                self.quarry.token_mint_key,
                "miner_vault.mint / quarry.token_mint_key",
            ),
        ]
    }

    /// What [`InitMiner::validate`] returns.
    pub open spec fn spec_validate(self) -> Result<(), ValidationFailure> {
        if !(self.quarry.token_mint_key == self.pool.primary_mint
            || self.quarry.token_mint_key == self.pool.replica_mint) {
            Err(ValidationFailure::InvalidStakingMint { label: "quarry.token_mint_key" })
        } else if self.mm.pool != self.pool.key {
            Err(ValidationFailure::IdentityMismatch {
                label: "mm.pool / pool",
                left: self.mm.pool,
                right: self.pool.key,
            })
        } else if self.quarry.rewarder_key != self.rewarder {
            Err(ValidationFailure::IdentityMismatch {
                label: "quarry.rewarder_key / rewarder",
                left: self.quarry.rewarder_key,
                right: self.rewarder,
            })
        } else if self.miner_vault.owner != self.miner {
            Err(ValidationFailure::IdentityMismatch {
                label: "miner_vault.owner / miner",
                left: self.miner_vault.owner,
                right: self.miner,
            })
        } else if self.miner_vault.mint != self.quarry.token_mint_key {
            Err(ValidationFailure::IdentityMismatch {
                label: "miner_vault.mint / quarry.token_mint_key",
                left: self.miner_vault.mint,
                right: self.quarry.token_mint_key,
            })
        } else {
            Ok(())
        }
    }

    /// Miner initialization is valid when the quarry stakes one of the
    /// pool's two mints, the merge miner belongs to the context pool, the
    /// quarry belongs to the context rewarder, and the new miner's vault
    /// is owned by the miner and holds the quarry's staked mint.
    pub fn validate(&self) -> (r: Result<(), ValidationFailure>)
        ensures
            r == self.spec_validate(),
    {
        let step = check_invariant(
            self.quarry.token_mint_key == self.pool.primary_mint
                || self.quarry.token_mint_key == self.pool.replica_mint,
            ValidationFailure::InvalidStakingMint { label: "quarry.token_mint_key" },
        );
        if step.is_err() {
            return step;
        }
        let step = check_keys_eq(self.mm.pool, self.pool.key, "mm.pool / pool");
        if step.is_err() {
            return step;
        }
        let step = check_keys_eq(
            self.quarry.rewarder_key,
            self.rewarder,
            "quarry.rewarder_key / rewarder",
        );
        if step.is_err() {
            return step;
        }
        let step = check_keys_eq(self.miner_vault.owner, self.miner, "miner_vault.owner / miner");
        if step.is_err() {
            return step;
        }
        let step = check_keys_eq(
            self.miner_vault.mint,
            self.quarry.token_mint_key,
            "miner_vault.mint / quarry.token_mint_key",
        );
        if step.is_err() {
            return step;
        }
        Ok(())
    }
}

/// Shared context of every staking operation: the pool, the merge miner,
/// and the (rewarder, quarry, miner, vault) lineage staked through.
#[derive(Clone, Copy, Debug)]
pub struct QuarryStake {
    /// Data of the pool.
    pub pool: Pool,
    /// Data of the merge miner.
    pub mm: MergeMiner,
    /// Address of the rewarder.
    pub rewarder: Key,
    /// Data of the quarry staked into.
    pub quarry: Quarry,
    /// Data of the miner staking into the quarry.
    pub miner: Miner,
    /// Data of the miner's vault.
    pub miner_vault: TokenAccount,
}

impl QuarryStake {
    /// The shared check sequence of every staking operation, in
    /// evaluation order.
    pub open spec fn checks(self) -> Seq<Result<(), ValidationFailure>> {
        seq![
            spec_check_keys_eq(self.mm.pool, self.pool.key, "mm.pool"),
            spec_check_keys_eq(self.rewarder, self.quarry.rewarder_key, "rewarder / quarry.rewarder_key"),
            spec_check_keys_eq(self.quarry.key, self.miner.quarry_key, "quarry / miner.quarry_key"),
            spec_check_keys_eq(self.miner.authority, self.mm.key, "miner.authority"),
            spec_check_keys_eq(
                self.miner_vault.key,
                self.miner.token_vault_key,
                "miner_vault / miner.token_vault_key",
            ),
            spec_check_keys_eq(self.miner_vault.owner, self.miner.key, "miner_vault.owner / miner"),
        ]
    }

    /// What [`QuarryStake::validate`] returns.
    pub open spec fn spec_validate(self) -> Result<(), ValidationFailure> {
        if self.mm.pool != self.pool.key {
            Err(ValidationFailure::IdentityMismatch {
                label: "mm.pool",
                left: self.mm.pool,
                right: self.pool.key,
            })
        } else if self.rewarder != self.quarry.rewarder_key {
            Err(ValidationFailure::IdentityMismatch {
                label: "rewarder / quarry.rewarder_key",
                left: self.rewarder,
                right: self.quarry.rewarder_key,
            })
        } else if self.quarry.key != self.miner.quarry_key {
            Err(ValidationFailure::IdentityMismatch {
                label: "quarry / miner.quarry_key",
                left: self.quarry.key,
                right: self.miner.quarry_key,
            })
        } else if self.miner.authority != self.mm.key {
            Err(ValidationFailure::IdentityMismatch {
                label: "miner.authority",
                left: self.miner.authority,
                right: self.mm.key,
            })
        } else if self.miner_vault.key != self.miner.token_vault_key {
            Err(ValidationFailure::IdentityMismatch {
                label: "miner_vault / miner.token_vault_key",
                left: self.miner_vault.key,
                right: self.miner.token_vault_key,
            })
        } else if self.miner_vault.owner != self.miner.key {
            Err(ValidationFailure::IdentityMismatch {
                label: "miner_vault.owner / miner",
                left: self.miner_vault.owner,
                right: self.miner.key,
            })
        } else {
            Ok(())
        }
    }

    /// The skeleton shared by every staking operation is valid when the
    /// merge miner belongs to the context pool, the quarry belongs to the
    /// context rewarder, the miner stakes into that quarry on behalf of
    /// the merge miner, and the context vault is the miner's vault, owned
    /// by the miner.
    pub fn validate(&self) -> (r: Result<(), ValidationFailure>)
        ensures
            r == self.spec_validate(),
    {
        let step = check_keys_eq(self.mm.pool, self.pool.key, "mm.pool");
        if step.is_err() {
            return step;
        }
        let step = check_keys_eq(
            self.rewarder,
            self.quarry.rewarder_key,
            "rewarder / quarry.rewarder_key",
        );
        if step.is_err() {
            return step;
        }
        let step = check_keys_eq(self.quarry.key, self.miner.quarry_key, "quarry / miner.quarry_key");
        if step.is_err() {
            return step;
        }
        let step = check_keys_eq(self.miner.authority, self.mm.key, "miner.authority");
        if step.is_err() {
            return step;
        }
        let step = check_keys_eq(
            self.miner_vault.key,
            self.miner.token_vault_key,
            "miner_vault / miner.token_vault_key",
        );
        if step.is_err() {
            return step;
        }
        let step = check_keys_eq(self.miner_vault.owner, self.miner.key, "miner_vault.owner / miner");
        if step.is_err() {
            return step;
        }
        Ok(())
    }
}

/// Context of a token withdrawal from a merge-miner position.
#[derive(Clone, Copy, Debug)]
pub struct WithdrawTokens {
    /// The authenticated caller.
    pub owner: Key,
    /// Data of the pool.
    pub pool: Pool,
    /// Data of the merge miner withdrawn from.
    pub mm: MergeMiner,
    /// Address of the mint being withdrawn.
    pub withdraw_mint: Key,
    /// Data of the merge miner's source token account.
    pub mm_token_account: TokenAccount,
    /// Data of the destination token account.
    pub token_destination: TokenAccount,
}

impl WithdrawTokens {
    /// The check sequence of a withdrawal, in evaluation order.  The
    /// withdrawal mint of the later checks is the source account's mint.
    pub open spec fn checks(self) -> Seq<Result<(), ValidationFailure>> {
        seq![
            spec_check_keys_eq(self.withdraw_mint, self.mm_token_account.mint, "withdraw_mint"),
            spec_check_invariant(
                self.withdraw_mint != self.pool.replica_mint,
                ValidationFailure::CannotWithdrawDerivedMint {
                    label: "cannot withdraw the pool's replica mint",
                },
            ),
            spec_check_invariant(
                self.mm_token_account.mint == self.pool.primary_mint ==> self.mm.replica_balance == 0,
                ValidationFailure::OutstandingDerivedBalance { label: "outstanding replica balance" },
            ),
            spec_check_keys_eq(self.owner, self.mm.owner, "owner / mm.owner"),
            spec_check_keys_eq(self.pool.key, self.mm.pool, "pool / mm.pool"),
            // The withdrawal mint of this sequence is the source account's
            // own mint, so this check can never fail; it stays in the
            // sequence because the source account's mint is re-checked
            // against the withdrawal mint as a documented step.
            spec_check_keys_eq(self.mm_token_account.mint, self.mm_token_account.mint, "mm_token_account.mint"),
            spec_check_keys_eq(self.mm_token_account.owner, self.mm.key, "mm_token_account.owner / mm"),
            spec_check_keys_eq(self.token_destination.mint, self.mm_token_account.mint, "token_destination.mint"),
        ]
    }

    /// What [`WithdrawTokens::validate`] returns.
    pub open spec fn spec_validate(self) -> Result<(), ValidationFailure> {
        if self.withdraw_mint != self.mm_token_account.mint {
            Err(ValidationFailure::IdentityMismatch {
                label: "withdraw_mint",
                left: self.withdraw_mint,
                right: self.mm_token_account.mint,
            })
        } else if self.withdraw_mint == self.pool.replica_mint {
            Err(ValidationFailure::CannotWithdrawDerivedMint {
                label: "cannot withdraw the pool's replica mint",
            })
        } else if self.mm_token_account.mint == self.pool.primary_mint && self.mm.replica_balance
            != 0 {
            Err(ValidationFailure::OutstandingDerivedBalance { label: "outstanding replica balance" })
        } else if self.owner != self.mm.owner {
            Err(ValidationFailure::IdentityMismatch {
                label: "owner / mm.owner",
                left: self.owner,
                right: self.mm.owner,
            })
        } else if self.pool.key != self.mm.pool {
            Err(ValidationFailure::IdentityMismatch {
                label: "pool / mm.pool",
                left: self.pool.key,
                right: self.mm.pool,
            })
        } else if self.mm_token_account.owner != self.mm.key {
            Err(ValidationFailure::IdentityMismatch {
                label: "mm_token_account.owner / mm",
                left: self.mm_token_account.owner,
                right: self.mm.key,
            })
        } else if self.token_destination.mint != self.mm_token_account.mint {
            Err(ValidationFailure::IdentityMismatch {
                label: "token_destination.mint",
                left: self.token_destination.mint,
                right: self.mm_token_account.mint,
            })
        } else {
            Ok(())
        }
    }

    /// A withdrawal is valid when the context mint is the source
    /// account's mint, that mint is not the pool's replica mint (a
    /// replica withdrawal is always forbidden), a primary-mint withdrawal
    /// finds a zero replica balance, the caller owns the merge miner, the
    /// merge miner belongs to the context pool, and the source and
    /// destination accounts carry the withdrawal mint, the source owned
    /// by the merge miner.
    pub fn validate(&self) -> (r: Result<(), ValidationFailure>)
        ensures
            r == self.spec_validate(),
    {
        let withdraw_mint: Key = self.mm_token_account.mint;
        let step = check_keys_eq(self.withdraw_mint, withdraw_mint, "withdraw_mint");
        if step.is_err() {
            return step;
        }
        let step = check_invariant(
            self.withdraw_mint != self.pool.replica_mint,
            ValidationFailure::CannotWithdrawDerivedMint {
                label: "cannot withdraw the pool's replica mint",
            },
        );
        if step.is_err() {
            return step;
        }
        if withdraw_mint == self.pool.primary_mint {
            // A primary withdrawal requires no outstanding replica balance.
            let step = check_invariant(
                self.mm.replica_balance == 0,
                ValidationFailure::OutstandingDerivedBalance { label: "outstanding replica balance" },
            );
            if step.is_err() {
                return step;
            }
        }
        let step = check_keys_eq(self.owner, self.mm.owner, "owner / mm.owner");
        if step.is_err() {
            return step;
        }
        let step = check_keys_eq(self.pool.key, self.mm.pool, "pool / mm.pool");
        if step.is_err() {
            return step;
        }
        let step = check_keys_eq(self.mm_token_account.mint, withdraw_mint, "mm_token_account.mint");
        if step.is_err() {
            return step;
        }
        let step = check_keys_eq(self.mm_token_account.owner, self.mm.key, "mm_token_account.owner / mm");
        if step.is_err() {
            return step;
        }
        let step = check_keys_eq(self.token_destination.mint, withdraw_mint, "token_destination.mint");
        if step.is_err() {
            return step;
        }
        Ok(())
    }
}

/// Context of a reward claim: the shared staking skeleton plus the reward
/// issuance chain and the reward destination and fee accounts.
#[derive(Clone, Copy, Debug)]
pub struct ClaimRewards {
    /// The shared staking skeleton.
    pub stake: QuarryStake,
    /// Data of the mint wrapper issuing the reward token.
    pub mint_wrapper: MintWrapper,
    /// Data of the minter authorizing the claim.
    pub minter: Minter,
    /// Address of the reward-token mint.
    pub rewards_token_mint: Key,
    /// Data of the account receiving the rewards.
    pub rewards_token_account: TokenAccount,
    /// Data of the account receiving the claim fee.
    pub claim_fee_token_account: TokenAccount,
    /// Data of the staked-token account.
    pub stake_token_account: TokenAccount,
}

impl ClaimRewards {
    /// The checks of a reward claim that follow the shared skeleton, in
    /// evaluation order.
    pub open spec fn own_checks(self) -> Seq<Result<(), ValidationFailure>> {
        seq![
            spec_check_keys_eq(
                self.minter.mint_wrapper,
                self.mint_wrapper.key,
                "minter.mint_wrapper / mint_wrapper",
            ),
            spec_check_keys_eq(
                self.minter.minter_authority,
                self.stake.rewarder,
                "minter.minter_authority / stake.rewarder",
            ),
            spec_check_keys_eq(
                self.rewards_token_mint,
                self.mint_wrapper.token_mint,
                "rewards_token_mint / mint_wrapper.token_mint",
            ),
            spec_check_keys_eq(
                self.rewards_token_account.mint,
                self.rewards_token_mint,
                "rewards_token_account.mint / rewards_token_mint",
            ),
            spec_check_keys_eq(
                self.rewards_token_account.owner,
                self.stake.mm.key,
                "rewards_token_account.owner / stake.mm",
            ),
            spec_check_keys_eq(
                self.claim_fee_token_account.mint,
                self.rewards_token_mint,
                "claim_fee_token_account.mint / rewards_token_mint",
            ),
            spec_check_keys_eq(
                self.stake_token_account.mint,
                self.stake.quarry.token_mint_key,
                "stake_token_account.mint / stake.quarry.token_mint_key",
            ),
        ]
    }

    /// The full check sequence of a reward claim: the shared skeleton's
    /// checks, then this operation's own.
    pub open spec fn checks(self) -> Seq<Result<(), ValidationFailure>> {
        self.stake.checks() + self.own_checks()
    }

    /// What [`ClaimRewards::validate`] returns.
    pub open spec fn spec_validate(self) -> Result<(), ValidationFailure> {
        if self.stake.spec_validate() is Err {
            self.stake.spec_validate()
        } else if self.minter.mint_wrapper != self.mint_wrapper.key {
            Err(ValidationFailure::IdentityMismatch {
                label: "minter.mint_wrapper / mint_wrapper",
                left: self.minter.mint_wrapper,
                right: self.mint_wrapper.key,
            })
        } else if self.minter.minter_authority != self.stake.rewarder {
            Err(ValidationFailure::IdentityMismatch {
                label: "minter.minter_authority / stake.rewarder",
                left: self.minter.minter_authority,
                right: self.stake.rewarder,
            })
        } else if self.rewards_token_mint != self.mint_wrapper.token_mint {
            Err(ValidationFailure::IdentityMismatch {
                label: "rewards_token_mint / mint_wrapper.token_mint",
                left: self.rewards_token_mint,
                right: self.mint_wrapper.token_mint,
            })
        } else if self.rewards_token_account.mint != self.rewards_token_mint {
            Err(ValidationFailure::IdentityMismatch {
                label: "rewards_token_account.mint / rewards_token_mint",
                left: self.rewards_token_account.mint,
                right: self.rewards_token_mint,
            })
        } else if self.rewards_token_account.owner != self.stake.mm.key {
            Err(ValidationFailure::IdentityMismatch {
                label: "rewards_token_account.owner / stake.mm",
                left: self.rewards_token_account.owner,
                right: self.stake.mm.key,
            })
        } else if self.claim_fee_token_account.mint != self.rewards_token_mint {
            Err(ValidationFailure::IdentityMismatch {
                label: "claim_fee_token_account.mint / rewards_token_mint",
                left: self.claim_fee_token_account.mint,
                right: self.rewards_token_mint,
            })
        } else if self.stake_token_account.mint != self.stake.quarry.token_mint_key {
            Err(ValidationFailure::IdentityMismatch {
                label: "stake_token_account.mint / stake.quarry.token_mint_key",
                left: self.stake_token_account.mint,
                right: self.stake.quarry.token_mint_key,
            })
        } else {
            Ok(())
        }
    }

    /// A reward claim is valid when the shared skeleton is, the minter is
    /// authorized by the staking rewarder through the context mint
    /// wrapper, the reward mint is the wrapper's underlying mint, the
    /// destination and fee accounts carry the reward mint with the
    /// destination owned by the merge miner, and the stake token account
    /// carries the quarry's staked mint.
    pub fn validate(&self) -> (r: Result<(), ValidationFailure>)
        ensures
            r == self.spec_validate(),
    {
        let step = self.stake.validate();
        if step.is_err() {
            return step;
        }
        let step = check_keys_eq(
            self.minter.mint_wrapper,
            self.mint_wrapper.key,
            "minter.mint_wrapper / mint_wrapper",
        );
        if step.is_err() {
            return step;
        }
        let step = check_keys_eq(
            self.minter.minter_authority,
            self.stake.rewarder,
            "minter.minter_authority / stake.rewarder",
        );
        if step.is_err() {
            return step;
        }
        let step = check_keys_eq(
            self.rewards_token_mint,
            self.mint_wrapper.token_mint,
            "rewards_token_mint / mint_wrapper.token_mint",
        );
        if step.is_err() {
            return step;
        }
        let step = check_keys_eq(
            self.rewards_token_account.mint,
            self.rewards_token_mint,
            "rewards_token_account.mint / rewards_token_mint",
        );
        if step.is_err() {
            return step;
        }
        let step = check_keys_eq(
            self.rewards_token_account.owner,
            self.stake.mm.key,
            "rewards_token_account.owner / stake.mm",
        );
        if step.is_err() {
            return step;
        }
        let step = check_keys_eq(
            self.claim_fee_token_account.mint,
            self.rewards_token_mint,
            "claim_fee_token_account.mint / rewards_token_mint",
        );
        if step.is_err() {
            return step;
        }
        let step = check_keys_eq(
            self.stake_token_account.mint,
            self.stake.quarry.token_mint_key,
            "stake_token_account.mint / stake.quarry.token_mint_key",
        );
        if step.is_err() {
            return step;
        }
        Ok(())
    }
}

/// Context of staking the pool's primary mint.
#[derive(Clone, Copy, Debug)]
pub struct QuarryStakePrimary {
    /// The authenticated owner of the merge miner.
    pub mm_owner: Key,
    /// Data of the merge miner's primary-token account.
    pub mm_primary_token_account: TokenAccount,
    /// The shared staking skeleton.
    pub stake: QuarryStake,
}

impl QuarryStakePrimary {
    /// The checks of primary staking that follow the shared skeleton, in
    /// evaluation order.
    pub open spec fn own_checks(self) -> Seq<Result<(), ValidationFailure>> {
        seq![
            spec_check_keys_eq(self.mm_owner, self.stake.mm.owner, "mm_owner"),
            spec_check_keys_eq(
                self.stake.quarry.token_mint_key,
                self.stake.pool.primary_mint,
                "stake.quarry.token_mint_key",
            ),
            spec_check_keys_eq(
                self.mm_primary_token_account.mint,
                self.stake.pool.primary_mint,
                "mm_primary_token_account.mint / stake.pool.primary_mint",
            ),
            spec_check_keys_eq(
                self.mm_primary_token_account.owner,
                self.stake.mm.key,
                "mm_primary_token_account.owner / stake.mm",
            ),
        ]
    }

    /// The full check sequence of primary staking.
    pub open spec fn checks(self) -> Seq<Result<(), ValidationFailure>> {
        self.stake.checks() + self.own_checks()
    }

    /// What [`QuarryStakePrimary::validate`] returns.
    pub open spec fn spec_validate(self) -> Result<(), ValidationFailure> {
        if self.stake.spec_validate() is Err {
            self.stake.spec_validate()
        } else if self.mm_owner != self.stake.mm.owner {
            Err(ValidationFailure::IdentityMismatch {
                label: "mm_owner",
                left: self.mm_owner,
                right: self.stake.mm.owner,
            })
        } else if self.stake.quarry.token_mint_key != self.stake.pool.primary_mint {
            Err(ValidationFailure::IdentityMismatch {
                label: "stake.quarry.token_mint_key",
                left: self.stake.quarry.token_mint_key,
                right: self.stake.pool.primary_mint,
            })
        } else if self.mm_primary_token_account.mint != self.stake.pool.primary_mint {
            Err(ValidationFailure::IdentityMismatch {
                label: "mm_primary_token_account.mint / stake.pool.primary_mint",
                left: self.mm_primary_token_account.mint,
                right: self.stake.pool.primary_mint,
            })
        } else if self.mm_primary_token_account.owner != self.stake.mm.key {
            Err(ValidationFailure::IdentityMismatch {
                label: "mm_primary_token_account.owner / stake.mm",
                left: self.mm_primary_token_account.owner,
                right: self.stake.mm.key,
            })
        } else {
            Ok(())
        }
    }

    /// Primary staking is valid when the shared skeleton is, the caller
    /// owns the merge miner, the quarry stakes the pool's primary mint,
    /// and the primary-token account carries that mint and is owned by
    /// the merge miner.
    pub fn validate(&self) -> (r: Result<(), ValidationFailure>)
        ensures
            r == self.spec_validate(),
    {
        let step = self.stake.validate();
        if step.is_err() {
            return step;
        }
        let step = check_keys_eq(self.mm_owner, self.stake.mm.owner, "mm_owner");
        if step.is_err() {
            return step;
        }
        let step = check_keys_eq(
            self.stake.quarry.token_mint_key,
            self.stake.pool.primary_mint,
            "stake.quarry.token_mint_key",
        );
        if step.is_err() {
            return step;
        }
        let step = check_keys_eq(
            self.mm_primary_token_account.mint,
            self.stake.pool.primary_mint,
            "mm_primary_token_account.mint / stake.pool.primary_mint",
        );
        if step.is_err() {
            return step;
        }
        let step = check_keys_eq(
            self.mm_primary_token_account.owner,
            self.stake.mm.key,
            "mm_primary_token_account.owner / stake.mm",
        );
        if step.is_err() {
            return step;
        }
        Ok(())
    }
}

/// Context of staking the pool's derived (replica) mint.
#[derive(Clone, Copy, Debug)]
pub struct QuarryStakeReplica {
    /// The authenticated owner of the merge miner.
    pub mm_owner: Key,
    /// Address of the replica mint staked.
    pub replica_mint: Key,
    /// Data of the merge miner's replica-token account.
    pub replica_mint_token_account: TokenAccount,
    /// The shared staking skeleton.
    pub stake: QuarryStake,
}

impl QuarryStakeReplica {
    /// The checks of replica staking that follow the shared skeleton, in
    /// evaluation order.
    pub open spec fn own_checks(self) -> Seq<Result<(), ValidationFailure>> {
        seq![
            spec_check_keys_eq(self.mm_owner, self.stake.mm.owner, "mm_owner"),
            spec_check_keys_eq(self.stake.pool.replica_mint, self.replica_mint, "stake.pool.replica_mint"),
            spec_check_keys_eq(
                self.stake.quarry.token_mint_key,
                self.replica_mint,
                "stake.quarry.token_mint_key",
            ),
            spec_check_keys_eq(
                self.replica_mint_token_account.mint,
                self.replica_mint,
                "replica_mint_token_account.mint / replica_mint",
            ),
            spec_check_keys_eq(
                self.replica_mint_token_account.owner,
                self.stake.mm.key,
                "replica_mint_token_account.owner / stake.mm",
            ),
        ]
    }

    /// The full check sequence of replica staking.
    pub open spec fn checks(self) -> Seq<Result<(), ValidationFailure>> {
        self.stake.checks() + self.own_checks()
    }

    /// What [`QuarryStakeReplica::validate`] returns.
    pub open spec fn spec_validate(self) -> Result<(), ValidationFailure> {
        if self.stake.spec_validate() is Err {
            self.stake.spec_validate()
        } else if self.mm_owner != self.stake.mm.owner {
            Err(ValidationFailure::IdentityMismatch {
                label: "mm_owner",
                left: self.mm_owner,
                right: self.stake.mm.owner,
            })
        } else if self.stake.pool.replica_mint != self.replica_mint {
            Err(ValidationFailure::IdentityMismatch {
                label: "stake.pool.replica_mint",
                left: self.stake.pool.replica_mint,
                right: self.replica_mint,
            })
        } else if self.stake.quarry.token_mint_key != self.replica_mint {
            Err(ValidationFailure::IdentityMismatch {
                label: "stake.quarry.token_mint_key",
                left: self.stake.quarry.token_mint_key,
                right: self.replica_mint,
            })
        } else if self.replica_mint_token_account.mint != self.replica_mint {
            Err(ValidationFailure::IdentityMismatch {
                label: "replica_mint_token_account.mint / replica_mint",
                left: self.replica_mint_token_account.mint,
                right: self.replica_mint,
            })
        } else if self.replica_mint_token_account.owner != self.stake.mm.key {
            Err(ValidationFailure::IdentityMismatch {
                label: "replica_mint_token_account.owner / stake.mm",
                left: self.replica_mint_token_account.owner,
                right: self.stake.mm.key,
            })
        } else {
            Ok(())
        }
    }

    /// Replica staking is valid when the shared skeleton is, the caller
    /// owns the merge miner, the context replica mint is the pool's
    /// replica mint, the quarry stakes it, and the replica-token account
    /// carries it and is owned by the merge miner.
    pub fn validate(&self) -> (r: Result<(), ValidationFailure>)
        ensures
            r == self.spec_validate(),
    {
        let step = self.stake.validate();
        if step.is_err() {
            return step;
        }
        let step = check_keys_eq(self.mm_owner, self.stake.mm.owner, "mm_owner");
        if step.is_err() {
            return step;
        }
        let step = check_keys_eq(
            self.stake.pool.replica_mint,
            self.replica_mint,
            "stake.pool.replica_mint",
        );
        if step.is_err() {
            return step;
        }
        let step = check_keys_eq(
            self.stake.quarry.token_mint_key,
            self.replica_mint,
            "stake.quarry.token_mint_key",
        );
        if step.is_err() {
            return step;
        }
        let step = check_keys_eq(
            self.replica_mint_token_account.mint,
            self.replica_mint,
            "replica_mint_token_account.mint / replica_mint",
        );
        if step.is_err() {
            return step;
        }
        let step = check_keys_eq(
            self.replica_mint_token_account.owner,
            self.stake.mm.key,
            "replica_mint_token_account.owner / stake.mm",
        );
        if step.is_err() {
            return step;
        }
        Ok(())
    }
}

/// A typed operation context: one variant per privileged operation.
#[derive(Clone, Copy, Debug)]
pub enum OperationContext {
    /// Pool creation.
    NewPool(NewPool),
    /// Merge-miner initialization.
    InitMergeMiner(InitMergeMiner),
    /// Miner initialization.
    InitMiner(InitMiner),
    /// Token withdrawal.
    WithdrawTokens(WithdrawTokens),
    /// Reward claim.
    ClaimRewards(ClaimRewards),
    /// Primary staking.
    QuarryStakePrimary(QuarryStakePrimary),
    /// Replica staking.
    QuarryStakeReplica(QuarryStakeReplica),
}

impl OperationContext {
    /// The check sequence of the operation, in evaluation order.
    pub open spec fn checks(self) -> Seq<Result<(), ValidationFailure>> {
        match self {
            OperationContext::NewPool(c) => c.checks(),
            OperationContext::InitMergeMiner(c) => c.checks(),
            OperationContext::InitMiner(c) => c.checks(),
            OperationContext::WithdrawTokens(c) => c.checks(),
            OperationContext::ClaimRewards(c) => c.checks(),
            OperationContext::QuarryStakePrimary(c) => c.checks(),
            OperationContext::QuarryStakeReplica(c) => c.checks(),
        }
    }

    /// What [`validate`] returns.
    pub open spec fn spec_validate(self) -> Result<(), ValidationFailure> {
        match self {
            OperationContext::NewPool(c) => c.spec_validate(),
            OperationContext::InitMergeMiner(c) => c.spec_validate(),
            OperationContext::InitMiner(c) => c.spec_validate(),
            OperationContext::WithdrawTokens(c) => c.spec_validate(),
            OperationContext::ClaimRewards(c) => c.spec_validate(),
            OperationContext::QuarryStakePrimary(c) => c.spec_validate(),
            OperationContext::QuarryStakeReplica(c) => c.spec_validate(),
        }
    }
}

/// The uniform entry point: dispatches the context to its operation's
/// validator.  Called exactly once, immediately before the mutation logic
/// of the operation runs; on failure the caller must not proceed.
pub fn validate(context: &OperationContext) -> (r: Result<(), ValidationFailure>)
    ensures
        r == context.spec_validate(),
{
    match context {
        OperationContext::NewPool(c) => c.validate(),
        OperationContext::InitMergeMiner(c) => c.validate(),
        OperationContext::InitMiner(c) => c.validate(),
        OperationContext::WithdrawTokens(c) => c.validate(),
        OperationContext::ClaimRewards(c) => c.validate(),
        OperationContext::QuarryStakePrimary(c) => c.validate(),
        OperationContext::QuarryStakeReplica(c) => c.validate(),
    }
}

} // verus!
