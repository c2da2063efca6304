use quarry_merge_mine::failure::ValidationFailure;
use quarry_merge_mine::model::Key;
use quarry_merge_mine::model::MergeMiner;
use quarry_merge_mine::model::Miner;
use quarry_merge_mine::model::Mint;
use quarry_merge_mine::model::MintWrapper;
use quarry_merge_mine::model::Minter;
use quarry_merge_mine::model::Pool;
use quarry_merge_mine::model::Quarry;
use quarry_merge_mine::model::TokenAccount;
use quarry_merge_mine::validators::validate;
use quarry_merge_mine::validators::ClaimRewards;
use quarry_merge_mine::validators::InitMergeMiner;
use quarry_merge_mine::validators::InitMiner;
use quarry_merge_mine::validators::NewPool;
use quarry_merge_mine::validators::OperationContext;
use quarry_merge_mine::validators::QuarryStake;
use quarry_merge_mine::validators::QuarryStakePrimary;
use quarry_merge_mine::validators::QuarryStakeReplica;
use quarry_merge_mine::validators::WithdrawTokens;

fn key(value: u64) -> Key {
    Key { value }
}

// A consistent snapshot reused by most tests.  Addresses:
// pool 10, primary mint 11, replica mint 12, merge miner 13, owner 14,
// rewarder 15, quarry 16, miner 17, miner vault 18.
fn pool() -> Pool {
    Pool { key: key(10), primary_mint: key(11), replica_mint: key(12) }
}

fn merge_miner() -> MergeMiner {
    MergeMiner { key: key(13), owner: key(14), pool: key(10), replica_balance: 0 }
}

fn consistent_stake() -> QuarryStake {
    QuarryStake {
        pool: pool(),
        mm: merge_miner(),
        rewarder: key(15),
        quarry: Quarry { key: key(16), token_mint_key: key(11), rewarder_key: key(15) },
        miner: Miner { key: key(17), authority: key(13), quarry_key: key(16), token_vault_key: key(18) },
        miner_vault: TokenAccount { key: key(18), mint: key(11), owner: key(17), amount: 0 },
    }
}

fn valid_new_pool() -> NewPool {
    NewPool {
        pool: key(10),
        primary_mint: Mint {
            key: key(11),
            mint_authority: Some(key(50)),
            freeze_authority: Some(key(51)),
            decimals: 6,
            supply: 1000,
        },
        replica_mint: Mint {
            key: key(12),
            mint_authority: Some(key(10)),
            freeze_authority: None,
            decimals: 6,
            supply: 0,
        },
    }
}

fn valid_withdraw() -> WithdrawTokens {
    WithdrawTokens {
        owner: key(14),
        pool: pool(),
        mm: merge_miner(),
        withdraw_mint: key(11),
        mm_token_account: TokenAccount { key: key(30), mint: key(11), owner: key(13), amount: 50 },
        token_destination: TokenAccount { key: key(31), mint: key(11), owner: key(14), amount: 0 },
    }
}

fn valid_claim() -> ClaimRewards {
    ClaimRewards {
        stake: consistent_stake(),
        mint_wrapper: MintWrapper { key: key(20), token_mint: key(21) },
        minter: Minter { key: key(22), mint_wrapper: key(20), minter_authority: key(15) },
        rewards_token_mint: key(21),
        rewards_token_account: TokenAccount { key: key(23), mint: key(21), owner: key(13), amount: 0 },
        claim_fee_token_account: TokenAccount { key: key(24), mint: key(21), owner: key(25), amount: 0 },
        stake_token_account: TokenAccount { key: key(26), mint: key(11), owner: key(18), amount: 0 },
    }
}

#[test]
fn new_pool_valid_configuration_succeeds() {
    assert_eq!(valid_new_pool().validate(), Ok(()));
}

#[test]
fn new_pool_nonzero_replica_supply_fails() {
    let mut ctx = valid_new_pool();
    ctx.replica_mint.supply = 1;
    assert_eq!(
        ctx.validate(),
        Err(ValidationFailure::InvalidMintConfiguration { label: "replica must have zero supply" })
    );
}

#[test]
fn new_pool_foreign_mint_authority_fails() {
    let mut ctx = valid_new_pool();
    ctx.replica_mint.mint_authority = Some(key(99));
    assert_eq!(
        ctx.validate(),
        Err(ValidationFailure::InvalidMintConfiguration { label: "replica_mint.mint_authority" })
    );
}

#[test]
fn new_pool_missing_mint_authority_fails() {
    let mut ctx = valid_new_pool();
    ctx.replica_mint.mint_authority = None;
    assert_eq!(
        ctx.validate(),
        Err(ValidationFailure::InvalidMintConfiguration { label: "replica_mint.mint_authority" })
    );
}

#[test]
fn new_pool_replica_freeze_authority_fails() {
    let mut ctx = valid_new_pool();
    ctx.replica_mint.freeze_authority = Some(key(99));
    assert_eq!(
        ctx.validate(),
        Err(ValidationFailure::InvalidMintConfiguration { label: "cannot have freeze authority" })
    );
}

#[test]
fn new_pool_decimals_mismatch_fails() {
    let mut ctx = valid_new_pool();
    ctx.replica_mint.decimals = 9;
    assert_eq!(
        ctx.validate(),
        Err(ValidationFailure::InvalidMintConfiguration { label: "decimals mismatch" })
    );
}

#[test]
fn init_merge_miner_accepts_unconditionally() {
    let ctx = InitMergeMiner { pool: key(10), owner: key(14), mm: key(13) };
    assert_eq!(ctx.validate(), Ok(()));
}

#[test]
fn init_miner_primary_quarry_succeeds() {
    let ctx = InitMiner {
        pool: pool(),
        mm: merge_miner(),
        miner: key(40),
        quarry: Quarry { key: key(16), token_mint_key: key(11), rewarder_key: key(15) },
        rewarder: key(15),
        miner_vault: TokenAccount { key: key(41), mint: key(11), owner: key(40), amount: 0 },
    };
    assert_eq!(ctx.validate(), Ok(()));
}

#[test]
fn init_miner_replica_quarry_succeeds() {
    let ctx = InitMiner {
        pool: pool(),
        mm: merge_miner(),
        miner: key(40),
        quarry: Quarry { key: key(16), token_mint_key: key(12), rewarder_key: key(15) },
        rewarder: key(15),
        miner_vault: TokenAccount { key: key(41), mint: key(12), owner: key(40), amount: 0 },
    };
    assert_eq!(ctx.validate(), Ok(()));
}

#[test]
fn init_miner_foreign_staked_mint_fails() {
    let ctx = InitMiner {
        pool: pool(),
        mm: merge_miner(),
        miner: key(40),
        quarry: Quarry { key: key(16), token_mint_key: key(99), rewarder_key: key(15) },
        rewarder: key(15),
        miner_vault: TokenAccount { key: key(41), mint: key(99), owner: key(40), amount: 0 },
    };
    assert_eq!(
        ctx.validate(),
        Err(ValidationFailure::InvalidStakingMint { label: "quarry.token_mint_key" })
    );
}

#[test]
fn withdraw_primary_with_zero_replica_balance_succeeds() {
    assert_eq!(valid_withdraw().validate(), Ok(()));
}

#[test]
fn withdraw_replica_mint_always_fails() {
    // Every other field is consistent; the replica withdrawal alone trips.
    let mut ctx = valid_withdraw();
    ctx.withdraw_mint = key(12);
    ctx.mm_token_account.mint = key(12);
    ctx.token_destination.mint = key(12);
    assert_eq!(
        ctx.validate(),
        Err(ValidationFailure::CannotWithdrawDerivedMint {
            label: "cannot withdraw the pool's replica mint",
        })
    );
}

#[test]
fn withdraw_primary_with_outstanding_replica_balance_fails() {
    let mut ctx = valid_withdraw();
    ctx.mm.replica_balance = 5;
    assert_eq!(
        ctx.validate(),
        Err(ValidationFailure::OutstandingDerivedBalance { label: "outstanding replica balance" })
    );
}

#[test]
fn withdraw_foreign_mint_ignores_replica_balance() {
    // A mint that is neither primary nor replica: the balance rule is
    // only for primary withdrawals.
    let mut ctx = valid_withdraw();
    ctx.withdraw_mint = key(60);
    ctx.mm_token_account.mint = key(60);
    ctx.token_destination.mint = key(60);
    ctx.mm.replica_balance = 5;
    assert_eq!(ctx.validate(), Ok(()));
}

#[test]
fn withdraw_mint_mismatch_fails_first() {
    let mut ctx = valid_withdraw();
    ctx.withdraw_mint = key(61);
    assert_eq!(
        ctx.validate(),
        Err(ValidationFailure::IdentityMismatch {
            label: "withdraw_mint",
            left: key(61),
            right: key(11),
        })
    );
}

#[test]
fn withdraw_wrong_caller_fails() {
    let mut ctx = valid_withdraw();
    ctx.owner = key(99);
    assert_eq!(
        ctx.validate(),
        Err(ValidationFailure::IdentityMismatch {
            label: "owner / mm.owner",
            left: key(99),
            right: key(14),
        })
    );
}

#[test]
fn withdraw_wrong_destination_mint_fails() {
    let mut ctx = valid_withdraw();
    ctx.token_destination.mint = key(99);
    assert_eq!(
        ctx.validate(),
        Err(ValidationFailure::IdentityMismatch {
            label: "token_destination.mint",
            left: key(99),
            right: key(11),
        })
    );
}

#[test]
fn quarry_stake_consistent_skeleton_succeeds() {
    assert_eq!(consistent_stake().validate(), Ok(()));
}

#[test]
fn quarry_stake_wrong_pool_fails() {
    let mut ctx = consistent_stake();
    ctx.mm.pool = key(99);
    assert_eq!(
        ctx.validate(),
        Err(ValidationFailure::IdentityMismatch {
            label: "mm.pool",
            left: key(99),
            right: key(10),
        })
    );
}

#[test]
fn quarry_stake_reports_first_of_several_failures() {
    // Both the first check (mm.pool) and a later one (vault owner) are
    // violated: the diagnostic is the first check's, untouched by the
    // later violation.
    let mut ctx = consistent_stake();
    ctx.mm.pool = key(99);
    ctx.miner_vault.owner = key(98);
    assert_eq!(
        ctx.validate(),
        Err(ValidationFailure::IdentityMismatch {
            label: "mm.pool",
            left: key(99),
            right: key(10),
        })
    );
}

#[test]
fn quarry_stake_wrong_vault_owner_fails() {
    let mut ctx = consistent_stake();
    ctx.miner_vault.owner = key(98);
    assert_eq!(
        ctx.validate(),
        Err(ValidationFailure::IdentityMismatch {
            label: "miner_vault.owner / miner",
            left: key(98),
            right: key(17),
        })
    );
}

#[test]
fn claim_rewards_consistent_chain_succeeds() {
    assert_eq!(valid_claim().validate(), Ok(()));
}

#[test]
fn claim_rewards_minter_authority_mismatch_fails() {
    let mut ctx = valid_claim();
    ctx.minter.minter_authority = key(99);
    assert_eq!(
        ctx.validate(),
        Err(ValidationFailure::IdentityMismatch {
            label: "minter.minter_authority / stake.rewarder",
            left: key(99),
            right: key(15),
        })
    );
}

#[test]
fn claim_rewards_broken_skeleton_fails_with_skeleton_diagnostic() {
    let mut ctx = valid_claim();
    ctx.stake.miner.authority = key(99);
    assert_eq!(
        ctx.validate(),
        Err(ValidationFailure::IdentityMismatch {
            label: "miner.authority",
            left: key(99),
            right: key(13),
        })
    );
}

#[test]
fn stake_primary_consistent_succeeds() {
    let ctx = QuarryStakePrimary {
        mm_owner: key(14),
        mm_primary_token_account: TokenAccount { key: key(28), mint: key(11), owner: key(13), amount: 0 },
        stake: consistent_stake(),
    };
    assert_eq!(ctx.validate(), Ok(()));
}

#[test]
fn stake_primary_quarry_staking_replica_fails() {
    let mut stake = consistent_stake();
    stake.quarry.token_mint_key = key(12);
    stake.miner_vault.mint = key(12);
    let ctx = QuarryStakePrimary {
        mm_owner: key(14),
        mm_primary_token_account: TokenAccount { key: key(28), mint: key(11), owner: key(13), amount: 0 },
        stake,
    };
    assert_eq!(
        ctx.validate(),
        Err(ValidationFailure::IdentityMismatch {
            label: "stake.quarry.token_mint_key",
            left: key(12),
            right: key(11),
        })
    );
}

fn consistent_replica_stake() -> QuarryStake {
    let mut stake = consistent_stake();
    stake.quarry.token_mint_key = key(12);
    stake.miner_vault.mint = key(12);
    stake
}

#[test]
fn stake_replica_consistent_succeeds() {
    let ctx = QuarryStakeReplica {
        mm_owner: key(14),
        replica_mint: key(12),
        replica_mint_token_account: TokenAccount { key: key(29), mint: key(12), owner: key(13), amount: 0 },
        stake: consistent_replica_stake(),
    };
    assert_eq!(ctx.validate(), Ok(()));
}

#[test]
fn stake_replica_foreign_mint_fails() {
    let ctx = QuarryStakeReplica {
        mm_owner: key(14),
        replica_mint: key(99),
        replica_mint_token_account: TokenAccount { key: key(29), mint: key(99), owner: key(13), amount: 0 },
        stake: consistent_replica_stake(),
    };
    assert_eq!(
        ctx.validate(),
        Err(ValidationFailure::IdentityMismatch {
            label: "stake.pool.replica_mint",
            left: key(12),
            right: key(99),
        })
    );
}

#[test]
fn stake_replica_wrong_owner_fails() {
    let ctx = QuarryStakeReplica {
        mm_owner: key(99),
        replica_mint: key(12),
        replica_mint_token_account: TokenAccount { key: key(29), mint: key(12), owner: key(13), amount: 0 },
        stake: consistent_replica_stake(),
    };
    assert_eq!(
        ctx.validate(),
        Err(ValidationFailure::IdentityMismatch {
            label: "mm_owner",
            left: key(99),
            right: key(14),
        })
    );
}

#[test]
fn entrypoint_dispatches_to_each_validator() {
    assert_eq!(validate(&OperationContext::NewPool(valid_new_pool())), Ok(()));
    assert_eq!(
        validate(&OperationContext::InitMergeMiner(InitMergeMiner {
            pool: key(10),
            owner: key(14),
            mm: key(13),
        })),
        Ok(())
    );
    assert_eq!(validate(&OperationContext::WithdrawTokens(valid_withdraw())), Ok(()));
    assert_eq!(validate(&OperationContext::ClaimRewards(valid_claim())), Ok(()));
    let mut failing = valid_withdraw();
    failing.mm.replica_balance = 5;
    assert_eq!(
        validate(&OperationContext::WithdrawTokens(failing)),
        Err(ValidationFailure::OutstandingDerivedBalance { label: "outstanding replica balance" })
    );
}

#[test]
fn entrypoint_is_deterministic_on_an_unchanged_snapshot() {
    let accepted = OperationContext::ClaimRewards(valid_claim());
    assert_eq!(validate(&accepted), validate(&accepted));
    let mut claim = valid_claim();
    claim.minter.minter_authority = key(99);
    let rejected = OperationContext::ClaimRewards(claim);
    let first = validate(&rejected);
    let second = validate(&rejected);
    assert_eq!(first, second);
    assert_eq!(
        first,
        Err(ValidationFailure::IdentityMismatch {
            label: "minter.minter_authority / stake.rewarder",
            left: key(99),
            right: key(15),
        })
    );
}
