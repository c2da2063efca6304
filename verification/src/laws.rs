//! Crate-level laws of the validation layer.
//!
//! Each validator's `spec_validate` is written as a chain of conditions;
//! each context also documents its checks as a sequence.  The lemmas here
//! tie the two together and state the laws every caller may rely on:
//!
//! - validation is a pure function of the snapshot, so two calls on the
//!   same snapshot agree ([`lemma_validate_deterministic`]);
//! - the verdict is the first failure of the fixed check sequence
//!   ([`lemma_validate_is_first_failure`]), so a failing check
//!   short-circuits: nothing after it influences the verdict
//!   ([`lemma_validate_short_circuits`], [`lemma_validate_first_failing_check`]);
//! - validation succeeds exactly when every check of the sequence does
//!   ([`lemma_validate_ok_iff_all_checks_ok`]).

use crate::checks::first_failure;
use crate::checks::lemma_first_failure_add;
use crate::checks::lemma_first_failure_all_ok;
use crate::checks::lemma_first_failure_found;
use crate::checks::lemma_first_failure_ok_implies_all_ok;
use crate::checks::lemma_first_failure_short_circuits;
use crate::failure::ValidationFailure;
use crate::validators::ClaimRewards;
use crate::validators::InitMergeMiner;
use crate::validators::InitMiner;
use crate::validators::NewPool;
use crate::validators::OperationContext;
use crate::validators::QuarryStake;
use crate::validators::QuarryStakePrimary;
use crate::validators::QuarryStakeReplica;
use crate::validators::WithdrawTokens;
use vstd::prelude::*;

verus! {

/// Pool creation's verdict is the first failure of its check sequence.
pub proof fn lemma_new_pool_validate_is_first_failure(c: NewPool)
    ensures
        c.spec_validate() == first_failure(c.checks()),
{
    let s = c.checks();
    if s[0] is Err {
        lemma_first_failure_found(s, 0);
    } else if s[1] is Err {
        lemma_first_failure_found(s, 1);
    } else if s[2] is Err {
        lemma_first_failure_found(s, 2);
    } else if s[3] is Err {
        lemma_first_failure_found(s, 3);
    } else {
        lemma_first_failure_all_ok(s);
    }
}

/// Merge-miner initialization's verdict is the first failure of its
/// (empty) check sequence: success.
pub proof fn lemma_init_merge_miner_validate_is_first_failure(c: InitMergeMiner)
    ensures
        c.spec_validate() == first_failure(c.checks()),
{
    lemma_first_failure_all_ok(c.checks());
}

/// Miner initialization's verdict is the first failure of its check
/// sequence.
pub proof fn lemma_init_miner_validate_is_first_failure(c: InitMiner)
    ensures
        c.spec_validate() == first_failure(c.checks()),
{
    let s = c.checks();
    if s[0] is Err {
        lemma_first_failure_found(s, 0);
    } else if s[1] is Err {
        lemma_first_failure_found(s, 1);
    } else if s[2] is Err {
        lemma_first_failure_found(s, 2);
    } else if s[3] is Err {
        lemma_first_failure_found(s, 3);
    } else if s[4] is Err {
        lemma_first_failure_found(s, 4);
    } else {
        lemma_first_failure_all_ok(s);
    }
}

/// A withdrawal's verdict is the first failure of its check sequence.
pub proof fn lemma_withdraw_validate_is_first_failure(c: WithdrawTokens)
    ensures
        c.spec_validate() == first_failure(c.checks()),
{
    let s = c.checks();
    if s[0] is Err {
        lemma_first_failure_found(s, 0);
    } else if s[1] is Err {
        lemma_first_failure_found(s, 1);
    } else if s[2] is Err {
        lemma_first_failure_found(s, 2);
    } else if s[3] is Err {
        lemma_first_failure_found(s, 3);
    } else if s[4] is Err {
        lemma_first_failure_found(s, 4);
    } else if s[5] is Err {
        lemma_first_failure_found(s, 5);
    } else if s[6] is Err {
        lemma_first_failure_found(s, 6);
    } else if s[7] is Err {
        lemma_first_failure_found(s, 7);
    } else {
        lemma_first_failure_all_ok(s);
    }
}

/// The shared staking skeleton's verdict is the first failure of its
/// check sequence.
pub proof fn lemma_stake_validate_is_first_failure(c: QuarryStake)
    ensures
        c.spec_validate() == first_failure(c.checks()),
{
    let s = c.checks();
    if s[0] is Err {
        lemma_first_failure_found(s, 0);
    } else if s[1] is Err {
        lemma_first_failure_found(s, 1);
    } else if s[2] is Err {
        lemma_first_failure_found(s, 2);
    } else if s[3] is Err {
        lemma_first_failure_found(s, 3);
    } else if s[4] is Err {
        lemma_first_failure_found(s, 4);
    } else if s[5] is Err {
        lemma_first_failure_found(s, 5);
    } else {
        lemma_first_failure_all_ok(s);
    }
}

/// A reward claim's verdict is the first failure of its full check
/// sequence: the shared skeleton's checks followed by its own.
pub proof fn lemma_claim_validate_is_first_failure(c: ClaimRewards)
    ensures
        c.spec_validate() == first_failure(c.checks()),
{
    lemma_stake_validate_is_first_failure(c.stake);
    lemma_first_failure_add(c.stake.checks(), c.own_checks());
    let s = c.own_checks();
    if c.stake.spec_validate() is Err {
    } else if s[0] is Err {
        lemma_first_failure_found(s, 0);
    } else if s[1] is Err {
        lemma_first_failure_found(s, 1);
    } else if s[2] is Err {
        lemma_first_failure_found(s, 2);
    } else if s[3] is Err {
        lemma_first_failure_found(s, 3);
    } else if s[4] is Err {
        lemma_first_failure_found(s, 4);
    } else if s[5] is Err {
        lemma_first_failure_found(s, 5);
    } else if s[6] is Err {
        lemma_first_failure_found(s, 6);
    } else {
        lemma_first_failure_all_ok(s);
    }
}

/// Primary staking's verdict is the first failure of its full check
/// sequence.
pub proof fn lemma_stake_primary_validate_is_first_failure(c: QuarryStakePrimary)
    ensures
        c.spec_validate() == first_failure(c.checks()),
{
    lemma_stake_validate_is_first_failure(c.stake);
    lemma_first_failure_add(c.stake.checks(), c.own_checks());
    let s = c.own_checks();
    if c.stake.spec_validate() is Err {
    } else if s[0] is Err {
        lemma_first_failure_found(s, 0);
    } else if s[1] is Err {
        lemma_first_failure_found(s, 1);
    } else if s[2] is Err {
        lemma_first_failure_found(s, 2);
    } else if s[3] is Err {
        lemma_first_failure_found(s, 3);
    } else {
        lemma_first_failure_all_ok(s);
    }
}

/// Replica staking's verdict is the first failure of its full check
/// sequence.
pub proof fn lemma_stake_replica_validate_is_first_failure(c: QuarryStakeReplica)
    ensures
        c.spec_validate() == first_failure(c.checks()),
{
    lemma_stake_validate_is_first_failure(c.stake);
    lemma_first_failure_add(c.stake.checks(), c.own_checks());
    let s = c.own_checks();
    if c.stake.spec_validate() is Err {
    } else if s[0] is Err {
        lemma_first_failure_found(s, 0);
    } else if s[1] is Err {
        lemma_first_failure_found(s, 1);
    } else if s[2] is Err {
        lemma_first_failure_found(s, 2);
    } else if s[3] is Err {
        lemma_first_failure_found(s, 3);
    } else if s[4] is Err {
        lemma_first_failure_found(s, 4);
    } else {
        lemma_first_failure_all_ok(s);
    }
}

/// The verdict of every operation is the first failure of its fixed
/// check sequence: checks are evaluated in the documented order and
/// evaluation stops at the first failure.
pub proof fn lemma_validate_is_first_failure(context: OperationContext)
    ensures
        context.spec_validate() == first_failure(context.checks()),
{
    match context {
        OperationContext::NewPool(c) => lemma_new_pool_validate_is_first_failure(c),
        OperationContext::InitMergeMiner(c) => lemma_init_merge_miner_validate_is_first_failure(c),
        OperationContext::InitMiner(c) => lemma_init_miner_validate_is_first_failure(c),
        OperationContext::WithdrawTokens(c) => lemma_withdraw_validate_is_first_failure(c),
        OperationContext::ClaimRewards(c) => lemma_claim_validate_is_first_failure(c),
        OperationContext::QuarryStakePrimary(c) => lemma_stake_primary_validate_is_first_failure(c),
        OperationContext::QuarryStakeReplica(c) => lemma_stake_replica_validate_is_first_failure(c),
    }
}

/// Validation is a pure function of the snapshot, with no state of its
/// own: any two calls on the same unchanged context return the same
/// verdict with the same diagnostic.  `validate` ensures its result
/// equals `spec_validate` of the context, so the results of two calls
/// both satisfy the premises.
pub proof fn lemma_validate_deterministic(
    context: OperationContext,
    r1: Result<(), ValidationFailure>,
    r2: Result<(), ValidationFailure>,
)
    requires
        r1 == context.spec_validate(),
        r2 == context.spec_validate(),
    ensures
        r1 == r2,
{
}

/// Short-circuit: once a check fails, no later check is consulted.  Two
/// contexts whose check sequences agree up to and including a failing
/// position `k` get the same verdict, however their checks differ
/// after `k`.
pub proof fn lemma_validate_short_circuits(c1: OperationContext, c2: OperationContext, k: int)
    requires
        0 <= k < c1.checks().len(),
        k < c2.checks().len(),
        forall|i: int| 0 <= i <= k ==> c1.checks()[i] == c2.checks()[i],
        c1.checks()[k] is Err,
    ensures
        c1.spec_validate() == c2.spec_validate(),
{
    lemma_validate_is_first_failure(c1);
    lemma_validate_is_first_failure(c2);
    lemma_first_failure_short_circuits(c1.checks(), c2.checks(), k);
}

/// The verdict names the first violated check: if check `k` fails and
/// every check before it passes, validation returns exactly check `k`'s
/// failure.
pub proof fn lemma_validate_first_failing_check(context: OperationContext, k: int)
    requires
        0 <= k < context.checks().len(),
        forall|i: int| 0 <= i < k ==> context.checks()[i] is Ok,
        context.checks()[k] is Err,
    ensures
        context.spec_validate() == context.checks()[k],
{
    lemma_validate_is_first_failure(context);
    lemma_first_failure_found(context.checks(), k);
}

/// Success is owed exactly when every check of the operation's sequence
/// passes: validation returns `Ok` if and only if no check fails.
pub proof fn lemma_validate_ok_iff_all_checks_ok(context: OperationContext)
    ensures
        context.spec_validate() is Ok <==> (forall|i: int|
            0 <= i < context.checks().len() ==> context.checks()[i] is Ok),
{
    lemma_validate_is_first_failure(context);
    if context.spec_validate() is Ok {
        lemma_first_failure_ok_implies_all_ok(context.checks());
    } else {
        if forall|i: int| 0 <= i < context.checks().len() ==> context.checks()[i] is Ok {
            lemma_first_failure_all_ok(context.checks());
        }
    }
}

} // verus!
