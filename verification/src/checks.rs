//! Primitive checks and the short-circuit theory.
//!
//! Every validator is a fixed sequence of primitive checks evaluated in
//! order, stopping at the first failure.  The primitives are
//! [`check_keys_eq`], [`check_keys_neq`], and [`check_invariant`]; the
//! spec-level functions [`first_failure`] and [`first_failure_from`] say
//! what "first failing check of a sequence" means, and the lemmas at the
//! end prove that a first failure determines the verdict regardless of any
//! check that follows it.

use crate::failure::ValidationFailure;
use crate::model::Key;
use vstd::prelude::*;

verus! {

/// What [`check_keys_eq`] returns.
pub open spec fn spec_check_keys_eq(left: Key, right: Key, label: &'static str) -> Result<
    (),
    ValidationFailure,
> {
    if left == right {
        Ok(())
    } else {
        Err(ValidationFailure::IdentityMismatch { label, left, right })
    }
}

/// Relation assertion: the two addresses must be equal, else an
/// `IdentityMismatch` naming the relation and both compared values.
pub fn check_keys_eq(left: Key, right: Key, label: &'static str) -> (r: Result<
    (),
    ValidationFailure,
>)
    ensures
        r == spec_check_keys_eq(left, right, label),
{
    if left == right {
        Ok(())
    } else {
        Err(ValidationFailure::IdentityMismatch { label, left, right })
    }
}

/// What [`check_keys_neq`] returns.
pub open spec fn spec_check_keys_neq(left: Key, right: Key, label: &'static str) -> Result<
    (),
    ValidationFailure,
> {
    if left != right {
        Ok(())
    } else {
        Err(ValidationFailure::ForbiddenRelation { label, left, right })
    }
}

/// Relation assertion: the two addresses must differ, else a
/// `ForbiddenRelation` naming the relation and the shared value.
pub fn check_keys_neq(left: Key, right: Key, label: &'static str) -> (r: Result<
    (),
    ValidationFailure,
>)
    ensures
        r == spec_check_keys_neq(left, right, label),
{
    if left != right {
        Ok(())
    } else {
        Err(ValidationFailure::ForbiddenRelation { label, left, right })
    }
}

/// What [`check_invariant`] returns.
pub open spec fn spec_check_invariant(condition: bool, failure: ValidationFailure) -> Result<
    (),
    ValidationFailure,
> {
    if condition {
        Ok(())
    } else {
        Err(failure)
    }
}

/// Business invariant check: the condition must hold, else the given
/// failure.
pub fn check_invariant(condition: bool, failure: ValidationFailure) -> (r: Result<
    (),
    ValidationFailure,
>)
    ensures
        r == spec_check_invariant(condition, failure),
{
    if condition {
        Ok(())
    } else {
        Err(failure)
    }
}

/// The verdict of the checks `s[i..]`: the first `Err` among them, or
/// `Ok(())` when every one succeeds.
pub open spec fn first_failure_from(
    s: Seq<Result<(), ValidationFailure>>,
    i: int,
) -> Result<(), ValidationFailure>
    decreases s.len() - i,
{
    if i < 0 || i >= s.len() {
        Ok(())
    } else if s[i] is Err {
        s[i]
    } else {
        first_failure_from(s, i + 1)
    }
}

/// The verdict of a whole check sequence: its first `Err`, or `Ok(())`.
pub open spec fn first_failure(s: Seq<Result<(), ValidationFailure>>) -> Result<
    (),
    ValidationFailure,
> {
    first_failure_from(s, 0)
}

/// If every check from position `j` on succeeds, the verdict from `j` is
/// success.
pub proof fn lemma_first_failure_from_all_ok(s: Seq<Result<(), ValidationFailure>>, j: int)
    requires
        forall|i: int| j <= i < s.len() ==> s[i] is Ok,
    ensures
        first_failure_from(s, j) == Ok::<(), ValidationFailure>(()),
    decreases s.len() - j,
{
    if 0 <= j < s.len() {
        lemma_first_failure_from_all_ok(s, j + 1);
    }
}

/// If every check succeeds, the verdict is success.
pub proof fn lemma_first_failure_all_ok(s: Seq<Result<(), ValidationFailure>>)
    requires
        forall|i: int| 0 <= i < s.len() ==> s[i] is Ok,
    ensures
        first_failure(s) == Ok::<(), ValidationFailure>(()),
{
    lemma_first_failure_from_all_ok(s, 0);
}

proof fn lemma_first_failure_from_ok_implies_all_ok(s: Seq<Result<(), ValidationFailure>>, j: int)
    requires
        0 <= j,
        first_failure_from(s, j) is Ok,
    ensures
        forall|i: int| j <= i < s.len() ==> s[i] is Ok,
    decreases s.len() - j,
{
    if 0 <= j < s.len() {
        lemma_first_failure_from_ok_implies_all_ok(s, j + 1);
    }
}

/// If the verdict is success, every check succeeded.
pub proof fn lemma_first_failure_ok_implies_all_ok(s: Seq<Result<(), ValidationFailure>>)
    requires
        first_failure(s) is Ok,
    ensures
        forall|i: int| 0 <= i < s.len() ==> s[i] is Ok,
{
    lemma_first_failure_from_ok_implies_all_ok(s, 0);
}

proof fn lemma_first_failure_from_found(s: Seq<Result<(), ValidationFailure>>, j: int, k: int)
    requires
        0 <= j <= k < s.len(),
        forall|i: int| j <= i < k ==> s[i] is Ok,
        s[k] is Err,
    ensures
        first_failure_from(s, j) == s[k],
    decreases k - j,
{
    if j < k {
        lemma_first_failure_from_found(s, j + 1, k);
    }
}

/// The verdict is the check at the first failing position: if `s[k]` fails
/// and every check before it succeeds, the verdict is exactly `s[k]`.
pub proof fn lemma_first_failure_found(s: Seq<Result<(), ValidationFailure>>, k: int)
    requires
        0 <= k < s.len(),
        forall|i: int| 0 <= i < k ==> s[i] is Ok,
        s[k] is Err,
    ensures
        first_failure(s) == s[k],
{
    lemma_first_failure_from_found(s, 0, k);
}

proof fn lemma_first_failure_from_agree(
    s1: Seq<Result<(), ValidationFailure>>,
    s2: Seq<Result<(), ValidationFailure>>,
    j: int,
    k: int,
)
    requires
        0 <= j <= k < s1.len(),
        k < s2.len(),
        forall|i: int| j <= i <= k ==> s1[i] == s2[i],
        s1[k] is Err,
    ensures
        first_failure_from(s1, j) == first_failure_from(s2, j),
    decreases k - j,
{
    if s1[j] is Ok {
        lemma_first_failure_from_agree(s1, s2, j + 1, k);
    }
}

/// Short-circuit: once a check fails, no later check influences the
/// verdict.  Two check sequences that agree up to and including a failing
/// position `k` have the same verdict, however they differ after `k`.
pub proof fn lemma_first_failure_short_circuits(
    s1: Seq<Result<(), ValidationFailure>>,
    s2: Seq<Result<(), ValidationFailure>>,
    k: int,
)
    requires
        0 <= k < s1.len(),
        k < s2.len(),
        forall|i: int| 0 <= i <= k ==> s1[i] == s2[i],
        s1[k] is Err,
    ensures
        first_failure(s1) == first_failure(s2),
{
    lemma_first_failure_from_agree(s1, s2, 0, k);
}

proof fn lemma_first_failure_from_shifted(
    s1: Seq<Result<(), ValidationFailure>>,
    s2: Seq<Result<(), ValidationFailure>>,
    i: int,
)
    requires
        0 <= i <= s2.len(),
    ensures
        first_failure_from(s1 + s2, s1.len() + i) == first_failure_from(s2, i),
    decreases s2.len() - i,
{
    if i < s2.len() {
        assert((s1 + s2)[s1.len() + i] == s2[i]);
        lemma_first_failure_from_shifted(s1, s2, i + 1);
    }
}

proof fn lemma_first_failure_from_add(
    s1: Seq<Result<(), ValidationFailure>>,
    s2: Seq<Result<(), ValidationFailure>>,
    j: int,
)
    requires
        0 <= j <= s1.len(),
    ensures
        first_failure_from(s1 + s2, j) == if first_failure_from(s1, j) is Err {
            first_failure_from(s1, j)
        } else {
            first_failure(s2)
        },
    decreases s1.len() - j,
{
    if j == s1.len() {
        lemma_first_failure_from_shifted(s1, s2, 0);
    } else {
        assert((s1 + s2)[j] == s1[j]);
        if s1[j] is Ok {
            lemma_first_failure_from_add(s1, s2, j + 1);
        }
    }
}

/// Delegation: the verdict of a composed sequence is the first part's
/// failure if it has one, else the second part's verdict.  This is how a
/// validator that delegates to the shared stake validator composes with
/// its own checks.
pub proof fn lemma_first_failure_add(
    s1: Seq<Result<(), ValidationFailure>>,
    s2: Seq<Result<(), ValidationFailure>>,
)
    ensures
        first_failure(s1 + s2) == if first_failure(s1) is Err {
            first_failure(s1)
        } else {
            first_failure(s2)
        },
{
    lemma_first_failure_from_add(s1, s2, 0);
}

} // verus!
