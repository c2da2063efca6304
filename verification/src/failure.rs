//! The closed failure taxonomy of the validation layer.

use crate::model::Key;
use vstd::prelude::*;

verus! {

/// Why a validation failed.  Every variant carries a human-readable
/// diagnostic naming the violated relation or invariant; the relation
/// variants also carry the two compared addresses.
///
/// A failure is fatal to the *operation*, never to the process: it means
/// "this operation must not execute".
#[derive(Clone, Copy, Debug, PartialEq, Eq)]
pub enum ValidationFailure {
    /// Two addresses that must be equal differ.
    IdentityMismatch { label: &'static str, left: Key, right: Key },
    /// Two addresses that must differ are equal.
    ForbiddenRelation { label: &'static str, left: Key, right: Key },
    /// A staked mint is neither the pool's primary nor its replica mint.
    InvalidStakingMint { label: &'static str },
    /// An attempt to withdraw the pool's derived (replica) mint.
    CannotWithdrawDerivedMint { label: &'static str },
    /// Primary withdrawal attempted while the replica balance is nonzero.
    OutstandingDerivedBalance { label: &'static str },
    /// A replica-mint authority/freeze/decimals/supply invariant is violated
    /// at pool creation.
    InvalidMintConfiguration { label: &'static str },
}

impl ValidationFailure {
    /// The diagnostic label carried by the failure.
    pub fn label(&self) -> (r: &'static str)
        ensures
            r == self.spec_label(),
    {
        match *self {
            ValidationFailure::IdentityMismatch { label, .. } => label,
            ValidationFailure::ForbiddenRelation { label, .. } => label,
            ValidationFailure::InvalidStakingMint { label } => label,
            ValidationFailure::CannotWithdrawDerivedMint { label } => label,
            ValidationFailure::OutstandingDerivedBalance { label } => label,
            ValidationFailure::InvalidMintConfiguration { label } => label,
        }
    }

    /// The diagnostic label, as a spec-level value.
    pub open spec fn spec_label(&self) -> &'static str {
        match self {
            ValidationFailure::IdentityMismatch { label, .. } => label,
            ValidationFailure::ForbiddenRelation { label, .. } => label,
            ValidationFailure::InvalidStakingMint { label } => label,
            ValidationFailure::CannotWithdrawDerivedMint { label } => label,
            ValidationFailure::OutstandingDerivedBalance { label } => label,
            ValidationFailure::InvalidMintConfiguration { label } => label,
        }
    }
}

} // verus!
