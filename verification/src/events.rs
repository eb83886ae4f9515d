//! The records that the host is asked to log.

use vstd::prelude::*;
use crate::account::AccountId;

verus! {

/// The collection has changed hands.
#[derive(Clone, Copy, Debug, PartialEq, Eq)]
pub struct OwnershipTransferred {
    /// The owner who gave the collection away.
    pub from: AccountId,
    /// The owner who received it.
    pub to: AccountId,
}

/// A token has been issued.
#[derive(Clone, Copy, Debug, PartialEq, Eq)]
pub struct Issue {
    /// The first owner of the new token.
    pub to: AccountId,
}

} // verus!
