//! The state of the registry as a mathematical value, and the changes it can undergo.

use vstd::prelude::*;
use crate::account::AccountId;
use crate::account::Timestamp;

verus! {

/// What a registry holds at one moment.
pub struct NftState {
    /// Who controls the collection.
    pub owner: AccountId,
    /// The collection's list price.
    pub price: u32,
    /// The collection's description, fixed at creation.
    pub metadata: Seq<char>,
    /// The clock reading taken at creation.
    pub creation_time: Timestamp,
    /// The current owner of every token issued so far, by token id.
    pub tokens: Map<nat, AccountId>,
    /// The id that the next token will get: the number of tokens issued so far.
    pub next_id: nat,
}

impl NftState {
    /// The ids in use are exactly those below `next_id`, and `next_id` fits in 32 bits.
    pub open spec fn wf(self) -> bool {
        &&& self.next_id <= u32::MAX
        &&& forall|id: nat| self.tokens.contains_key(id) <==> id < self.next_id
    }

    /// The state right after `caller` has created the collection at time `now`:
    /// the caller owns it, and no token has been issued.
    pub open spec fn created(
        caller: AccountId,
        now: Timestamp,
        metadata: Seq<char>,
        price: u32,
    ) -> NftState {
        NftState {
            owner: caller,
            price,
            metadata,
            creation_time: now,
            tokens: Map::empty(),
            next_id: 0,
        }
    }

    /// The current owner of token `id`, if that token was ever issued.
    pub open spec fn owner_of(self, id: nat) -> Option<AccountId> {
        if self.tokens.contains_key(id) {
            Some(self.tokens[id])
        } else {
            None
        }
    }

    /// The state with the list price replaced.
    pub open spec fn repriced(self, new_price: u32) -> NftState {
        NftState { price: new_price, ..self }
    }

    /// The state with one more token, which gets the id `next_id` and belongs to
    /// `token_owner`.
    pub open spec fn issued(self, token_owner: AccountId) -> NftState {
        NftState {
            tokens: self.tokens.insert(self.next_id, token_owner),
            next_id: self.next_id + 1,
            ..self
        }
    }

    /// The state with token `id` in the hands of `new_owner`.
    pub open spec fn sold(self, id: nat, new_owner: AccountId) -> NftState {
        NftState { tokens: self.tokens.insert(id, new_owner), ..self }
    }

    /// The state with the collection in the hands of `new_owner`.
    pub open spec fn transferred(self, new_owner: AccountId) -> NftState {
        NftState { owner: new_owner, ..self }
    }

    /// The state after one token has been issued to each of `owners`, in order.
    pub open spec fn issued_all(self, owners: Seq<AccountId>) -> NftState
        decreases owners.len(),
    {
        if owners.len() == 0 {
            self
        } else {
            self.issued_all(owners.drop_last()).issued(owners.last())
        }
    }
}

} // verus!
