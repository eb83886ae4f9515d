//! The registry itself: one collection and its tokens, and the operations on them.

use vstd::prelude::*;
use crate::account::AccountId;
use crate::account::Timestamp;
use crate::error::Error;
use crate::events::Issue;
use crate::events::OwnershipTransferred;
use crate::guard::authorize;
use crate::state::NftState;

verus! {

/// One collection and the tokens issued from it.
///
/// Token ids are dense, so the owners stand in a vector: the token with id `i` belongs
/// to `issued_tokens[i]`, and the vector's length is the next id to hand out.
///
/// The reads borrow the registry shared, so none of them can change it; the
/// operations that can change it say, for every caller, what the state is afterwards.
pub struct Nft {
    owner: AccountId,
    price: u32,
    metadata: String,
    creationtime: Timestamp,
    issued_tokens: Vec<AccountId>,
}

impl View for Nft {
    type V = NftState;

    closed spec fn view(&self) -> NftState {
        NftState {
            owner: self.owner,
            price: self.price,
            metadata: self.metadata@,
            creation_time: self.creationtime,
            tokens: Map::new(
                |id: nat| id < self.issued_tokens@.len(),
                |id: nat| self.issued_tokens@[id as int],
            ),
            next_id: self.issued_tokens@.len(),
        }
    }
}

impl Nft {
    /// The number of tokens always fits the 32-bit id type.
    #[verifier::type_invariant]
    spec fn token_count_fits(self) -> bool {
        self.issued_tokens@.len() <= u32::MAX
    }

    /// The ids in use are exactly those below the next id.
    pub proof fn lemma_ids_dense(&self)
        ensures
            forall|id: nat| self@.tokens.contains_key(id) <==> id < self@.next_id,
    {
    }

    /// Creates the collection. The caller becomes its owner, `now` its creation time;
    /// description and price are stored as given. No token exists yet.
    pub fn new(caller: AccountId, now: Timestamp, metadata: String, price: u32) -> (nft: Nft)
        ensures
            nft@ == NftState::created(caller, now, metadata@, price),
            nft@.wf(),
    {
        let nft = Nft {
            owner: caller,
            price,
            metadata,
            creationtime: now,
            issued_tokens: Vec::new(),
        };
        assert(nft@.tokens =~= Map::<nat, AccountId>::empty());
        nft
    }

    /// The collection's description.
    pub fn get_metadata(&self) -> (metadata: String)
        ensures
            metadata@ == self@.metadata,
    {
        self.metadata.clone()
    }

    /// The collection's list price.
    pub fn get_price(&self) -> (price: u32)
        ensures
            price == self@.price,
    {
        self.price
    }

    /// How many tokens have been issued so far, which is also the next id.
    pub fn get_total_issued_tokens(&self) -> (total: u32)
        ensures
            total == self@.next_id,
    {
        proof {
            use_type_invariant(self);
        }
        self.issued_tokens.len() as u32
    }

    /// The collection's current owner.
    pub fn get_owner(&self) -> (owner: AccountId)
        ensures
            owner == self@.owner,
    {
        self.owner
    }

    /// The clock reading taken when the collection was created.
    pub fn get_creation_timestamp(&self) -> (created: Timestamp)
        ensures
            created == self@.creation_time,
    {
        self.creationtime
    }

    /// The current owner of token `id`, or `None` if no token has that id.
    pub fn get_token_owner(&self, id: u32) -> (holder: Option<AccountId>)
        ensures
            holder == self@.owner_of(id as nat),
            holder.is_some() <==> id < self@.next_id,
    {
        if (id as usize) < self.issued_tokens.len() {
            Some(self.issued_tokens[id as usize])
        } else {
            None
        }
    }

    /// Whether a token with this id has been issued.
    pub fn is_valid_token(&self, id: u32) -> (valid: bool)
        ensures
            valid == self@.tokens.contains_key(id as nat),
            valid == (id < self@.next_id),
    {
        (id as usize) < self.issued_tokens.len()
    }

    /// Sets the list price, if the caller owns the collection.
    pub fn change_price(&mut self, caller: AccountId, new_price: u32) -> (outcome: Result<(), Error>)
        ensures
            caller == old(self)@.owner ==> outcome == Ok::<(), Error>(()),
            caller == old(self)@.owner ==> final(self)@ == old(self)@.repriced(new_price),
            caller != old(self)@.owner ==> outcome == Err::<(), Error>(Error::Unauthorized),
            caller != old(self)@.owner ==> final(self)@ == old(self)@,
            final(self)@.wf(),
    {
        proof {
            use_type_invariant(&*self);
        }
        match authorize(caller, self.owner) {
            Ok(()) => {
                self.price = new_price;
                Ok(())
            },
            Err(refusal) => Err(refusal),
        }
    }

    /// Issues the next token to `token_owner`, if the caller owns the collection.
    /// Returns the new token's id, which is the number of tokens issued before, and
    /// the event to record.
    ///
    /// Ids are 32 bits wide, so the owner must not ask for a token once `u32::MAX` of
    /// them exist. Anyone else may call at any time, and is rejected.
    pub fn issue(&mut self, caller: AccountId, token_owner: AccountId) -> (outcome: Result<
        (u32, Issue),
        Error,
    >)
        requires
            caller == old(self)@.owner ==> old(self)@.next_id < u32::MAX,
        ensures
            caller == old(self)@.owner ==> outcome == Ok::<(u32, Issue), Error>(
                (old(self)@.next_id as u32, Issue { to: token_owner }),
            ),
            caller == old(self)@.owner ==> final(self)@ == old(self)@.issued(token_owner),
            caller != old(self)@.owner ==> outcome == Err::<(u32, Issue), Error>(
                Error::Unauthorized,
            ),
            caller != old(self)@.owner ==> final(self)@ == old(self)@,
            final(self)@.wf(),
    {
        proof {
            use_type_invariant(&*self);
        }
        match authorize(caller, self.owner) {
            Ok(()) => {
                let id: u32 = self.issued_tokens.len() as u32;
                let mut tokens: Vec<AccountId> = Vec::new();
                std::mem::swap(&mut tokens, &mut self.issued_tokens);
                tokens.push(token_owner);
                std::mem::swap(&mut tokens, &mut self.issued_tokens);
                assert(self@.tokens =~= old(self)@.issued(token_owner).tokens);
                Ok((id, Issue { to: token_owner }))
            },
            Err(refusal) => Err(refusal),
        }
    }

    /// Hands token `token_id` to `new_owner`, if the token exists and the caller is its
    /// current owner. Whether the token exists is looked at first. Owning the
    /// collection gives no right over a token, and nothing is recorded for a sale.
    pub fn sell(&mut self, caller: AccountId, token_id: u32, new_owner: AccountId) -> (outcome:
        Result<(), Error>)
        ensures
            outcome == (match old(self)@.owner_of(token_id as nat) {
                None => Err::<(), Error>(Error::NotFound),
                Some(holder) => if caller == holder {
                    Ok::<(), Error>(())
                } else {
                    Err::<(), Error>(Error::Unauthorized)
                },
            }),
            outcome.is_ok() ==> final(self)@ == old(self)@.sold(token_id as nat, new_owner),
            outcome.is_err() ==> final(self)@ == old(self)@,
            final(self)@.wf(),
    {
        proof {
            use_type_invariant(&*self);
        }
        match self.get_token_owner(token_id) {
            None => Err(Error::NotFound),
            Some(holder) => match authorize(caller, holder) {
                Ok(()) => {
                    let mut tokens: Vec<AccountId> = Vec::new();
                    std::mem::swap(&mut tokens, &mut self.issued_tokens);
                    tokens[token_id as usize] = new_owner;
                    std::mem::swap(&mut tokens, &mut self.issued_tokens);
                    assert(self@.tokens =~= old(self)@.sold(token_id as nat, new_owner).tokens);
                    Ok(())
                },
                Err(refusal) => Err(refusal),
            },
        }
    }

    /// Hands the collection to `new_owner`, if the caller owns it, and returns the
    /// event to record. The new owner may be anyone, the old owner included.
    pub fn transfer(&mut self, caller: AccountId, new_owner: AccountId) -> (outcome: Result<
        OwnershipTransferred,
        Error,
    >)
        ensures
            caller == old(self)@.owner ==> outcome == Ok::<OwnershipTransferred, Error>(
                OwnershipTransferred { from: caller, to: new_owner },
            ),
            caller == old(self)@.owner ==> final(self)@ == old(self)@.transferred(new_owner),
            caller != old(self)@.owner ==> outcome == Err::<OwnershipTransferred, Error>(
                Error::Unauthorized,
            ),
            caller != old(self)@.owner ==> final(self)@ == old(self)@,
            final(self)@.wf(),
    {
        proof {
            use_type_invariant(&*self);
        }
        match authorize(caller, self.owner) {
            Ok(()) => {
                self.owner = new_owner;
                Ok(OwnershipTransferred { from: caller, to: new_owner })
            },
            Err(refusal) => Err(refusal),
        }
    }
}

} // verus!
