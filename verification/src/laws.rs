//! What holds of the registry whatever is done to it, over the states of
//! [`NftState`](crate::state::NftState) that the operations' contracts speak of.

use vstd::prelude::*;
use crate::account::AccountId;
use crate::account::Timestamp;
use crate::state::NftState;

verus! {

/// A newly created collection is well formed, belongs to whoever created it and has
/// issued nothing.
pub proof fn lemma_created_is_well_formed(
    caller: AccountId,
    now: Timestamp,
    metadata: Seq<char>,
    price: u32,
)
    ensures
        NftState::created(caller, now, metadata, price).wf(),
        NftState::created(caller, now, metadata, price).owner == caller,
        NftState::created(caller, now, metadata, price).next_id == 0,
        forall|id: nat| NftState::created(caller, now, metadata, price).owner_of(id).is_none(),
{
}

/// Every change keeps the state well formed: a new price, a new collection owner, the
/// sale of a token that exists, and the issue of a token while an id is left.
pub proof fn lemma_changes_keep_well_formed(
    s: NftState,
    price: u32,
    id: nat,
    account: AccountId,
)
    requires
        s.wf(),
    ensures
        s.repriced(price).wf(),
        s.transferred(account).wf(),
        id < s.next_id ==> s.sold(id, account).wf(),
        s.next_id < u32::MAX ==> s.issued(account).wf(),
{
}

/// The next id moves only when a token is issued, and then by exactly one.
pub proof fn lemma_only_issue_moves_next_id(
    s: NftState,
    price: u32,
    id: nat,
    account: AccountId,
)
    ensures
        s.repriced(price).next_id == s.next_id,
        s.transferred(account).next_id == s.next_id,
        s.sold(id, account).next_id == s.next_id,
        s.issued(account).next_id == s.next_id + 1,
{
}

/// A token that has an owner keeps having one: no change takes a token out of the
/// registry, and only its sale changes who owns it.
pub proof fn lemma_issued_token_stays_issued(
    s: NftState,
    token: nat,
    price: u32,
    id: nat,
    account: AccountId,
)
    requires
        s.wf(),
        s.owner_of(token).is_some(),
    ensures
        s.repriced(price).owner_of(token) == s.owner_of(token),
        s.transferred(account).owner_of(token) == s.owner_of(token),
        s.issued(account).owner_of(token) == s.owner_of(token),
        s.sold(id, account).owner_of(token) == (if token == id {
            Some(account)
        } else {
            s.owner_of(token)
        }),
{
}

/// The token just issued has the id that was next and the owner it was issued to.
pub proof fn lemma_issue_creates_one_token(s: NftState, token_owner: AccountId)
    requires
        s.wf(),
    ensures
        s.owner_of(s.next_id).is_none(),
        s.issued(token_owner).owner_of(s.next_id) == Some(token_owner),
        forall|id: nat| id != s.next_id ==> s.issued(token_owner).owner_of(id) == s.owner_of(id),
{
}

/// Tokens issued one after another get consecutive ids, in the order of the calls.
///
/// Starting from a state with `next_id == n`, the call that issues to `owners[i]`
/// finds `next_id == n + i`, which is the id it returns; afterwards that token belongs
/// to `owners[i]`, `next_id` is `n` plus the number of calls, and the collection has
/// the owner it had, so that each call was the owner's to make.
pub proof fn lemma_issue_ids_sequential(s: NftState, owners: Seq<AccountId>)
    requires
        s.wf(),
        s.next_id + owners.len() <= u32::MAX,
    ensures
        s.issued_all(owners).wf(),
        s.issued_all(owners).owner == s.owner,
        s.issued_all(owners).next_id == s.next_id + owners.len(),
        forall|i: int|
            0 <= i < owners.len() ==> (#[trigger] s.issued_all(owners.take(i))).next_id
                == s.next_id + i,
        forall|i: int|
            0 <= i < owners.len() ==> s.issued_all(owners).owner_of((s.next_id + i) as nat)
                == Some(#[trigger] owners[i]),
        forall|id: nat| id < s.next_id ==> s.issued_all(owners).owner_of(id) == s.owner_of(id),
    decreases owners.len(),
{
    if owners.len() > 0 {
        let earlier = owners.drop_last();
        lemma_issue_ids_sequential(s, earlier);
        assert(owners.take(earlier.len() as int) =~= earlier);
        assert forall|i: int| 0 <= i < owners.len() implies (#[trigger] s.issued_all(
            owners.take(i),
        )).next_id == s.next_id + i by {
            if i < earlier.len() {
                assert(owners.take(i) =~= earlier.take(i));
            }
        }
        assert forall|i: int| 0 <= i < owners.len() implies s.issued_all(owners).owner_of(
            (s.next_id + i) as nat,
        ) == Some(#[trigger] owners[i]) by {
            if i < earlier.len() {
                assert(earlier[i] == owners[i]);
            }
        }
    }
}

/// From a newly created collection, `n` issues return the ids `0, 1, ..., n - 1` in the
/// order of the calls and leave the total at `n`.
pub proof fn lemma_first_ids_count_from_zero(
    caller: AccountId,
    now: Timestamp,
    metadata: Seq<char>,
    price: u32,
    owners: Seq<AccountId>,
)
    requires
        owners.len() <= u32::MAX,
    ensures
        NftState::created(caller, now, metadata, price).issued_all(owners).next_id
            == owners.len(),
        forall|i: int|
            0 <= i < owners.len() ==> (#[trigger] NftState::created(
                caller,
                now,
                metadata,
                price,
            ).issued_all(owners.take(i))).next_id == i,
{
    lemma_issue_ids_sequential(NftState::created(caller, now, metadata, price), owners);
}

/// Once the collection has been handed over, the new owner holds the authority over it
/// and nobody else does: the price can then be changed by `caller` exactly when
/// `caller` is the new owner.
pub proof fn lemma_transfer_hands_over_authority(
    s: NftState,
    new_owner: AccountId,
    caller: AccountId,
)
    ensures
        s.transferred(new_owner).owner == new_owner,
        caller == s.transferred(new_owner).owner <==> caller == new_owner,
        s.transferred(new_owner).tokens == s.tokens,
        s.transferred(new_owner).price == s.price,
{
}

} // verus!
