//! A registry of one digital-asset collection and the numbered tokens it issues.
//!
//! The collection has an owner, a list price, a description and a creation time.
//! Its owner may issue tokens, which get the ids 0, 1, 2, ... in turn; each token has
//! an owner of its own, who alone may hand it on. Every operation that changes the
//! state is told who is calling and is rejected, leaving the state as it was, when
//! the caller lacks the authority it asks for.
//!
//! The library keeps no ambient state and does no input or output: the host passes
//! the caller's identity and the clock reading in, and gets the event to record back.

pub mod account;
pub mod contract;
pub mod error;
pub mod events;
pub mod guard;
pub mod laws;
pub mod state;

pub use crate::account::AccountId;
pub use crate::account::Timestamp;
pub use crate::contract::Nft;
pub use crate::error::Error;
pub use crate::events::Issue;
pub use crate::events::OwnershipTransferred;
pub use crate::state::NftState;
