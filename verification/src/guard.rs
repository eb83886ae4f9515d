//! The access check that stands before every change of state.

use vstd::prelude::*;
use crate::account::AccountId;
use crate::error::Error;

verus! {

/// Lets `caller` pass exactly when it is `authority`, the identity that the operation
/// at hand asks for; anyone else is turned away as unauthorized. The check keeps no
/// state of its own.
pub fn authorize(caller: AccountId, authority: AccountId) -> (verdict: Result<(), Error>)
    ensures
        verdict == (if caller == authority {
            Ok::<(), Error>(())
        } else {
            Err::<(), Error>(Error::Unauthorized)
        }),
{
    if caller == authority {
        Ok(())
    } else {
        Err(Error::Unauthorized)
    }
}

} // verus!
