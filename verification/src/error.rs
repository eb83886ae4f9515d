//! Why a call was rejected.

use vstd::prelude::*;

verus! {

/// The two ways in which a call that would change the state is turned down. A
/// rejected call leaves the whole state as it was.
#[derive(Clone, Copy, Debug, PartialEq, Eq, Structural)]
pub enum Error {
    /// The caller does not hold the authority that the operation asks for.
    Unauthorized,
    /// The token id was never issued.
    NotFound,
}

} // verus!
