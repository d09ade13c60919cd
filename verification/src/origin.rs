//! Where a call comes from.

use vstd::prelude::*;
use crate::pallet::Error;

verus! {

/// The origin of a call, as the host hands it over.
#[derive(Clone, Copy, Debug, PartialEq, Eq)]
pub enum RawOrigin<A> {
    /// The host itself, with every privilege.
    Root,
    /// An account that signed the call.
    Signed(A),
    /// Nobody: the call is unsigned.
    Unsigned,
}

/// The account that signed the call. Any other origin is unauthorized.
pub fn ensure_signed<A>(origin: RawOrigin<A>) -> (r: Result<A, Error>)
    ensures
        r == match origin {
            RawOrigin::Signed(who) => Ok::<A, Error>(who),
            _ => Err::<A, Error>(Error::Unauthorized),
        },
{
    match origin {
        RawOrigin::Signed(who) => Ok(who),
        _ => Err(Error::Unauthorized),
    }
}

} // verus!
