//! Failures of the collaborators that a transfer passes through.

use vstd::prelude::*;

verus! {

/// A failure that a collaborator reported while a transfer was carried out.
/// The collaborator's own value is kept as it came.
#[derive(Clone, Copy, Debug, PartialEq, Eq)]
pub enum Failure<E> {
    /// The ledger refused to destroy or to issue the amount.
    Ledger(E),
    /// The destination account could not be resolved.
    Lookup(E),
    /// The relay refused to start the transfer.
    Relay(E),
}

} // verus!
