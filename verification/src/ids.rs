use vstd::prelude::*;

verus! {

/// An account or asset identifier on the host ledger, reduced to the one
/// thing this logic ever does with it: compare for equality. The caller maps
/// the ledger's own key type to and from this value.
#[derive(Clone, Copy, Debug, PartialEq, Eq, Structural)]
pub struct AccountId(pub u64);

} // verus!
