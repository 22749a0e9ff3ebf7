use vstd::prelude::*;

verus! {

/// A 32-byte account identity, held as its big-endian upper and lower halves.
///
/// The ledger only ever compares identities, so two words are all it needs.
#[derive(Clone, Copy, Debug, PartialEq, Eq, Structural)]
pub struct Address {
    pub hi: u128,
    pub lo: u128,
}

impl Address {
    /// Builds an identity from its two halves.
    pub fn new(hi: u128, lo: u128) -> (r: Address)
        ensures
            r.hi == hi,
            r.lo == lo,
    {
        Address { hi, lo }
    }
}

} // verus!
