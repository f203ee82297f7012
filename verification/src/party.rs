use vstd::prelude::*;

verus! {

/// An opaque party identifier: a 256-bit account address carried as four
/// plain words. The ledger never interprets an identifier; it only compares
/// identifiers for equality when checking that a caller matches a stored
/// party.
#[derive(Clone, Copy, PartialEq, Eq, Structural, Hash, Debug)]
pub struct PartyId {
    pub w0: u64,
    pub w1: u64,
    pub w2: u64,
    pub w3: u64,
}

impl PartyId {
    /// Builds an identifier from its four words.
    pub fn from_words(w0: u64, w1: u64, w2: u64, w3: u64) -> (r: PartyId)
        ensures
            r == (PartyId { w0, w1, w2, w3 }),
    {
        PartyId { w0, w1, w2, w3 }
    }
}

} // verus!
