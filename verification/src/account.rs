use vstd::prelude::*;

verus! {

/// Address of an account on the host ledger: 32 bytes, held as four 64-bit
/// words. The instruction logic only ever compares addresses for equality;
/// deriving an address from seeds is the host's business.
#[derive(Clone, Copy, PartialEq, Eq, Structural, Debug)]
pub struct AccountId {
    pub w0: u64,
    pub w1: u64,
    pub w2: u64,
    pub w3: u64,
}

impl AccountId {
    /// The all-zero address. A deposit record whose owner is this address has
    /// not been written yet.
    pub open spec fn unset() -> AccountId {
        AccountId { w0: 0, w1: 0, w2: 0, w3: 0 }
    }
}

impl Default for AccountId {
    /// The all-zero address.
    fn default() -> (r: AccountId)
        ensures
            r == AccountId::unset(),
    {
        AccountId { w0: 0, w1: 0, w2: 0, w3: 0 }
    }
}

} // verus!
