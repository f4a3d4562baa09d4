use vstd::prelude::*;

verus! {

/// A 32-byte address on the host ledger (a wallet, a program, or the policy
/// record's own slot), held as four 64-bit words in little-endian word order.
#[derive(Clone, Copy, PartialEq, Eq, Structural, Debug)]
pub struct Identity {
    pub w0: u64,
    pub w1: u64,
    pub w2: u64,
    pub w3: u64,
}

} // verus!
