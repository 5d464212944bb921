use vstd::prelude::*;

verus! {

/// The 32-byte address of an account or a signer on the ledger, held as two
/// 128-bit halves: `lo` is bytes 0..16 and `hi` bytes 16..32, each read
/// little-endian.
#[derive(Clone, Copy, Debug, PartialEq, Eq, Structural)]
pub struct Identity {
    pub lo: u128,
    pub hi: u128,
}

} // verus!
