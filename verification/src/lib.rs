//! Building and finalizing a ledger transfer on an account-and-UTXO-hybrid
//! chain: amount arithmetic, output building, input selection, the chained
//! fee and transfer transactions, and the signature bookkeeping around the
//! two-stage endorsement protocol. The gateway, the signer and the
//! transaction codec are external collaborators; everything decided from
//! plain values is verified here.

use vstd::prelude::*;

pub mod amount;
pub mod session;
pub mod transfer;
pub mod types;

verus! {

/// The error kinds this library reports. Failures of external collaborators
/// (gateway, signer) are surfaced by the calling layer, not represented here.
#[derive(Clone, Copy, Debug, PartialEq, Eq, Structural)]
pub enum Error {
    /// The endorsement fee is not strictly below the transfer amount, or the
    /// request total wrapped past the 64-bit boundary.
    InvalidArguments,
    /// A decimal amount string is malformed, or a configured fee cannot be
    /// represented.
    ParseError,
    /// A pre-execution contract response carried a status above 400.
    ContractCodeGT400,
    /// The endorsement service answered without a signature.
    MissingEndorsementSignature,
}

} // verus!
