//! A confidential balance ledger: per-account balances are kept as
//! homomorphically encrypted 64-bit integers, and the service performs
//! deposit, transfer, withdraw and view operations directly on ciphertexts.
//! A transfer succeeds only up to the sender's true balance, decided by a
//! homomorphic comparison and a conditional selection rather than by a
//! plaintext branch, so the server never learns whether funds sufficed.

use vstd::prelude::*;

pub mod engine;
pub mod ledger;
pub mod store;

verus! {

/// The error taxonomy of the ledger core. The transport layer may collapse
/// these into a single generic failure; internally they stay distinct.
#[derive(Clone, Copy, PartialEq, Eq, Structural, Debug)]
pub enum LedgerError {
    /// The store holds no record for the requested account key.
    NotFound,
    /// A byte blob did not decode to a ciphertext of the active scheme.
    DecodeError,
    /// The encryption scheme reported an evaluation failure.
    OperationError,
    /// The persistence engine failed; raised only by outer layers.
    StoreError,
}

/// Addition modulo 2^64, the semantics of homomorphic addition on
/// encrypted 64-bit integers.
pub open spec fn wrap_add(a: u64, b: u64) -> u64 {
    if a + b <= u64::MAX {
        (a + b) as u64
    } else {
        (a + b - 0x1_0000_0000_0000_0000) as u64
    }
}

/// Subtraction modulo 2^64, the semantics of homomorphic subtraction on
/// encrypted 64-bit integers.
pub open spec fn wrap_sub(a: u64, b: u64) -> u64 {
    if a >= b {
        (a - b) as u64
    } else {
        (a - b + 0x1_0000_0000_0000_0000) as u64
    }
}

} // verus!
