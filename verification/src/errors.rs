//! The error taxonomy: local validation failures and ledger-side failures.
use vstd::prelude::*;

verus! {

/// Every failure the library or its callers surface. Validation errors are
/// produced locally, before any network traffic; the two ledger variants
/// carry the underlying error's description as reported by the RPC layer.
#[derive(Clone, Debug, PartialEq, Eq)]
pub enum CnftError {
    /// Secret key material whose length is not 64 bytes.
    InvalidKeyLength,
    /// 64 bytes that do not decode to a valid keypair.
    InvalidKeyEncoding,
    /// A string that does not decode as a base58 address.
    InvalidAddress,
    /// The collection mint string does not decode as an address.
    InvalidCollection,
    /// The merkle tree string does not decode as an address.
    InvalidTree,
    /// A creator list that could not be decoded into creator entries.
    InvalidCreators,
    /// No program-derived address could be found for the given seeds.
    DerivationFailed,
    /// The recent-blockhash fetch failed.
    LedgerUnavailable(String),
    /// The ledger rejected a submitted transaction.
    SubmissionFailed(String),
}

} // verus!
