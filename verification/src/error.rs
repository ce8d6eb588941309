use vstd::prelude::*;

verus! {

/// The ways a distribution request can fail. Every failure aborts the whole
/// request: no instruction is emitted alongside an error.
#[derive(Clone, Debug, PartialEq, Eq)]
pub enum ContractError {
    /// The inbound hook payload could not be decoded into a known request.
    Generic(String),
    /// The declared asset does not match the asset actually supplied: a coin
    /// with a foreign denomination was attached, or the custodial-token hook
    /// was sent by a contract other than the declared token.
    MismatchedAssetType,
    /// The recipient amounts do not sum to the deposited amount.
    MismatchedAssetAmount,
    /// Two recipient entries are structurally identical.
    DuplicateRecipient,
    /// The host's address validator rejected a recipient address; the
    /// validator's message is carried unchanged.
    InvalidAddress(String),
}

} // verus!
