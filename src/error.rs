use vstd::prelude::*;

verus! {

/// Every way in which a bridge operation can be refused.
///
/// A refused operation leaves all records as they were.
#[derive(Debug, Clone, Copy, PartialEq, Eq, Structural)]
pub enum BridgeError {
    Underflow,
    Overflow,
    AccountNotOwnedByBridge,
    MapKeyNotFound,
    TokenAlreadyAdded,
    TokenAlreadyPaused,
    TokenAlreadyUnpaused,
    RequestToSameChain,
    NothingToWithdraw,
    NonExistantToken,
    AlreadyClaimed,
    ClaimAboveDailyLimit,
    TokenAccountKeyMismatch,
    Unauthorized,
    MissingSignature,
    AlreadyInitialized,
    NotInitialized,
    InvalidSignature,
    InvalidArgument,
}

impl BridgeError {
    /// The numeric code under which the host reports this error.
    pub fn code(&self) -> (r: u32)
        ensures
            r < 19,
    {
        match self {
            BridgeError::Underflow => 0,
            BridgeError::Overflow => 1,
            BridgeError::AccountNotOwnedByBridge => 2,
            BridgeError::MapKeyNotFound => 3,
            BridgeError::TokenAlreadyAdded => 4,
            BridgeError::TokenAlreadyPaused => 5,
            BridgeError::TokenAlreadyUnpaused => 6,
            BridgeError::RequestToSameChain => 7,
            BridgeError::NothingToWithdraw => 8,
            BridgeError::NonExistantToken => 9,
            BridgeError::AlreadyClaimed => 10,
            BridgeError::ClaimAboveDailyLimit => 11,
            BridgeError::TokenAccountKeyMismatch => 12,
            BridgeError::Unauthorized => 13,
            BridgeError::MissingSignature => 14,
            BridgeError::AlreadyInitialized => 15,
            BridgeError::NotInitialized => 16,
            BridgeError::InvalidSignature => 17,
            BridgeError::InvalidArgument => 18,
        }
    }

    /// A short human-readable description of the error.
    pub fn message(&self) -> (r: &'static str) {
        match self {
            BridgeError::Underflow => "Underflow.",
            BridgeError::Overflow => "Overflow.",
            BridgeError::AccountNotOwnedByBridge => "Account is not owned by Bridge.",
            BridgeError::MapKeyNotFound => "Given key doesn't map to any value.",
            BridgeError::TokenAlreadyAdded => "Token already added.",
            BridgeError::TokenAlreadyPaused => "Token already paused.",
            BridgeError::TokenAlreadyUnpaused => "Token already unpaused.",
            BridgeError::RequestToSameChain => "Cannot request to same chain.",
            BridgeError::NothingToWithdraw => "Nothing to withdraw.",
            BridgeError::NonExistantToken => "Token doesn't exist.",
            BridgeError::AlreadyClaimed => "Token already claimed.",
            BridgeError::ClaimAboveDailyLimit => "Cannot claim above daily limit.",
            BridgeError::TokenAccountKeyMismatch => "Bridge Token account key mismatch.",
            BridgeError::Unauthorized => "Caller is not the bridge owner.",
            BridgeError::MissingSignature => "Required signature is missing.",
            BridgeError::AlreadyInitialized => "Bridge already initialized.",
            BridgeError::NotInitialized => "Bridge is not initialized.",
            BridgeError::InvalidSignature => "Receipt signature is invalid.",
            BridgeError::InvalidArgument => "Invalid argument.",
        }
    }
}

} // verus!
