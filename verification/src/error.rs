//! The ways in which an operation on a swap is turned down.

use vstd::prelude::*;

verus! {

/// Why an operation was refused. A refusal leaves the registry as it was.
#[derive(Clone, Copy, Debug, PartialEq, Eq, Structural)]
pub enum HtlcError {
    InvalidAmount,
    InvalidHashlockLength,
    InvalidTimelock,
    DuplicateSwapId,
    SwapNotFound,
    AlreadyWithdrawn,
    AlreadyRefunded,
    UnauthorizedRecipient,
    UnauthorizedSender,
    InvalidPreimage,
    TimelockExpired,
    TimelockNotExpired,
    AuthorizationFailed,
    AssetTransferFailed,
}

impl HtlcError {
    /// The text that goes with each refusal.
    pub open spec fn text(self) -> Seq<char> {
        match self {
            HtlcError::InvalidAmount => "amount must be positive"@,
            HtlcError::InvalidHashlockLength => "hashlock must be 32 bytes (SHA256)"@,
            HtlcError::InvalidTimelock => "timelock must be in the future"@,
            HtlcError::DuplicateSwapId => "swap_id already exists"@,
            HtlcError::SwapNotFound => "swap not found"@,
            HtlcError::AlreadyWithdrawn => "swap already withdrawn"@,
            HtlcError::AlreadyRefunded => "swap already refunded"@,
            HtlcError::UnauthorizedRecipient => "unauthorized recipient"@,
            HtlcError::UnauthorizedSender => "unauthorized sender"@,
            HtlcError::InvalidPreimage => "invalid preimage"@,
            HtlcError::TimelockExpired => "timelock expired"@,
            HtlcError::TimelockNotExpired => "timelock not expired yet"@,
            HtlcError::AuthorizationFailed => "authorization failed"@,
            HtlcError::AssetTransferFailed => "asset transfer failed"@,
        }
    }

    /// Human-readable description of the refusal.
    pub fn message(&self) -> (text: String)
        ensures
            text@ == self.text(),
    {
        let literal: &str = match self {
            HtlcError::InvalidAmount => "amount must be positive",
            HtlcError::InvalidHashlockLength => "hashlock must be 32 bytes (SHA256)",
            HtlcError::InvalidTimelock => "timelock must be in the future",
            HtlcError::DuplicateSwapId => "swap_id already exists",
            HtlcError::SwapNotFound => "swap not found",
            HtlcError::AlreadyWithdrawn => "swap already withdrawn",
            HtlcError::AlreadyRefunded => "swap already refunded",
            HtlcError::UnauthorizedRecipient => "unauthorized recipient",
            HtlcError::UnauthorizedSender => "unauthorized sender",
            HtlcError::InvalidPreimage => "invalid preimage",
            HtlcError::TimelockExpired => "timelock expired",
            HtlcError::TimelockNotExpired => "timelock not expired yet",
            HtlcError::AuthorizationFailed => "authorization failed",
            HtlcError::AssetTransferFailed => "asset transfer failed",
        };
        literal.to_owned()
    }
}

} // verus!
