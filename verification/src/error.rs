//! The ways in which an operation can be refused.

use vstd::prelude::*;

verus! {

/// Why an operation was refused. None of these is retryable as is: the
/// caller corrects the input or waits for the gating time to pass.
#[derive(Clone, Copy, Debug, PartialEq, Eq, Structural)]
pub enum ErrorCode {
    /// An amount was zero.
    InvalidAmount,
    /// A duration was outside the protocol bounds, or an extension would
    /// push the decay window past the longest lock.
    InvalidLockDuration,
    /// The existing lock has not expired yet.
    ExistingLockNotExpired,
    /// The position holds no lock.
    NoExistingLock,
    /// The lock has expired and must be withdrawn first.
    LockExpired,
    /// The lock has not expired yet.
    LockNotExpired,
    /// The decayed voting balance is zero.
    NoVotingPower,
    /// The pending fee share computes to zero.
    NoFeesToClaim,
    /// An arithmetic step left the range of its type.
    MathOverflow,
}

impl ErrorCode {
    /// The text that describes the refusal.
    pub open spec fn message_text(self) -> Seq<char> {
        match self {
            ErrorCode::InvalidAmount => "Invalid amount: must be greater than 0"@,
            ErrorCode::InvalidLockDuration => "Invalid lock duration: must be between 7 days and 4 years"@,
            ErrorCode::ExistingLockNotExpired => "Existing lock has not expired yet"@,
            ErrorCode::NoExistingLock => "No existing lock found"@,
            ErrorCode::LockExpired => "Lock has expired, please withdraw first"@,
            ErrorCode::LockNotExpired => "Lock has not expired yet"@,
            ErrorCode::NoVotingPower => "No voting power available"@,
            ErrorCode::NoFeesToClaim => "No fees available to claim"@,
            ErrorCode::MathOverflow => "Math overflow"@,
        }
    }

    /// Describes the refusal in words.
    pub fn message(&self) -> (text: &'static str)
        ensures
            text@ == self.message_text(),
    {
        match self {
            ErrorCode::InvalidAmount => "Invalid amount: must be greater than 0",
            ErrorCode::InvalidLockDuration => "Invalid lock duration: must be between 7 days and 4 years",
            ErrorCode::ExistingLockNotExpired => "Existing lock has not expired yet",
            ErrorCode::NoExistingLock => "No existing lock found",
            ErrorCode::LockExpired => "Lock has expired, please withdraw first",
            ErrorCode::LockNotExpired => "Lock has not expired yet",
            ErrorCode::NoVotingPower => "No voting power available",
            ErrorCode::NoFeesToClaim => "No fees available to claim",
            ErrorCode::MathOverflow => "Math overflow",
        }
    }
}

} // verus!
