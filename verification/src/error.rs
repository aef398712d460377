//! The ways in which an operation can fail.

use vstd::prelude::*;

verus! {

/// Why an operation was refused. Every error leaves all records as they were.
#[derive(Clone, Copy, Debug, PartialEq, Eq, Structural)]
pub enum ErrorCode {
    /// Someone other than the owner tried to change the global configuration.
    Unauthorized,
    /// A distribution does not sum to exactly 10000, or a setting outside
    /// `1..=6` reached the payout engine.
    InvalidProbabilities,
    /// A play was attempted at or beyond the cap of 1000 plays.
    MaxPlaysReached,
    /// The record to create is already there.
    AlreadyExists,
    /// There is no user record for the player.
    NotFound,
    /// The ledger refused to move the play cost. `code` is the ledger's own
    /// error, as the ledger gave it.
    LedgerTransferFailed { code: u64 },
    /// The runtime did not hand out its clock, so no random value could be drawn.
    ClockUnavailable,
}

impl ErrorCode {
    /// The text of each error.
    pub open spec fn message_text(self) -> Seq<char> {
        match self {
            ErrorCode::Unauthorized => "Unauthorized"@,
            ErrorCode::InvalidProbabilities => "Invalid probabilities"@,
            ErrorCode::MaxPlaysReached => "Max plays reached"@,
            ErrorCode::AlreadyExists => "Already exists"@,
            ErrorCode::NotFound => "Not found"@,
            ErrorCode::LedgerTransferFailed { .. } => "Ledger transfer failed"@,
            ErrorCode::ClockUnavailable => "Clock unavailable"@,
        }
    }

    /// A short human-readable description of the error.
    pub fn message(&self) -> (text: &'static str)
        ensures
            text@ == self.message_text(),
    {
        match self {
            ErrorCode::Unauthorized => "Unauthorized",
            ErrorCode::InvalidProbabilities => "Invalid probabilities",
            ErrorCode::MaxPlaysReached => "Max plays reached",
            ErrorCode::AlreadyExists => "Already exists",
            ErrorCode::NotFound => "Not found",
            ErrorCode::LedgerTransferFailed { .. } => "Ledger transfer failed",
            ErrorCode::ClockUnavailable => "Clock unavailable",
        }
    }
}

} // verus!
