//! The ways an operation of the escrow can end.

use vstd::prelude::*;

verus! {

/// Why an operation was rejected.
///
/// Every kind but `TransferFailed` is found before the ledger is asked for
/// anything; `TransferFailed` reports what the ledger answered.
#[derive(Clone, Copy, Debug, PartialEq, Eq, Structural)]
pub enum VaultError {
    /// The caller is not the owner recorded for the vault.
    Unauthorized,
    /// The reward ratios do not add up to one hundred.
    InvalidRatioSum,
    /// The custody balance does not cover the distribution.
    InsufficientFunds,
    /// The recipients presented do not match what the payout needs.
    MismatchedRecipients,
    /// A record already exists where a new one was to be created.
    AlreadyInitialized,
    /// The ratio table has more entries than the record has room for.
    CapacityExceeded,
    /// A round was to be opened while one is open.
    RoundAlreadyActive,
    /// The operation needs an open round, and none is open.
    RoundNotActive,
    /// The recipients and the amounts are not of one length.
    InvalidInput,
    /// The ledger refused one of the transfers.
    TransferFailed,
}

impl VaultError {
    /// What each error says, in words.
    pub open spec fn message_text(self) -> Seq<char> {
        match self {
            VaultError::Unauthorized => {
                "Unauthorized access! Only the vault owner can distribute funds."@
            },
            VaultError::InvalidRatioSum => "The sum of reward ratios must be 100."@,
            VaultError::InsufficientFunds => "Vault does not have enough SOL to distribute."@,
            VaultError::MismatchedRecipients => {
                "Number of recipients must match number of reward ratios."@
            },
            VaultError::AlreadyInitialized => "The vault has already been initialized."@,
            VaultError::CapacityExceeded => "The vault has room for at most 10 reward ratios."@,
            VaultError::RoundAlreadyActive => "A round is already active."@,
            VaultError::RoundNotActive => "No round is active."@,
            VaultError::InvalidInput => "Recipients and amounts must have the same length."@,
            VaultError::TransferFailed => "The ledger refused a transfer."@,
        }
    }

    /// The message of this error.
    pub fn message(&self) -> (text: &'static str)
        ensures
            text@ == self.message_text(),
    {
        match self {
            VaultError::Unauthorized => {
                "Unauthorized access! Only the vault owner can distribute funds."
            },
            VaultError::InvalidRatioSum => "The sum of reward ratios must be 100.",
            VaultError::InsufficientFunds => "Vault does not have enough SOL to distribute.",
            VaultError::MismatchedRecipients => {
                "Number of recipients must match number of reward ratios."
            },
            VaultError::AlreadyInitialized => "The vault has already been initialized.",
            VaultError::CapacityExceeded => "The vault has room for at most 10 reward ratios.",
            VaultError::RoundAlreadyActive => "A round is already active.",
            VaultError::RoundNotActive => "No round is active.",
            VaultError::InvalidInput => "Recipients and amounts must have the same length.",
            VaultError::TransferFailed => "The ledger refused a transfer.",
        }
    }
}

/// What the ledger answered when it was asked to carry out the transfers of
/// one operation, in their order.
#[derive(Clone, Copy, Debug, PartialEq, Eq, Structural)]
pub enum TransferOutcome {
    /// Every transfer went through.
    Completed,
    /// A transfer was refused; those after it were not asked for.
    Failed,
}

/// How an operation ends that asks nothing of the ledger: with the error of
/// the condition that it fails first, and well if it fails none.
pub open spec fn verdict(error: Option<VaultError>) -> Result<(), VaultError> {
    match error {
        Some(e) => Err(e),
        None => Ok(()),
    }
}

/// How an operation ends that asks the ledger for transfers: with the error
/// of the condition that it fails first, if it fails one; else with
/// `TransferFailed`, if the ledger refused a transfer; else well.
pub open spec fn settlement(
    error: Option<VaultError>,
    outcome: TransferOutcome,
) -> Result<(), VaultError> {
    match error {
        Some(e) => Err(e),
        None => match outcome {
            TransferOutcome::Completed => Ok(()),
            TransferOutcome::Failed => Err(VaultError::TransferFailed),
        },
    }
}

} // verus!
