//! Paying into a vault that has no rounds.

use vstd::prelude::*;
use crate::accounts::DepositSol;
use crate::error::{settlement, TransferOutcome, VaultError};
use crate::transfer::Transfer;
use crate::vault::{VaultData, VaultView};

verus! {

/// The record after a payment has run its course: the pool larger by the
/// amount where the payment was accepted and the ledger carried out its
/// transfer, and the record as it was before in every other case.
pub open spec fn after_deposit(
    vault: VaultView,
    error: Option<VaultError>,
    amount: u64,
    outcome: TransferOutcome,
) -> VaultView {
    if settlement(error, outcome) is Ok {
        vault.with_deposit(amount as nat)
    } else {
        vault
    }
}

/// Plans a payment into the vault.
///
/// A vault without rounds takes every payment, from anyone, of any amount:
/// the transfer to ask of the ledger comes back, from the caller to the
/// custody account. Whether the caller can pay is for the ledger to say.
pub fn deposit_sol(ctx: &DepositSol, amount: u64) -> (transfer: Transfer)
    ensures
        transfer == (Transfer { from: ctx.user, to: ctx.vault, amount }),
{
    Transfer { from: ctx.user, to: ctx.vault, amount }
}

/// Settles a payment into the vault with what the ledger answered, for a
/// vault that keeps count of its pool.
///
/// When the transfer went through, the pool grows by exactly `amount`. When
/// the ledger refused it, the record stays exactly as it was and the call ends
/// with `TransferFailed`.
///
/// The pool counter must have room for the amount: `has_room_for` tells
/// whether it has, and is to be asked before the ledger is.
pub fn settle_deposit(
    vault_data: &mut VaultData,
    amount: u64,
    outcome: TransferOutcome,
) -> (settled: Result<(), VaultError>)
    requires
        outcome is Completed ==> old(vault_data)@.total_pool + amount <= u64::MAX,
    ensures
        settled == settlement(None, outcome),
        final(vault_data)@ == after_deposit(old(vault_data)@, None, amount, outcome),
        settled is Err ==> *final(vault_data) == *old(vault_data),
{
    match outcome {
        TransferOutcome::Completed => {
            vault_data.credit(amount);
            Ok(())
        },
        TransferOutcome::Failed => Err(VaultError::TransferFailed),
    }
}

} // verus!
