//! Rounds: the owner opens one, participants pay in while it is open, and the
//! owner ends it by paying out.

use vstd::prelude::*;
use crate::accounts::{DistributeSol, DistributeView};
use crate::deposit::after_deposit;
use crate::distribute::{
    examine_payout, payout_error, payout_transfers, planned_transfers, Payout, PayoutView,
};
use crate::error::{settlement, verdict, TransferOutcome, VaultError};
use crate::identity::Identity;
use crate::transfer::Transfer;
use crate::vault::{VaultData, VaultView};

verus! {

/// Why a round cannot be opened, if it cannot: the caller must be the owner,
/// and no round may be open.
pub open spec fn start_round_error(vault: VaultView, caller: Identity) -> Option<VaultError> {
    if caller != vault.owner {
        Some(VaultError::Unauthorized)
    } else if vault.active {
        Some(VaultError::RoundAlreadyActive)
    } else {
        None
    }
}

/// The record after a call to open a round: with the round open where the
/// call is accepted, and as it was before where it is not.
pub open spec fn after_start_round(vault: VaultView, caller: Identity) -> VaultView {
    if start_round_error(vault, caller) is None {
        vault.with_round_open()
    } else {
        vault
    }
}

/// Why a payment into the round is turned down, if it is: a round must be
/// open.
pub open spec fn participation_error(vault: VaultView) -> Option<VaultError> {
    if vault.active {
        None
    } else {
        Some(VaultError::RoundNotActive)
    }
}

/// Which condition of ending a round fails first, if any: the caller must be
/// the owner, a round must be open, and the payout must pass its own
/// conditions.
pub open spec fn end_round_error(accounts: DistributeView, payout: PayoutView) -> Option<
    VaultError,
> {
    if accounts.owner != accounts.vault_data.owner {
        Some(VaultError::Unauthorized)
    } else if !accounts.vault_data.active {
        Some(VaultError::RoundNotActive)
    } else {
        payout_error(accounts, payout)
    }
}

/// The accounts after the end of a round has run its course: the pool
/// emptied and the round closed where the request passed every condition and
/// the ledger carried out every transfer, and all as it was before in every
/// other case.
pub open spec fn after_end_round(
    accounts: DistributeView,
    error: Option<VaultError>,
    outcome: TransferOutcome,
) -> DistributeView {
    if settlement(error, outcome) is Ok {
        DistributeView { vault_data: accounts.vault_data.with_round_closed(), ..accounts }
    } else {
        accounts
    }
}

/// Opens a round.
///
/// Only the owner may (`Unauthorized`), and only while no round is open
/// (`RoundAlreadyActive`). A call that is turned down changes nothing.
pub fn start_round(
    vault_data: &mut VaultData,
    caller: &Identity,
) -> (started: Result<(), VaultError>)
    ensures
        started == verdict(start_round_error(old(vault_data)@, *caller)),
        final(vault_data)@ == after_start_round(old(vault_data)@, *caller),
        started is Err ==> *final(vault_data) == *old(vault_data),
{
    if *caller != vault_data.owner() {
        return Err(VaultError::Unauthorized);
    }
    if vault_data.is_active() {
        return Err(VaultError::RoundAlreadyActive);
    }
    vault_data.open_round();
    Ok(())
}

/// Plans a payment into the open round.
///
/// While a round is open, anyone may pay in, any amount: the transfer to ask
/// of the ledger comes back, from the caller to the custody account. While
/// none is open, the call is turned down with `RoundNotActive`. Nothing is
/// changed here: the pool is touched only when the payment is settled, with
/// what the ledger answered.
pub fn participate(
    vault_data: &VaultData,
    caller: &Identity,
    amount: u64,
) -> (planned: Result<Transfer, VaultError>)
    ensures
        match planned {
            Ok(transfer) => {
                &&& participation_error(vault_data@) is None
                &&& transfer == Transfer { from: *caller, to: vault_data@.vault, amount }
            },
            Err(e) => participation_error(vault_data@) == Some(e),
        },
{
    if !vault_data.is_active() {
        return Err(VaultError::RoundNotActive);
    }
    Ok(Transfer { from: *caller, to: vault_data.vault(), amount })
}

/// Settles a payment into the round with what the ledger answered.
///
/// `amount` is what the payment was planned with, and `outcome` is what became
/// of its transfer. When a round is open and the transfer went through, the
/// pool grows by exactly `amount`. In every other case the record stays
/// exactly as it was: with no round open the call ends with `RoundNotActive`,
/// and with a transfer that the ledger refused with `TransferFailed`.
///
/// The pool counter must have room for the amount: `has_room_for` tells
/// whether it has, and is to be asked before the ledger is.
pub fn settle_participation(
    vault_data: &mut VaultData,
    amount: u64,
    outcome: TransferOutcome,
) -> (settled: Result<(), VaultError>)
    requires
        settlement(participation_error(old(vault_data)@), outcome) is Ok
            ==> old(vault_data)@.total_pool + amount <= u64::MAX,
    ensures
        settled == settlement(participation_error(old(vault_data)@), outcome),
        final(vault_data)@ == after_deposit(
            old(vault_data)@,
            participation_error(old(vault_data)@),
            amount,
            outcome,
        ),
        settled is Err ==> *final(vault_data) == *old(vault_data),
{
    if !vault_data.is_active() {
        return Err(VaultError::RoundNotActive);
    }
    match outcome {
        TransferOutcome::Completed => {
            vault_data.credit(amount);
            Ok(())
        },
        TransferOutcome::Failed => Err(VaultError::TransferFailed),
    }
}

/// Plans the end of a round: the payout that closes it.
///
/// Nothing is changed and nothing is moved here. The conditions, in order:
/// the caller is the owner (`Unauthorized`), a round is open
/// (`RoundNotActive`), then those of the payout, as in `distribute`. When all
/// are met, the transfers to ask of the ledger come back, in order, each paid
/// by the custody account; the end of the round is settled afterwards, with
/// what the ledger answered.
pub fn end_round(
    ctx: &DistributeSol,
    payout: &Payout,
) -> (planned: Result<Vec<Transfer>, VaultError>)
    ensures
        match planned {
            Ok(transfers) => {
                &&& end_round_error(ctx@, payout@) is None
                &&& transfers@ == planned_transfers(ctx@, payout@)
            },
            Err(e) => end_round_error(ctx@, payout@) == Some(e),
        },
{
    if ctx.owner != ctx.vault_data.owner() {
        return Err(VaultError::Unauthorized);
    }
    if !ctx.vault_data.is_active() {
        return Err(VaultError::RoundNotActive);
    }
    match examine_payout(ctx, payout) {
        Ok(_) => Ok(payout_transfers(ctx, payout)),
        Err(e) => Err(e),
    }
}

/// Settles the end of a round with what the ledger answered.
///
/// `ctx` and `payout` are those that the end of the round was planned with,
/// and `outcome` is what became of its transfers. The request is held against
/// its conditions once more. When it passes and every transfer went through,
/// the pool is set to zero and the round is closed. In every other case
/// everything stays exactly as it was, the round open: a request that fails a
/// condition ends with the error of that condition, and one whose transfers
/// the ledger refused with `TransferFailed`.
pub fn settle_end_round(
    ctx: &mut DistributeSol,
    payout: &Payout,
    outcome: TransferOutcome,
) -> (settled: Result<(), VaultError>)
    ensures
        settled == settlement(end_round_error(old(ctx)@, payout@), outcome),
        final(ctx)@ == after_end_round(
            old(ctx)@,
            end_round_error(old(ctx)@, payout@),
            outcome,
        ),
        settled is Err ==> *final(ctx) == *old(ctx),
{
    if ctx.owner != ctx.vault_data.owner() {
        return Err(VaultError::Unauthorized);
    }
    if !ctx.vault_data.is_active() {
        return Err(VaultError::RoundNotActive);
    }
    match examine_payout(ctx, payout) {
        Ok(_) => match outcome {
            TransferOutcome::Completed => {
                ctx.vault_data.close_round();
                Ok(())
            },
            TransferOutcome::Failed => Err(VaultError::TransferFailed),
        },
        Err(e) => Err(e),
    }
}

} // verus!
