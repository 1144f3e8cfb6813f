//! Creating a vault.

use vstd::prelude::*;
use crate::accounts::{InitializeVault, InitializeView};
use crate::error::{verdict, VaultError};
use crate::ratio::table_view;
use crate::vault::{ratio_table_error, VaultData, VaultView};

verus! {

/// Why a vault cannot be created, if it cannot: the place of the record must
/// be empty, and the ratio table, if one is given, must be fit for a record.
pub open spec fn initialization_error(
    accounts: InitializeView,
    ratios: Option<Seq<u64>>,
) -> Option<VaultError> {
    if accounts.vault_data is Some {
        Some(VaultError::AlreadyInitialized)
    } else {
        ratio_table_error(ratios)
    }
}

/// The accounts after a call to create the vault: with the new record in its
/// place where the call is accepted, and as they were where it is not.
pub open spec fn after_initialize(
    accounts: InitializeView,
    ratios: Option<Seq<u64>>,
) -> InitializeView {
    if initialization_error(accounts, ratios) is None {
        InitializeView {
            vault_data: Some(VaultView::fresh(accounts.owner, accounts.vault, ratios)),
            ..accounts
        }
    } else {
        accounts
    }
}

/// Creates the vault: the caller becomes its owner, the pool is empty and no
/// round is open.
///
/// A vault is created once: where a record exists already, the call is turned
/// down with `AlreadyInitialized`. A ratio table must add up to one hundred
/// (`InvalidRatioSum`) and have at most ten entries (`CapacityExceeded`); a
/// vault can also be created without one. A call that is turned down changes
/// nothing.
pub fn initialize_vault(
    ctx: &mut InitializeVault,
    reward_ratios: Option<Vec<u64>>,
) -> (created: Result<(), VaultError>)
    ensures
        created == verdict(initialization_error(old(ctx)@, table_view(reward_ratios))),
        final(ctx)@ == after_initialize(old(ctx)@, table_view(reward_ratios)),
        created is Err ==> *final(ctx) == *old(ctx),
{
    if ctx.vault_data.is_some() {
        return Err(VaultError::AlreadyInitialized);
    }
    match VaultData::from_parts(ctx.owner, ctx.vault, reward_ratios, 0, false) {
        Ok(record) => {
            ctx.vault_data = Some(record);
            Ok(())
        },
        Err(e) => Err(e),
    }
}

} // verus!
