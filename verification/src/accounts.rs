//! What each operation is handed: the identities, balances and records that
//! the host has read for it.

use vstd::prelude::*;
use crate::identity::Identity;
use crate::vault::{VaultData, VaultView};

verus! {

/// The accounts of `initialize_vault`.
#[derive(Clone, Debug, PartialEq, Eq)]
pub struct InitializeVault {
    /// The place of the record: empty until a vault has been created there.
    pub vault_data: Option<VaultData>,
    /// The custody account that the vault is to use.
    pub vault: Identity,
    /// The caller, who becomes the owner.
    pub owner: Identity,
}

/// The accounts of `initialize_vault`, as plain mathematics: field by field
/// what `InitializeVault` holds.
pub struct InitializeView {
    pub vault_data: Option<VaultView>,
    pub vault: Identity,
    pub owner: Identity,
}

impl View for InitializeVault {
    type V = InitializeView;

    open spec fn view(&self) -> InitializeView {
        InitializeView {
            vault_data: match self.vault_data {
                Some(record) => Some(record@),
                None => None,
            },
            vault: self.vault,
            owner: self.owner,
        }
    }
}

/// The accounts of `deposit_sol`.
#[derive(Clone, Copy, Debug, PartialEq, Eq)]
pub struct DepositSol {
    /// The caller, who pays.
    pub user: Identity,
    /// The custody account, which receives.
    pub vault: Identity,
}

/// The accounts of a distribution.
#[derive(Clone, Debug, PartialEq, Eq)]
pub struct DistributeSol {
    /// The caller.
    pub owner: Identity,
    /// The balance of the custody account, as the ledger gave it for this
    /// call.
    pub vault_lamports: u64,
    /// The record of the vault.
    pub vault_data: VaultData,
    /// The recipient accounts that were presented with the call, in order.
    pub remaining_accounts: Vec<Identity>,
}

/// The accounts of a distribution, as plain mathematics: field by field what
/// `DistributeSol` holds.
pub struct DistributeView {
    pub owner: Identity,
    pub vault_lamports: u64,
    pub vault_data: VaultView,
    pub remaining_accounts: Seq<Identity>,
}

impl View for DistributeSol {
    type V = DistributeView;

    open spec fn view(&self) -> DistributeView {
        DistributeView {
            owner: self.owner,
            vault_lamports: self.vault_lamports,
            vault_data: self.vault_data@,
            remaining_accounts: self.remaining_accounts@,
        }
    }
}

} // verus!
