//! A pooled-funds escrow: participants pay into one custody account, and the
//! owner of the vault later releases the balance to a set of recipients.
//!
//! The crate decides; it moves no value itself. The host reads what an
//! operation needs from the ledger and hands it over as plain values: who
//! calls, what the custody account holds, which accounts were presented.
//! Whose call it is has been settled by then: the crate compares identities
//! and asks for no credentials.
//!
//! An operation that needs the ledger comes in two steps. The first plans:
//! it holds the request against its conditions and, when all are met, gives
//! the transfers to ask of the ledger, changing nothing. The host then has
//! the ledger carry them out, in order, up to the first that is refused. The
//! second step settles: told what the ledger answered, it brings the record
//! up to date, or leaves it exactly as it was. Every error but
//! `TransferFailed` is found while planning, before anything has moved.
//!
//! - [`initialize_vault`] creates the record of a vault, once.
//! - [`deposit_sol`] and [`settle_deposit`] pay into a vault without rounds.
//! - [`start_round`] opens a round; [`participate`] and
//!   [`settle_participation`] pay into it; [`end_round`] and
//!   [`settle_end_round`] pay the winners and close it.
//! - [`distribute`] and [`settle_distribution`] release the balance of a
//!   vault without rounds, by a list of amounts or by the ratio table of the
//!   vault; [`distribute_sol`] is the distribution by ratio.
//!
//! What holds across operations is proved in [`laws`].

pub mod accounts;
pub mod deposit;
pub mod distribute;
pub mod error;
pub mod identity;
pub mod initialize;
pub mod laws;
pub mod ratio;
pub mod round;
pub mod transfer;
pub mod vault;

pub use crate::accounts::{DepositSol, DistributeSol, InitializeVault};
pub use crate::deposit::{deposit_sol, settle_deposit};
pub use crate::distribute::{distribute, distribute_sol, settle_distribution, Payout};
pub use crate::error::{TransferOutcome, VaultError};
pub use crate::identity::Identity;
pub use crate::initialize::initialize_vault;
pub use crate::round::{
    end_round, participate, settle_end_round, settle_participation, start_round,
};
pub use crate::transfer::Transfer;
pub use crate::vault::VaultData;
