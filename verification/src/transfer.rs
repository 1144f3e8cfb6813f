//! What is asked of the ledger, and what the ledger does with it.

use vstd::prelude::*;
use crate::identity::Identity;

verus! {

/// One movement of value that the ledger is asked to carry out.
#[derive(Clone, Copy, Debug, PartialEq, Eq)]
pub struct Transfer {
    /// The account that pays, and by whose authority the transfer is made: a
    /// caller pays by the credential presented with the call, the custody
    /// account by the capability that the host holds for it.
    pub from: Identity,
    /// The account that receives.
    pub to: Identity,
    /// How much moves, in the smallest unit of the ledger.
    pub amount: u64,
}

/// The amounts of a list of transfers, in order.
pub open spec fn amounts_of(transfers: Seq<Transfer>) -> Seq<u64> {
    Seq::new(transfers.len(), |i: int| transfers[i].amount)
}

/// The balance of `account` once the ledger has carried out `transfer`: what
/// it paid is gone from it, and what it received has come to it.
pub open spec fn balance_after(account: Identity, balance: int, transfer: Transfer) -> int {
    balance - (if transfer.from == account {
        transfer.amount as int
    } else {
        0
    }) + (if transfer.to == account {
        transfer.amount as int
    } else {
        0
    })
}

/// The balance of `account` once the ledger has carried out `transfers`, one
/// after the other.
pub open spec fn balance_after_all(
    account: Identity,
    balance: int,
    transfers: Seq<Transfer>,
) -> int
    decreases transfers.len(),
{
    if transfers.len() == 0 {
        balance
    } else {
        balance_after(
            account,
            balance_after_all(account, balance, transfers.drop_last()),
            transfers.last(),
        )
    }
}

} // verus!
