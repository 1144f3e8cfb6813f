//! The record that is kept for one escrow.

use vstd::prelude::*;
use crate::error::VaultError;
use crate::identity::Identity;
use crate::ratio::{
    sums_to_hundred, table_view, total, valid_ratios, MAX_RATIO_SLOTS, RATIO_TOTAL,
};

verus! {

/// What a vault record holds, as plain mathematics.
pub struct VaultView {
    /// Who may open rounds and release the balance.
    pub owner: Identity,
    /// The custody account, which holds the pooled value.
    pub vault: Identity,
    /// The percentages by which the balance is shared out, where the vault
    /// has them.
    pub reward_ratios: Option<Seq<u64>>,
    /// What has been paid in since the last distribution.
    pub total_pool: nat,
    /// Whether a round is open.
    pub active: bool,
}

impl VaultView {
    /// A record is well formed when its ratio table, if it has one, is valid.
    pub open spec fn wf(self) -> bool {
        self.reward_ratios matches Some(ratios) ==> valid_ratios(ratios)
    }

    /// Whether `other` is a record of the same vault: the same owner, the
    /// same custody account and the same ratio table.
    pub open spec fn same_vault(self, other: VaultView) -> bool {
        &&& other.owner == self.owner
        &&& other.vault == self.vault
        &&& other.reward_ratios == self.reward_ratios
    }

    /// The record of a vault that has just been created: nothing paid in, no
    /// round open.
    pub open spec fn fresh(
        owner: Identity,
        vault: Identity,
        ratios: Option<Seq<u64>>,
    ) -> VaultView {
        VaultView { owner, vault, reward_ratios: ratios, total_pool: 0, active: false }
    }

    /// The record with a round open.
    pub open spec fn with_round_open(self) -> VaultView {
        VaultView { active: true, ..self }
    }

    /// The record after `amount` has been paid in.
    pub open spec fn with_deposit(self, amount: nat) -> VaultView {
        VaultView { total_pool: self.total_pool + amount, ..self }
    }

    /// The record after the balance has been released: the pool is empty.
    pub open spec fn with_pool_emptied(self) -> VaultView {
        VaultView { total_pool: 0, ..self }
    }

    /// The record after a round has ended: the pool is empty and no round is
    /// open.
    pub open spec fn with_round_closed(self) -> VaultView {
        VaultView { total_pool: 0, active: false, ..self }
    }
}

/// Which error, if any, keeps a ratio table out of a record: a table must add
/// up to one hundred, and then fit the slots of the record.
pub open spec fn ratio_table_error(ratios: Option<Seq<u64>>) -> Option<VaultError> {
    match ratios {
        Some(r) => if total(r) != RATIO_TOTAL {
            Some(VaultError::InvalidRatioSum)
        } else if r.len() > MAX_RATIO_SLOTS {
            Some(VaultError::CapacityExceeded)
        } else {
            None
        },
        None => None,
    }
}

/// The record of one escrow: its owner, its custody account, its ratio table
/// where it has one, the pool counter and the round flag.
///
/// The owner, the custody account and the ratio table are fixed when the
/// record is made. A ratio table in a record always adds up to one hundred and
/// has at most ten entries.
#[derive(Debug, PartialEq, Eq)]
pub struct VaultData {
    owner: Identity,
    vault: Identity,
    reward_ratios: Option<Vec<u64>>,
    total_pool: u64,
    active: bool,
}

impl View for VaultData {
    type V = VaultView;

    closed spec fn view(&self) -> VaultView {
        VaultView {
            owner: self.owner,
            vault: self.vault,
            reward_ratios: table_view(self.reward_ratios),
            total_pool: self.total_pool as nat,
            active: self.active,
        }
    }
}

impl Clone for VaultData {
    /// A copy of the record, field for field.
    fn clone(&self) -> (copy: VaultData)
        ensures
            copy@ == self@,
    {
        proof {
            use_type_invariant(self);
        }
        let reward_ratios = match &self.reward_ratios {
            Some(ratios) => Some(ratios.clone()),
            None => None,
        };
        VaultData {
            owner: self.owner,
            vault: self.vault,
            reward_ratios,
            total_pool: self.total_pool,
            active: self.active,
        }
    }
}

impl VaultData {
    /// Every record is well formed.
    #[verifier::type_invariant]
    pub open spec fn inv(&self) -> bool {
        self@.wf()
    }

    /// Makes a record from its parts, if the ratio table may stand in one.
    ///
    /// A table that does not add up to one hundred is turned down with
    /// `InvalidRatioSum`; one that does, but has more than ten entries, with
    /// `CapacityExceeded`.
    pub fn from_parts(
        owner: Identity,
        vault: Identity,
        reward_ratios: Option<Vec<u64>>,
        total_pool: u64,
        active: bool,
    ) -> (made: Result<VaultData, VaultError>)
        ensures
            match made {
                Ok(record) => {
                    &&& ratio_table_error(table_view(reward_ratios)) is None
                    &&& record@ == VaultView {
                        owner,
                        vault,
                        reward_ratios: table_view(reward_ratios),
                        total_pool: total_pool as nat,
                        active,
                    }
                    &&& record@.wf()
                },
                Err(e) => ratio_table_error(table_view(reward_ratios)) == Some(e),
            },
    {
        match &reward_ratios {
            Some(ratios) => {
                if !sums_to_hundred(ratios) {
                    return Err(VaultError::InvalidRatioSum);
                }
                if ratios.len() > MAX_RATIO_SLOTS {
                    return Err(VaultError::CapacityExceeded);
                }
            },
            None => {},
        }
        Ok(VaultData { owner, vault, reward_ratios, total_pool, active })
    }

    /// The owner of the vault.
    pub fn owner(&self) -> (owner: Identity)
        ensures
            owner == self@.owner,
    {
        self.owner
    }

    /// The custody account of the vault.
    pub fn vault(&self) -> (vault: Identity)
        ensures
            vault == self@.vault,
    {
        self.vault
    }

    /// The ratio table, where the vault has one.
    pub fn reward_ratios(&self) -> (ratios: Option<&Vec<u64>>)
        ensures
            match ratios {
                Some(r) => self@.reward_ratios == Some(r@) && valid_ratios(r@),
                None => self@.reward_ratios is None,
            },
    {
        proof {
            use_type_invariant(self);
        }
        self.reward_ratios.as_ref()
    }

    /// What has been paid in since the last distribution.
    pub fn total_pool(&self) -> (pool: u64)
        ensures
            pool == self@.total_pool,
    {
        self.total_pool
    }

    /// Whether a round is open.
    pub fn is_active(&self) -> (active: bool)
        ensures
            active == self@.active,
    {
        self.active
    }

    /// Whether the pool counter can take `amount` more: whether a payment of
    /// `amount` can be settled on this record.
    pub fn has_room_for(&self, amount: u64) -> (room: bool)
        ensures
            room == (self@.total_pool + amount <= u64::MAX),
    {
        amount <= u64::MAX - self.total_pool
    }
}

impl VaultData {
    /// Marks the round as open.
    pub(crate) fn open_round(&mut self)
        ensures
            final(self)@ == old(self)@.with_round_open(),
    {
        proof {
            use_type_invariant(&*self);
        }
        self.active = true;
    }

    /// Adds `amount` to the pool.
    pub(crate) fn credit(&mut self, amount: u64)
        requires
            old(self)@.total_pool + amount <= u64::MAX,
        ensures
            final(self)@ == old(self)@.with_deposit(amount as nat),
    {
        proof {
            use_type_invariant(&*self);
        }
        self.total_pool = self.total_pool + amount;
    }

    /// Empties the pool.
    pub(crate) fn empty_pool(&mut self)
        ensures
            final(self)@ == old(self)@.with_pool_emptied(),
    {
        proof {
            use_type_invariant(&*self);
        }
        self.total_pool = 0;
    }

    /// Empties the pool and closes the round.
    pub(crate) fn close_round(&mut self)
        ensures
            final(self)@ == old(self)@.with_round_closed(),
    {
        proof {
            use_type_invariant(&*self);
        }
        self.total_pool = 0;
        self.active = false;
    }
}

} // verus!
