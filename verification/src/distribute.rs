//! Releasing the custody balance: who may, when, and how much to whom.

use vstd::prelude::*;
use crate::accounts::{DistributeSol, DistributeView};
use crate::error::{settlement, TransferOutcome, VaultError};
use crate::identity::Identity;
use crate::ratio::{
    lemma_share_bounded, lemma_shares_remainder, lemma_total_bounds_entry, reward_amount, share,
    shares, total, total_within, RATIO_TOTAL,
};
use crate::transfer::{amounts_of, Transfer};

verus! {

/// How the amounts of a distribution are arrived at.
#[derive(Clone, Debug, PartialEq, Eq)]
pub enum Payout {
    /// Each recipient is paid the amount listed for it, one after the other.
    /// The amounts are not held against the balance first: a transfer that
    /// the balance does not cover fails when the ledger is asked for it, and
    /// those before it have been made by then.
    ExplicitList {
        /// Who is paid, in order.
        recipients: Vec<Identity>,
        /// What each is paid: `amounts[i]` goes to `recipients[i]`.
        amounts: Vec<u64>,
    },
    /// As `ExplicitList`, once the amounts together are covered by the
    /// balance: nothing is asked of the ledger that the balance cannot pay.
    /// This is the payout to choose for a list.
    PreflightTotal {
        /// Who is paid, in order.
        recipients: Vec<Identity>,
        /// What each is paid: `amounts[i]` goes to `recipients[i]`.
        amounts: Vec<u64>,
    },
    /// The accounts presented are paid by the ratio table of the vault: the
    /// account in place `i` gets the share of entry `i`.
    PresetRatio,
}

/// A payout, as plain mathematics: variant by variant what `Payout` holds.
pub enum PayoutView {
    ExplicitList { recipients: Seq<Identity>, amounts: Seq<u64> },
    PreflightTotal { recipients: Seq<Identity>, amounts: Seq<u64> },
    PresetRatio,
}

impl View for Payout {
    type V = PayoutView;

    open spec fn view(&self) -> PayoutView {
        match self {
            Payout::ExplicitList { recipients, amounts } => PayoutView::ExplicitList {
                recipients: recipients@,
                amounts: amounts@,
            },
            Payout::PreflightTotal { recipients, amounts } => PayoutView::PreflightTotal {
                recipients: recipients@,
                amounts: amounts@,
            },
            Payout::PresetRatio => PayoutView::PresetRatio,
        }
    }
}

/// Which condition of a listed payout fails first, if any: the two lists are
/// of one length, and at least as many accounts were presented as are listed.
pub open spec fn list_error(
    recipients: Seq<Identity>,
    amounts: Seq<u64>,
    presented: nat,
) -> Option<VaultError> {
    if recipients.len() != amounts.len() {
        Some(VaultError::InvalidInput)
    } else if presented < recipients.len() {
        Some(VaultError::MismatchedRecipients)
    } else {
        None
    }
}

/// Which condition of a payout fails first, if any.
///
/// A listed payout must pass `list_error`; with `PreflightTotal` the amounts
/// together must then be covered by the balance. For a payout by ratio the
/// balance must not be zero, and the vault must have a ratio table with one
/// entry for each account presented.
pub open spec fn payout_error(accounts: DistributeView, payout: PayoutView) -> Option<
    VaultError,
> {
    match payout {
        PayoutView::ExplicitList { recipients, amounts } => list_error(
            recipients,
            amounts,
            accounts.remaining_accounts.len(),
        ),
        PayoutView::PreflightTotal { recipients, amounts } => {
            if list_error(recipients, amounts, accounts.remaining_accounts.len()) is Some {
                list_error(recipients, amounts, accounts.remaining_accounts.len())
            } else if total(amounts) > accounts.vault_lamports {
                Some(VaultError::InsufficientFunds)
            } else {
                None
            }
        },
        PayoutView::PresetRatio => {
            if accounts.vault_lamports == 0 {
                Some(VaultError::InsufficientFunds)
            } else if !(accounts.vault_data.reward_ratios matches Some(ratios) && ratios.len()
                == accounts.remaining_accounts.len()) {
                Some(VaultError::MismatchedRecipients)
            } else {
                None
            }
        },
    }
}

/// Which condition of a distribution fails first, if any: the caller must be
/// the owner, and then the payout must pass its own conditions.
pub open spec fn distribution_error(accounts: DistributeView, payout: PayoutView) -> Option<
    VaultError,
> {
    if accounts.owner != accounts.vault_data.owner {
        Some(VaultError::Unauthorized)
    } else {
        payout_error(accounts, payout)
    }
}

/// The transfers of a listed payout: from the custody account to each
/// recipient, the amount listed for it.
pub open spec fn listed_transfers(
    from: Identity,
    recipients: Seq<Identity>,
    amounts: Seq<u64>,
) -> Seq<Transfer> {
    Seq::new(
        recipients.len(),
        |i: int| Transfer { from, to: recipients[i], amount: amounts[i] },
    )
}

/// The transfers of a payout by ratio: from the custody account to each
/// account presented, the share of the balance that its entry stands for.
pub open spec fn ratio_transfers(
    from: Identity,
    balance: u64,
    presented: Seq<Identity>,
    ratios: Seq<u64>,
) -> Seq<Transfer> {
    Seq::new(
        presented.len(),
        |i: int|
            Transfer {
                from,
                to: presented[i],
                amount: share(balance as nat, ratios[i] as nat) as u64,
            },
    )
}

/// The transfers that a payout asks of the ledger, in the order in which they
/// are to be carried out. Each is paid by the custody account of the vault.
pub open spec fn planned_transfers(accounts: DistributeView, payout: PayoutView) -> Seq<
    Transfer,
> {
    match payout {
        PayoutView::ExplicitList { recipients, amounts } => listed_transfers(
            accounts.vault_data.vault,
            recipients,
            amounts,
        ),
        PayoutView::PreflightTotal { recipients, amounts } => listed_transfers(
            accounts.vault_data.vault,
            recipients,
            amounts,
        ),
        PayoutView::PresetRatio => ratio_transfers(
            accounts.vault_data.vault,
            accounts.vault_lamports,
            accounts.remaining_accounts,
            accounts.vault_data.reward_ratios.unwrap(),
        ),
    }
}

/// The accounts after a distribution has run its course: the pool emptied
/// where the request passed every condition and the ledger carried out every
/// transfer, and all as it was before in every other case.
pub open spec fn after_distribution(
    accounts: DistributeView,
    error: Option<VaultError>,
    outcome: TransferOutcome,
) -> DistributeView {
    if settlement(error, outcome) is Ok {
        DistributeView { vault_data: accounts.vault_data.with_pool_emptied(), ..accounts }
    } else {
        accounts
    }
}

/// Pairs each recipient with its amount.
fn list_payouts(
    from: Identity,
    recipients: &Vec<Identity>,
    amounts: &Vec<u64>,
) -> (transfers: Vec<Transfer>)
    requires
        recipients.len() == amounts.len(),
    ensures
        transfers@ == listed_transfers(from, recipients@, amounts@),
{
    let mut transfers: Vec<Transfer> = Vec::new();
    let mut i: usize = 0;
    while i < recipients.len()
        invariant
            i <= recipients.len(),
            recipients.len() == amounts.len(),
            transfers@ == listed_transfers(from, recipients@, amounts@).take(i as int),
        decreases recipients.len() - i,
    {
        transfers.push(Transfer { from, to: recipients[i], amount: amounts[i] });
        i += 1;
    }
    transfers
}

/// Gives each account presented the share of its entry in the table.
fn ratio_payouts(
    from: Identity,
    balance: u64,
    presented: &Vec<Identity>,
    ratios: &Vec<u64>,
) -> (transfers: Vec<Transfer>)
    requires
        presented.len() == ratios.len(),
        total(ratios@) == RATIO_TOTAL,
    ensures
        transfers@ == ratio_transfers(from, balance, presented@, ratios@),
{
    let mut transfers: Vec<Transfer> = Vec::new();
    let mut i: usize = 0;
    while i < presented.len()
        invariant
            i <= presented.len(),
            presented.len() == ratios.len(),
            total(ratios@) == RATIO_TOTAL,
            transfers@ == ratio_transfers(from, balance, presented@, ratios@).take(i as int),
        decreases presented.len() - i,
    {
        proof {
            lemma_total_bounds_entry(ratios@, i as int);
        }
        let amount = reward_amount(balance, ratios[i]);
        transfers.push(Transfer { from, to: presented[i], amount });
        i += 1;
    }
    transfers
}

/// Holds a payout against its conditions.
pub(crate) fn examine_payout(
    ctx: &DistributeSol,
    payout: &Payout,
) -> (examined: Result<(), VaultError>)
    ensures
        match examined {
            Ok(_) => payout_error(ctx@, payout@) is None,
            Err(e) => payout_error(ctx@, payout@) == Some(e),
        },
{
    match payout {
        Payout::ExplicitList { recipients, amounts } => {
            if recipients.len() != amounts.len() {
                return Err(VaultError::InvalidInput);
            }
            if ctx.remaining_accounts.len() < recipients.len() {
                return Err(VaultError::MismatchedRecipients);
            }
            Ok(())
        },
        Payout::PreflightTotal { recipients, amounts } => {
            if recipients.len() != amounts.len() {
                return Err(VaultError::InvalidInput);
            }
            if ctx.remaining_accounts.len() < recipients.len() {
                return Err(VaultError::MismatchedRecipients);
            }
            if total_within(amounts, ctx.vault_lamports).is_none() {
                return Err(VaultError::InsufficientFunds);
            }
            Ok(())
        },
        Payout::PresetRatio => {
            if ctx.vault_lamports == 0 {
                return Err(VaultError::InsufficientFunds);
            }
            match ctx.vault_data.reward_ratios() {
                Some(ratios) => {
                    if ctx.remaining_accounts.len() != ratios.len() {
                        return Err(VaultError::MismatchedRecipients);
                    }
                    Ok(())
                },
                None => Err(VaultError::MismatchedRecipients),
            }
        },
    }
}

/// Lists the transfers of a payout that has passed its conditions.
pub(crate) fn payout_transfers(ctx: &DistributeSol, payout: &Payout) -> (transfers: Vec<Transfer>)
    requires
        payout_error(ctx@, payout@) is None,
    ensures
        transfers@ == planned_transfers(ctx@, payout@),
{
    let from = ctx.vault_data.vault();
    match payout {
        Payout::ExplicitList { recipients, amounts } => list_payouts(from, recipients, amounts),
        Payout::PreflightTotal { recipients, amounts } => list_payouts(from, recipients, amounts),
        Payout::PresetRatio => match ctx.vault_data.reward_ratios() {
            Some(ratios) => ratio_payouts(
                from,
                ctx.vault_lamports,
                &ctx.remaining_accounts,
                ratios,
            ),
            None => Vec::new(),
        },
    }
}

/// Plans a distribution of the custody balance, for a vault without rounds.
///
/// Nothing is changed and nothing is moved here. When the request passes
/// every condition, the transfers to ask of the ledger come back, in order,
/// each paid by the custody account; the distribution is settled afterwards,
/// with what the ledger answered.
///
/// The conditions, in order: the caller is the owner (`Unauthorized`); then
/// those of the payout. For a listed payout: recipients and amounts are of
/// one length (`InvalidInput`), at least as many accounts were presented as
/// are listed (`MismatchedRecipients`), and, with `PreflightTotal`, the
/// amounts together are covered by the balance (`InsufficientFunds`). For a
/// payout by ratio: the balance is not zero (`InsufficientFunds`), and the
/// vault has a ratio table with one entry for each account presented
/// (`MismatchedRecipients`).
pub fn distribute(
    ctx: &DistributeSol,
    payout: &Payout,
) -> (planned: Result<Vec<Transfer>, VaultError>)
    ensures
        match planned {
            Ok(transfers) => {
                &&& distribution_error(ctx@, payout@) is None
                &&& transfers@ == planned_transfers(ctx@, payout@)
            },
            Err(e) => distribution_error(ctx@, payout@) == Some(e),
        },
{
    if ctx.owner != ctx.vault_data.owner() {
        return Err(VaultError::Unauthorized);
    }
    match examine_payout(ctx, payout) {
        Ok(_) => Ok(payout_transfers(ctx, payout)),
        Err(e) => Err(e),
    }
}

/// Settles a distribution with what the ledger answered.
///
/// `ctx` and `payout` are those that the distribution was planned with, and
/// `outcome` is what became of its transfers. The request is held against
/// its conditions once more. When it passes and every transfer went through,
/// the pool is set to zero. In every other case everything stays exactly as
/// it was: a request that fails a condition ends with the error of that
/// condition, and one whose transfers the ledger refused with
/// `TransferFailed`.
pub fn settle_distribution(
    ctx: &mut DistributeSol,
    payout: &Payout,
    outcome: TransferOutcome,
) -> (settled: Result<(), VaultError>)
    ensures
        settled == settlement(distribution_error(old(ctx)@, payout@), outcome),
        final(ctx)@ == after_distribution(
            old(ctx)@,
            distribution_error(old(ctx)@, payout@),
            outcome,
        ),
        settled is Err ==> *final(ctx) == *old(ctx),
{
    if ctx.owner != ctx.vault_data.owner() {
        return Err(VaultError::Unauthorized);
    }
    match examine_payout(ctx, payout) {
        Ok(_) => match outcome {
            TransferOutcome::Completed => {
                ctx.vault_data.empty_pool();
                Ok(())
            },
            TransferOutcome::Failed => Err(VaultError::TransferFailed),
        },
        Err(e) => Err(e),
    }
}

/// Plans the distribution of the custody balance by the ratio table of the
/// vault.
///
/// This is `distribute` with `Payout::PresetRatio`: the owner calls, the
/// balance is not zero, and one account is presented for each entry of the
/// table. The account in place `i` is to get `balance * ratio[i] / 100`,
/// rounded down. What rounding loses stays in the custody account: the
/// transfers together never ask for more than the balance, and leave behind
/// at most one unit less than the table has entries.
pub fn distribute_sol(ctx: &DistributeSol) -> (planned: Result<Vec<Transfer>, VaultError>)
    ensures
        match planned {
            Ok(transfers) => {
                &&& distribution_error(ctx@, PayoutView::PresetRatio) is None
                &&& transfers@ == ratio_transfers(
                    ctx@.vault_data.vault,
                    ctx@.vault_lamports,
                    ctx@.remaining_accounts,
                    ctx@.vault_data.reward_ratios.unwrap(),
                )
                &&& forall|i: int|
                    0 <= i < transfers.len() ==> (#[trigger] transfers[i]).amount == share(
                        ctx@.vault_lamports as nat,
                        ctx@.vault_data.reward_ratios.unwrap()[i] as nat,
                    )
                &&& total(amounts_of(transfers@)) <= ctx.vault_lamports
                &&& ctx.vault_lamports - total(amounts_of(transfers@)) <= transfers.len() - 1
            },
            Err(e) => distribution_error(ctx@, PayoutView::PresetRatio) == Some(e),
        },
{
    let planned = distribute(ctx, &Payout::PresetRatio);
    proof {
        if planned is Ok {
            use_type_invariant(&ctx.vault_data);
            let ratios = ctx@.vault_data.reward_ratios.unwrap();
            assert(amounts_of(planned.unwrap()@) =~= shares(ctx.vault_lamports as nat, ratios));
            lemma_shares_remainder(ctx.vault_lamports, ratios);
            assert forall|i: int| 0 <= i < ratios.len() implies share(
                ctx.vault_lamports as nat,
                #[trigger] ratios[i] as nat,
            ) <= ctx.vault_lamports by {
                lemma_total_bounds_entry(ratios, i);
                lemma_share_bounded(ctx.vault_lamports as nat, ratios[i] as nat);
            }
        }
    }
    planned
}

} // verus!
