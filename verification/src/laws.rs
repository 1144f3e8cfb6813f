//! What holds of the escrow across its operations.

use vstd::prelude::*;
use crate::accounts::{DistributeView, InitializeView};
use crate::deposit::after_deposit;
use crate::distribute::{
    after_distribution, distribution_error, payout_error, planned_transfers, PayoutView,
};
use crate::error::{settlement, verdict, TransferOutcome, VaultError};
use crate::identity::Identity;
use crate::initialize::{after_initialize, initialization_error};
use crate::ratio::{lemma_shares_remainder, lemma_total_prefix, shares, total};
use crate::round::{
    after_end_round, after_start_round, end_round_error, participation_error,
    start_round_error,
};
use crate::transfer::{amounts_of, balance_after_all, Transfer};
use crate::vault::VaultView;

verus! {

/// The record after a run of payments into the round, each settled as carried
/// out by the ledger, in order.
pub open spec fn after_participations(vault: VaultView, amounts: Seq<u64>) -> VaultView
    decreases amounts.len(),
{
    if amounts.len() == 0 {
        vault
    } else {
        let before = after_participations(vault, amounts.drop_last());
        after_deposit(
            before,
            participation_error(before),
            amounts.last(),
            TransferOutcome::Completed,
        )
    }
}

/// The transfers of a run of payments into the round: payment `i` is made by
/// `callers[i]` and is of `amounts[i]`.
pub open spec fn participation_transfers(
    vault: Identity,
    callers: Seq<Identity>,
    amounts: Seq<u64>,
) -> Seq<Transfer> {
    Seq::new(amounts.len(), |i: int| Transfer { from: callers[i], to: vault, amount: amounts[i] })
}

/// Payments into an open round change the pool counter and nothing else, and
/// the counter grows by their sum.
pub proof fn lemma_participations_add_up(vault: VaultView, amounts: Seq<u64>)
    requires
        vault.active,
    ensures
        after_participations(vault, amounts) == (VaultView {
            total_pool: vault.total_pool + total(amounts),
            ..vault
        }),
    decreases amounts.len(),
{
    if amounts.len() > 0 {
        lemma_participations_add_up(vault, amounts.drop_last());
    }
}

/// Transfers that all go to one account, none of them from it, raise its
/// balance by their sum.
pub proof fn lemma_incoming_transfers(account: Identity, balance: int, transfers: Seq<Transfer>)
    requires
        forall|i: int|
            0 <= i < transfers.len() ==> (#[trigger] transfers[i]).to == account
                && transfers[i].from != account,
    ensures
        balance_after_all(account, balance, transfers) == balance + total(amounts_of(transfers)),
    decreases transfers.len(),
{
    if transfers.len() > 0 {
        lemma_incoming_transfers(account, balance, transfers.drop_last());
        assert(amounts_of(transfers).drop_last() =~= amounts_of(transfers.drop_last()));
    }
}

/// Transfers that all come from one account, none of them to it, lower its
/// balance by their sum.
pub proof fn lemma_outgoing_transfers(account: Identity, balance: int, transfers: Seq<Transfer>)
    requires
        forall|i: int|
            0 <= i < transfers.len() ==> (#[trigger] transfers[i]).from == account
                && transfers[i].to != account,
    ensures
        balance_after_all(account, balance, transfers) == balance - total(amounts_of(transfers)),
    decreases transfers.len(),
{
    if transfers.len() > 0 {
        lemma_outgoing_transfers(account, balance, transfers.drop_last());
        assert(amounts_of(transfers).drop_last() =~= amounts_of(transfers.drop_last()));
    }
}

/// After any run of payments into an open round, each carried out by the
/// ledger, the pool has grown by the sum of the amounts, and so has the
/// balance of the custody account: where the two were equal before, they are
/// equal after. Every payment of the run is accepted.
///
/// The custody account is not among the callers: a payment of the custody
/// account to itself would raise the pool and leave the balance as it was.
pub proof fn lemma_pool_tracks_deposits(
    vault: VaultView,
    callers: Seq<Identity>,
    amounts: Seq<u64>,
    custody_balance: nat,
)
    requires
        vault.active,
        callers.len() == amounts.len(),
        forall|i: int| 0 <= i < callers.len() ==> callers[i] != vault.vault,
    ensures
        forall|n: int|
            0 <= n <= amounts.len() ==> participation_error(
                #[trigger] after_participations(vault, amounts.take(n)),
            ) is None,
        after_participations(vault, amounts).total_pool == vault.total_pool + total(amounts),
        balance_after_all(
            vault.vault,
            custody_balance as int,
            participation_transfers(vault.vault, callers, amounts),
        ) == custody_balance + total(amounts),
        custody_balance == vault.total_pool ==> balance_after_all(
            vault.vault,
            custody_balance as int,
            participation_transfers(vault.vault, callers, amounts),
        ) == after_participations(vault, amounts).total_pool,
{
    assert forall|n: int| 0 <= n <= amounts.len() implies participation_error(
        #[trigger] after_participations(vault, amounts.take(n)),
    ) is None by {
        lemma_participations_add_up(vault, amounts.take(n));
    }
    lemma_participations_add_up(vault, amounts);
    let transfers = participation_transfers(vault.vault, callers, amounts);
    lemma_incoming_transfers(vault.vault, custody_balance as int, transfers);
    assert(amounts_of(transfers) =~= amounts);
}

/// A distribution that fails any of its conditions ends with the error of
/// that condition and leaves everything exactly as it was, whatever the
/// ledger is said to have answered. This holds of a distribution and of the
/// end of a round alike.
pub proof fn lemma_rejected_distribution_changes_nothing(
    accounts: DistributeView,
    payout: PayoutView,
    outcome: TransferOutcome,
)
    ensures
        distribution_error(accounts, payout) matches Some(e) ==> {
            &&& settlement(distribution_error(accounts, payout), outcome) == Err::<
                (),
                VaultError,
            >(e)
            &&& after_distribution(accounts, distribution_error(accounts, payout), outcome)
                == accounts
        },
        end_round_error(accounts, payout) matches Some(e) ==> {
            &&& settlement(end_round_error(accounts, payout), outcome) == Err::<(), VaultError>(e)
            &&& after_end_round(accounts, end_round_error(accounts, payout), outcome) == accounts
        },
{
}

/// A vault is created once: after a call that created it, every further call
/// is turned down with `AlreadyInitialized`, whatever it asks for, and leaves
/// the record that the first call made.
pub proof fn lemma_initialize_once(
    accounts: InitializeView,
    ratios: Option<Seq<u64>>,
    next_owner: Identity,
    next_vault: Identity,
    next_ratios: Option<Seq<u64>>,
)
    requires
        initialization_error(accounts, ratios) is None,
    ensures
        ({
            let first = after_initialize(accounts, ratios);
            let again = InitializeView { owner: next_owner, vault: next_vault, ..first };
            &&& first.vault_data == Some(VaultView::fresh(accounts.owner, accounts.vault, ratios))
            &&& verdict(initialization_error(again, next_ratios)) == Err::<(), VaultError>(
                VaultError::AlreadyInitialized,
            )
            &&& after_initialize(again, next_ratios) == again
        }),
{
}

/// Whoever is not the owner can neither open a round, nor end one, nor have
/// the balance distributed: each of these ends with `Unauthorized`, whatever
/// else holds of the request and whatever the ledger is said to have
/// answered, and leaves everything as it was. No transfer is planned for it.
pub proof fn lemma_only_the_owner_controls(
    accounts: DistributeView,
    payout: PayoutView,
    outcome: TransferOutcome,
)
    requires
        accounts.owner != accounts.vault_data.owner,
    ensures
        start_round_error(accounts.vault_data, accounts.owner) == Some(VaultError::Unauthorized),
        after_start_round(accounts.vault_data, accounts.owner) == accounts.vault_data,
        end_round_error(accounts, payout) == Some(VaultError::Unauthorized),
        distribution_error(accounts, payout) == Some(VaultError::Unauthorized),
        after_end_round(accounts, end_round_error(accounts, payout), outcome) == accounts,
        after_distribution(accounts, distribution_error(accounts, payout), outcome) == accounts,
{
}

/// The life of a round. A vault that has just been created has no round
/// open, and while none is open a payment into the round is turned down with
/// `RoundNotActive`. Once the owner has opened a round, payments are
/// accepted, and opening again is turned down with `RoundAlreadyActive` and
/// changes nothing. The end of a round that was carried out closes it:
/// the pool is empty, payments are turned down again, and the owner can open
/// the next.
pub proof fn lemma_round_lifecycle(
    accounts: DistributeView,
    owner: Identity,
    custody: Identity,
    ratios: Option<Seq<u64>>,
)
    ensures
        participation_error(VaultView::fresh(owner, custody, ratios)) == Some(
            VaultError::RoundNotActive,
        ),
        !accounts.vault_data.active ==> participation_error(accounts.vault_data) == Some(
            VaultError::RoundNotActive,
        ),
        start_round_error(accounts.vault_data, accounts.vault_data.owner) is None ==> {
            let open = after_start_round(accounts.vault_data, accounts.vault_data.owner);
            &&& open.active
            &&& participation_error(open) is None
            &&& start_round_error(open, open.owner) == Some(VaultError::RoundAlreadyActive)
            &&& after_start_round(open, open.owner) == open
        },
        ({
            let ended = after_end_round(accounts, None, TransferOutcome::Completed).vault_data;
            &&& ended.total_pool == 0
            &&& participation_error(ended) == Some(VaultError::RoundNotActive)
            &&& start_round_error(ended, ended.owner) is None
        }),
{
}

/// A round is opened by `start_round` and closed by the end of the round,
/// and by nothing else: a payment and a distribution leave the round as it
/// is, open or not; the end of a round opens none; and an open round stays
/// open until its end has been carried out.
pub proof fn lemma_round_changes_at_start_and_end(
    accounts: DistributeView,
    caller: Identity,
    amount: u64,
    error: Option<VaultError>,
    outcome: TransferOutcome,
)
    ensures
        ({
            let before = accounts.vault_data;
            &&& after_deposit(before, error, amount, outcome).active == before.active
            &&& after_distribution(accounts, error, outcome).vault_data.active == before.active
            &&& before.active ==> after_start_round(before, caller).active
            &&& !before.active ==> !after_end_round(accounts, error, outcome).vault_data.active
            &&& before.active ==> (after_end_round(accounts, error, outcome).vault_data.active
                <==> settlement(error, outcome) is Err)
        }),
{
}

/// The owner, the custody account and the ratio table of a vault are fixed
/// when it is created: no operation changes them, however it ends. A record
/// that is well formed stays so.
pub proof fn lemma_fixed_at_creation(
    accounts: DistributeView,
    caller: Identity,
    amount: u64,
    error: Option<VaultError>,
    outcome: TransferOutcome,
)
    ensures
        ({
            let before = accounts.vault_data;
            let opened = after_start_round(before, caller);
            let paid_in = after_deposit(before, error, amount, outcome);
            let paid_out = after_distribution(accounts, error, outcome).vault_data;
            let ended = after_end_round(accounts, error, outcome).vault_data;
            &&& before.same_vault(opened)
            &&& before.same_vault(paid_in)
            &&& before.same_vault(paid_out)
            &&& before.same_vault(ended)
            &&& before.wf() ==> opened.wf() && paid_in.wf() && paid_out.wf() && ended.wf()
        }),
{
}

/// A payout with `PreflightTotal` that passes its conditions never asks for
/// more than the balance: carried out on a ledger that holds that balance,
/// its transfers leave the custody account with what was not asked for, and
/// none of them overdraws it.
///
/// The custody account is not among the recipients.
pub proof fn lemma_preflight_total_is_covered(
    accounts: DistributeView,
    recipients: Seq<Identity>,
    amounts: Seq<u64>,
)
    requires
        payout_error(accounts, PayoutView::PreflightTotal { recipients, amounts }) is None,
        forall|i: int| 0 <= i < recipients.len() ==> recipients[i] != accounts.vault_data.vault,
    ensures
        ({
            let payout = PayoutView::PreflightTotal { recipients, amounts };
            let transfers = planned_transfers(accounts, payout);
            let custody = accounts.vault_data.vault;
            let balance = accounts.vault_lamports as int;
            &&& total(amounts_of(transfers)) <= accounts.vault_lamports
            &&& forall|n: int|
                0 <= n <= transfers.len() ==> 0 <= #[trigger] balance_after_all(
                    custody,
                    balance,
                    transfers.take(n),
                )
            &&& balance_after_all(custody, balance, transfers) == balance - total(amounts)
        }),
{
    let payout = PayoutView::PreflightTotal { recipients, amounts };
    let transfers = planned_transfers(accounts, payout);
    let custody = accounts.vault_data.vault;
    let balance = accounts.vault_lamports as int;
    assert(amounts_of(transfers) =~= amounts);
    lemma_outgoing_transfers(custody, balance, transfers);
    assert forall|n: int| 0 <= n <= transfers.len() implies 0 <= #[trigger] balance_after_all(
        custody,
        balance,
        transfers.take(n),
    ) by {
        lemma_outgoing_transfers(custody, balance, transfers.take(n));
        assert(amounts_of(transfers.take(n)) =~= amounts.take(n));
        lemma_total_prefix(amounts, n);
    }
}

/// A payout by ratio that the ledger has carried out, in a distribution or at
/// the end of a round, leaves in the custody account what rounding down lost,
/// and no more: less than one unit for each entry of the table. With a table
/// of one entry the one recipient gets the whole balance and nothing is left.
///
/// The custody account is not among the recipients.
pub proof fn lemma_ratio_distribution_leaves_remainder(accounts: DistributeView)
    requires
        accounts.vault_data.wf(),
        payout_error(accounts, PayoutView::PresetRatio) is None,
        forall|i: int|
            0 <= i < accounts.remaining_accounts.len() ==> accounts.remaining_accounts[i]
                != accounts.vault_data.vault,
    ensures
        ({
            let transfers = planned_transfers(accounts, PayoutView::PresetRatio);
            let balance = accounts.vault_lamports;
            let left = balance_after_all(accounts.vault_data.vault, balance as int, transfers);
            &&& left == balance - total(amounts_of(transfers))
            &&& 0 <= left <= transfers.len() - 1
            &&& transfers.len() == 1 ==> left == 0 && transfers[0].amount == balance
        }),
{
    let ratios = accounts.vault_data.reward_ratios.unwrap();
    let balance = accounts.vault_lamports;
    let transfers = planned_transfers(accounts, PayoutView::PresetRatio);
    lemma_outgoing_transfers(accounts.vault_data.vault, balance as int, transfers);
    assert(amounts_of(transfers) =~= shares(balance as nat, ratios));
    lemma_shares_remainder(balance, ratios);
    if transfers.len() == 1 {
        let amounts = amounts_of(transfers);
        assert(amounts.drop_last() =~= Seq::<u64>::empty());
        assert(total(amounts) == total(amounts.drop_last()) + amounts.last());
        assert(total(amounts.drop_last()) == 0);
    }
}

} // verus!
