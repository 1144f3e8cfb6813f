use solana_toy::{
    deposit_sol, distribute, distribute_sol, initialize_vault, settle_deposit,
    settle_distribution, start_round, DepositSol, DistributeSol, Identity, InitializeVault,
    Payout, Transfer, TransferOutcome, VaultData, VaultError,
};

fn acct(tag: u8) -> Identity {
    Identity::new([tag; 32])
}

const OWNER: u8 = 1;
const CUSTODY: u8 = 9;

fn vault_with(ratios: Option<Vec<u64>>) -> VaultData {
    let mut ctx = InitializeVault { vault_data: None, vault: acct(CUSTODY), owner: acct(OWNER) };
    assert_eq!(initialize_vault(&mut ctx, ratios), Ok(()));
    ctx.vault_data.unwrap()
}

fn request(ratios: Vec<u64>, caller: u8, balance: u64, recipients: Vec<u8>) -> DistributeSol {
    DistributeSol {
        owner: acct(caller),
        vault_lamports: balance,
        vault_data: vault_with(Some(ratios)),
        remaining_accounts: recipients.into_iter().map(acct).collect(),
    }
}

fn amounts(transfers: &[Transfer]) -> Vec<u64> {
    transfers.iter().map(|t| t.amount).collect()
}

#[test]
fn ratios_of_fifty_thirty_twenty_share_out_one_hundred() {
    let ctx = request(vec![50, 30, 20], OWNER, 100, vec![2, 3, 4]);
    assert_eq!(
        distribute_sol(&ctx),
        Ok(vec![
            Transfer { from: acct(CUSTODY), to: acct(2), amount: 50 },
            Transfer { from: acct(CUSTODY), to: acct(3), amount: 30 },
            Transfer { from: acct(CUSTODY), to: acct(4), amount: 20 },
        ])
    );
}

#[test]
fn ratios_of_fifty_thirty_twenty_leave_one_of_one_hundred_and_one() {
    let ctx = request(vec![50, 30, 20], OWNER, 101, vec![2, 3, 4]);
    let transfers = distribute_sol(&ctx).unwrap();
    assert_eq!(amounts(&transfers), vec![50, 30, 20]);
    let paid: u64 = amounts(&transfers).iter().sum();
    assert_eq!(101 - paid, 1);
}

#[test]
fn shares_are_rounded_down_one_by_one() {
    let ctx = request(vec![33, 33, 34], OWNER, 999, vec![2, 3, 4]);
    let transfers = distribute_sol(&ctx).unwrap();
    assert_eq!(amounts(&transfers), vec![329, 329, 339]);
    let paid: u64 = amounts(&transfers).iter().sum();
    assert_eq!(999 - paid, 2);
}

#[test]
fn a_balance_of_one_is_lost_to_rounding() {
    let ctx = request(vec![50, 50], OWNER, 1, vec![2, 3]);
    assert_eq!(amounts(&distribute_sol(&ctx).unwrap()), vec![0, 0]);
}

#[test]
fn the_largest_balance_is_shared_out_without_overflow() {
    let ctx = request(vec![33, 33, 34], OWNER, u64::MAX, vec![2, 3, 4]);
    let transfers = distribute_sol(&ctx).unwrap();
    assert_eq!(
        amounts(&transfers),
        vec![6087425544324152032, 6087425544324152032, 6271892985061247549]
    );
    let paid: u128 = amounts(&transfers).iter().map(|a| *a as u128).sum();
    assert_eq!(u64::MAX as u128 - paid, 2);
}

#[test]
fn what_stays_behind_is_less_than_the_number_of_entries() {
    for balance in [1u64, 7, 99, 100, 101, 12345, 999_999_999, u64::MAX - 3] {
        let ctx = request(vec![10; 10], OWNER, balance, (20..30).collect());
        let transfers = distribute_sol(&ctx).unwrap();
        assert_eq!(transfers.len(), 10);
        let paid: u128 = amounts(&transfers).iter().map(|a| *a as u128).sum();
        assert!(paid <= balance as u128);
        assert!(balance as u128 - paid <= 9);
        for t in &transfers {
            assert_eq!(t.amount, (balance as u128 * 10 / 100) as u64);
        }
    }
}

#[test]
fn a_single_recipient_gets_the_whole_deposit() {
    let mut vault = vault_with(Some(vec![100]));
    let mut ledger: Vec<(Identity, u64)> = vec![(acct(5), 1000), (acct(CUSTODY), 0), (acct(2), 0)];
    let carry_out = |ledger: &mut Vec<(Identity, u64)>, t: &Transfer| {
        let from = ledger.iter().position(|(k, _)| *k == t.from).unwrap();
        assert!(ledger[from].1 >= t.amount);
        ledger[from].1 -= t.amount;
        let to = ledger.iter().position(|(k, _)| *k == t.to).unwrap();
        ledger[to].1 += t.amount;
    };

    let deposit = deposit_sol(&DepositSol { user: acct(5), vault: vault.vault() }, 1000);
    assert_eq!(deposit, Transfer { from: acct(5), to: acct(CUSTODY), amount: 1000 });
    carry_out(&mut ledger, &deposit);
    assert_eq!(settle_deposit(&mut vault, 1000, TransferOutcome::Completed), Ok(()));
    assert_eq!(vault.total_pool(), 1000);
    assert_eq!(ledger[1].1, 1000);

    let mut ctx = DistributeSol {
        owner: acct(OWNER),
        vault_lamports: ledger[1].1,
        vault_data: vault,
        remaining_accounts: vec![acct(2)],
    };
    let transfers = distribute_sol(&ctx).unwrap();
    assert_eq!(transfers, vec![Transfer { from: acct(CUSTODY), to: acct(2), amount: 1000 }]);
    for t in &transfers {
        carry_out(&mut ledger, t);
    }
    assert_eq!(
        settle_distribution(&mut ctx, &Payout::PresetRatio, TransferOutcome::Completed),
        Ok(())
    );
    assert_eq!(ledger[1].1, 0);
    assert_eq!(ledger[2].1, 1000);
    assert_eq!(ctx.vault_data.total_pool(), 0);
    assert_eq!(ctx.vault_data.reward_ratios(), Some(&vec![100]));
}

#[test]
fn distribute_by_a_stranger_is_unauthorized() {
    let mut ctx = request(vec![50, 30, 20], 2, 100, vec![2, 3, 4]);
    assert_eq!(distribute_sol(&ctx), Err(VaultError::Unauthorized));
    let before = ctx.clone();
    assert_eq!(
        settle_distribution(&mut ctx, &Payout::PresetRatio, TransferOutcome::Completed),
        Err(VaultError::Unauthorized)
    );
    assert_eq!(ctx, before);
}

#[test]
fn distribute_by_a_stranger_is_unauthorized_before_anything_else() {
    // The balance is zero and the recipients do not match: the caller is named first.
    let ctx = request(vec![50, 30, 20], 2, 0, vec![2]);
    assert_eq!(distribute_sol(&ctx), Err(VaultError::Unauthorized));
    let list = Payout::PreflightTotal { recipients: vec![acct(2)], amounts: vec![1, 2] };
    assert_eq!(distribute(&ctx, &list), Err(VaultError::Unauthorized));
    let list = Payout::ExplicitList { recipients: vec![acct(2)], amounts: vec![1, 2] };
    assert_eq!(distribute(&ctx, &list), Err(VaultError::Unauthorized));
}

#[test]
fn distribute_of_an_empty_vault_is_insufficient_funds() {
    let mut ctx = request(vec![50, 30, 20], OWNER, 0, vec![2, 3, 4]);
    assert_eq!(distribute_sol(&ctx), Err(VaultError::InsufficientFunds));
    let before = ctx.clone();
    assert_eq!(
        settle_distribution(&mut ctx, &Payout::PresetRatio, TransferOutcome::Completed),
        Err(VaultError::InsufficientFunds)
    );
    assert_eq!(ctx, before);
}

#[test]
fn distribute_names_the_empty_vault_before_the_recipients() {
    let ctx = request(vec![50, 30, 20], OWNER, 0, vec![2]);
    assert_eq!(distribute_sol(&ctx), Err(VaultError::InsufficientFunds));
}

#[test]
fn distribute_needs_one_recipient_for_each_ratio() {
    let few = request(vec![50, 30, 20], OWNER, 100, vec![2, 3]);
    assert_eq!(distribute_sol(&few), Err(VaultError::MismatchedRecipients));
    let many = request(vec![50, 30, 20], OWNER, 100, vec![2, 3, 4, 5]);
    assert_eq!(distribute_sol(&many), Err(VaultError::MismatchedRecipients));
    let mut none = request(vec![50, 30, 20], OWNER, 100, vec![]);
    assert_eq!(distribute_sol(&none), Err(VaultError::MismatchedRecipients));
    let before = none.clone();
    assert_eq!(
        settle_distribution(&mut none, &Payout::PresetRatio, TransferOutcome::Completed),
        Err(VaultError::MismatchedRecipients)
    );
    assert_eq!(none, before);
}

#[test]
fn distribute_by_ratio_needs_a_ratio_table() {
    let ctx = DistributeSol {
        owner: acct(OWNER),
        vault_lamports: 100,
        vault_data: vault_with(None),
        remaining_accounts: vec![],
    };
    assert_eq!(distribute_sol(&ctx), Err(VaultError::MismatchedRecipients));
    let ctx = DistributeSol { remaining_accounts: vec![acct(2)], ..ctx };
    assert_eq!(distribute_sol(&ctx), Err(VaultError::MismatchedRecipients));
}

#[test]
fn distribute_sol_is_distribute_by_preset_ratio() {
    let ctx = request(vec![70, 30], OWNER, 1000, vec![2, 3]);
    assert_eq!(distribute_sol(&ctx), distribute(&ctx, &Payout::PresetRatio));
    assert_eq!(amounts(&distribute_sol(&ctx).unwrap()), vec![700, 300]);
}

#[test]
fn a_listed_payout_pays_what_is_listed() {
    let ctx = request(vec![100], OWNER, 10, vec![2, 3]);
    let payout = Payout::ExplicitList { recipients: vec![acct(3), acct(2)], amounts: vec![7, 3] };
    assert_eq!(
        distribute(&ctx, &payout),
        Ok(vec![
            Transfer { from: acct(CUSTODY), to: acct(3), amount: 7 },
            Transfer { from: acct(CUSTODY), to: acct(2), amount: 3 },
        ])
    );
}

#[test]
fn a_listed_payout_is_not_held_against_the_balance() {
    let ctx = request(vec![100], OWNER, 0, vec![2, 3]);
    let payout = Payout::ExplicitList {
        recipients: vec![acct(2), acct(3)],
        amounts: vec![u64::MAX, u64::MAX],
    };
    assert_eq!(amounts(&distribute(&ctx, &payout).unwrap()), vec![u64::MAX, u64::MAX]);
}

#[test]
fn a_payout_with_preflight_total_must_be_covered() {
    let ctx = request(vec![100], OWNER, 10, vec![2, 3]);
    let even = Payout::PreflightTotal { recipients: vec![acct(2), acct(3)], amounts: vec![7, 3] };
    assert_eq!(amounts(&distribute(&ctx, &even).unwrap()), vec![7, 3]);
    let under = Payout::PreflightTotal { recipients: vec![acct(2), acct(3)], amounts: vec![7, 2] };
    assert_eq!(amounts(&distribute(&ctx, &under).unwrap()), vec![7, 2]);
    let over = Payout::PreflightTotal { recipients: vec![acct(2), acct(3)], amounts: vec![7, 4] };
    assert_eq!(distribute(&ctx, &over), Err(VaultError::InsufficientFunds));
}

#[test]
fn a_total_beyond_sixty_four_bits_is_not_covered() {
    let mut ctx = request(vec![100], OWNER, u64::MAX, vec![2, 3]);
    let payout = Payout::PreflightTotal {
        recipients: vec![acct(2), acct(3)],
        amounts: vec![u64::MAX, 1],
    };
    assert_eq!(distribute(&ctx, &payout), Err(VaultError::InsufficientFunds));
    let before = ctx.clone();
    assert_eq!(
        settle_distribution(&mut ctx, &payout, TransferOutcome::Completed),
        Err(VaultError::InsufficientFunds)
    );
    assert_eq!(ctx, before);
}

#[test]
fn a_listed_payout_with_lists_of_two_lengths_is_invalid_input() {
    let ctx = request(vec![100], OWNER, 10, vec![2, 3, 4]);
    let payout = Payout::ExplicitList { recipients: vec![acct(2), acct(3)], amounts: vec![1] };
    assert_eq!(distribute(&ctx, &payout), Err(VaultError::InvalidInput));
    let payout = Payout::PreflightTotal {
        recipients: vec![acct(2)],
        amounts: vec![u64::MAX, u64::MAX],
    };
    assert_eq!(distribute(&ctx, &payout), Err(VaultError::InvalidInput));
}

#[test]
fn a_listed_payout_needs_an_account_for_each_recipient() {
    let ctx = request(vec![100], OWNER, 10, vec![2]);
    let payout = Payout::ExplicitList { recipients: vec![acct(2), acct(3)], amounts: vec![1, 2] };
    assert_eq!(distribute(&ctx, &payout), Err(VaultError::MismatchedRecipients));
    let payout = Payout::PreflightTotal {
        recipients: vec![acct(2), acct(3)],
        amounts: vec![100, 200],
    };
    assert_eq!(distribute(&ctx, &payout), Err(VaultError::MismatchedRecipients));
}

#[test]
fn a_distribution_carried_out_empties_the_pool() {
    let mut vault = vault_with(Some(vec![50, 30, 20]));
    assert_eq!(settle_deposit(&mut vault, 70, TransferOutcome::Completed), Ok(()));
    assert_eq!(settle_deposit(&mut vault, 31, TransferOutcome::Completed), Ok(()));
    assert_eq!(vault.total_pool(), 101);
    let mut ctx = DistributeSol {
        owner: acct(OWNER),
        vault_lamports: 101,
        vault_data: vault,
        remaining_accounts: vec![acct(2), acct(3), acct(4)],
    };
    assert_eq!(amounts(&distribute_sol(&ctx).unwrap()), vec![50, 30, 20]);
    assert_eq!(ctx.vault_data.total_pool(), 101);
    assert_eq!(
        settle_distribution(&mut ctx, &Payout::PresetRatio, TransferOutcome::Completed),
        Ok(())
    );
    assert_eq!(ctx.vault_data.total_pool(), 0);
    assert!(!ctx.vault_data.is_active());
    assert_eq!(ctx.vault_data.reward_ratios(), Some(&vec![50, 30, 20]));
    assert_eq!(ctx.vault_data.owner(), acct(OWNER));
    assert_eq!(ctx.owner, acct(OWNER));
    assert_eq!(ctx.vault_lamports, 101);
    assert_eq!(ctx.remaining_accounts, vec![acct(2), acct(3), acct(4)]);
}

#[test]
fn a_distribution_that_the_ledger_refused_changes_nothing() {
    let mut vault = vault_with(Some(vec![50, 30, 20]));
    assert_eq!(settle_deposit(&mut vault, 101, TransferOutcome::Completed), Ok(()));
    let mut ctx = DistributeSol {
        owner: acct(OWNER),
        vault_lamports: 101,
        vault_data: vault,
        remaining_accounts: vec![acct(2), acct(3), acct(4)],
    };
    let before = ctx.clone();
    assert_eq!(
        settle_distribution(&mut ctx, &Payout::PresetRatio, TransferOutcome::Failed),
        Err(VaultError::TransferFailed)
    );
    assert_eq!(ctx, before);
    assert_eq!(ctx.vault_data.total_pool(), 101);
}

#[test]
fn deposit_sol_asks_for_a_transfer_from_the_user() {
    let ctx = DepositSol { user: acct(5), vault: acct(CUSTODY) };
    assert_eq!(deposit_sol(&ctx, 0), Transfer { from: acct(5), to: acct(CUSTODY), amount: 0 });
    assert_eq!(
        deposit_sol(&ctx, u64::MAX),
        Transfer { from: acct(5), to: acct(CUSTODY), amount: u64::MAX }
    );
}

#[test]
fn a_deposit_carried_out_raises_the_pool() {
    let mut vault = vault_with(Some(vec![100]));
    assert_eq!(settle_deposit(&mut vault, 1, TransferOutcome::Completed), Ok(()));
    assert_eq!(settle_deposit(&mut vault, u64::MAX - 1, TransferOutcome::Completed), Ok(()));
    assert_eq!(vault.total_pool(), u64::MAX);
    assert!(!vault.is_active());
}

#[test]
fn a_deposit_that_the_ledger_refused_changes_nothing() {
    let mut vault = vault_with(Some(vec![100]));
    assert_eq!(settle_deposit(&mut vault, 5, TransferOutcome::Completed), Ok(()));
    let before = vault.clone();
    assert_eq!(
        settle_deposit(&mut vault, u64::MAX, TransferOutcome::Failed),
        Err(VaultError::TransferFailed)
    );
    assert_eq!(vault, before);
}

#[test]
fn the_pool_counter_has_room_up_to_its_largest_value() {
    let mut vault = vault_with(None);
    assert!(vault.has_room_for(0));
    assert!(vault.has_room_for(u64::MAX));
    assert_eq!(settle_deposit(&mut vault, 1, TransferOutcome::Completed), Ok(()));
    assert!(vault.has_room_for(u64::MAX - 1));
    assert!(!vault.has_room_for(u64::MAX));
    assert_eq!(settle_deposit(&mut vault, u64::MAX - 1, TransferOutcome::Completed), Ok(()));
    assert!(vault.has_room_for(0));
    assert!(!vault.has_room_for(1));
}

#[test]
fn a_distribution_leaves_an_open_round_open() {
    let mut vault = vault_with(Some(vec![100]));
    assert_eq!(start_round(&mut vault, &acct(OWNER)), Ok(()));
    assert_eq!(settle_deposit(&mut vault, 10, TransferOutcome::Completed), Ok(()));
    let mut ctx = DistributeSol {
        owner: acct(OWNER),
        vault_lamports: 10,
        vault_data: vault,
        remaining_accounts: vec![acct(2)],
    };
    assert_eq!(
        settle_distribution(&mut ctx, &Payout::PresetRatio, TransferOutcome::Completed),
        Ok(())
    );
    assert_eq!(ctx.vault_data.total_pool(), 0);
    assert!(ctx.vault_data.is_active());
}
