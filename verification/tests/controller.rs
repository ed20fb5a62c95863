use tsv_usdc_vault::controller::{
    deposit, emergency_withdraw, initialize, redeem, redeem_to, update_fee, Deposit,
    EmergencyWithdraw, Initialize, Redeem, UpdateFee,
};
use tsv_usdc_vault::error::VaultError;
use tsv_usdc_vault::events::{DepositEvent, FeeUpdatedEvent, RedeemEvent};
use tsv_usdc_vault::settlement::{Instruction, Settlement, Step};
use tsv_usdc_vault::principal::Principal;
use tsv_usdc_vault::vault::Vault;

const AUTHORITY: u8 = 1;
const CUSTODY: u8 = 4;
const USER: u8 = 7;

fn who(tag: u8) -> Principal {
    Principal::new([tag; 32])
}

fn setup() -> Initialize {
    Initialize {
        authority: who(AUTHORITY),
        asset_mint: who(2),
        share_mint: who(3),
        asset_vault: who(CUSTODY),
        bump: 254,
    }
}

fn ledger(total_assets: u64, total_shares: u64, fee_bps: u16) -> Vault {
    Vault { total_assets, total_shares, ..initialize(&setup(), fee_bps).unwrap() }
}

#[test]
fn initialize_creates_an_empty_vault() {
    let vault = initialize(&setup(), 10).unwrap();
    assert_eq!(
        vault,
        Vault {
            authority: who(AUTHORITY),
            asset_mint: who(2),
            share_mint: who(3),
            asset_vault: who(CUSTODY),
            total_assets: 0,
            total_shares: 0,
            fee_bps: 10,
            bump: 254,
        }
    );
    assert!(vault.is_valid());
}

#[test]
fn initialize_rejects_a_fee_above_the_cap() {
    assert_eq!(initialize(&setup(), 101), Err(VaultError::InvalidFee));
    assert_eq!(initialize(&setup(), u16::MAX), Err(VaultError::InvalidFee));
    assert!(initialize(&setup(), 100).is_ok());
    assert!(initialize(&setup(), 0).is_ok());
}

#[test]
fn first_deposit_is_taken_one_for_one() {
    for assets in [1u64, 2, 999, 1_000_000, u64::MAX] {
        let mut ctx = Deposit { vault: ledger(0, 0, 10), user: who(USER) };
        let settlement = deposit(&mut ctx, assets).unwrap();
        assert_eq!(settlement.event.shares, assets);
        assert_eq!(ctx.vault.total_assets, assets);
        assert_eq!(ctx.vault.total_shares, assets);
    }
}

#[test]
fn deposit_transfers_in_before_it_mints() {
    let mut ctx = Deposit { vault: ledger(501_000, 500_000, 10), user: who(USER) };
    let settlement = deposit(&mut ctx, 1_000).unwrap();
    assert_eq!(
        settlement.instructions,
        vec![
            Instruction::Transfer { from: who(USER), to: who(CUSTODY), amount: 1_000 },
            Instruction::Mint { to: who(USER), amount: 998 },
        ]
    );
    assert_eq!(settlement.event, DepositEvent { user: who(USER), assets: 1_000, shares: 998 });
    assert_eq!(ctx.vault, ledger(502_000, 500_998, 10));
    assert_eq!(ctx.user, who(USER));
}

#[test]
fn deposit_of_zero_is_refused_and_changes_nothing() {
    let mut ctx = Deposit { vault: ledger(10, 10, 10), user: who(USER) };
    assert_eq!(deposit(&mut ctx, 0), Err(VaultError::ZeroAmount));
    assert_eq!(ctx, Deposit { vault: ledger(10, 10, 10), user: who(USER) });
}

#[test]
fn deposit_that_overflows_a_total_is_refused_and_changes_nothing() {
    let mut ctx = Deposit { vault: ledger(u64::MAX, 10, 10), user: who(USER) };
    assert_eq!(deposit(&mut ctx, 1), Err(VaultError::ArithmeticOverflow));
    assert_eq!(ctx.vault, ledger(u64::MAX, 10, 10));
    let mut ctx = Deposit { vault: ledger(10, u64::MAX - 1, 10), user: who(USER) };
    assert_eq!(deposit(&mut ctx, 10), Err(VaultError::ArithmeticOverflow));
    assert_eq!(ctx.vault, ledger(10, u64::MAX - 1, 10));
}

#[test]
fn redeem_burns_before_it_pays_out() {
    let mut ctx = Redeem { vault: ledger(1_500_000, 1_500_000, 10), user: who(USER) };
    let settlement = redeem(&mut ctx, 1_000_000).unwrap();
    assert_eq!(
        settlement.instructions,
        vec![
            Instruction::Burn { from: who(USER), amount: 1_000_000 },
            Instruction::Transfer { from: who(CUSTODY), to: who(USER), amount: 999_000 },
        ]
    );
    assert_eq!(
        settlement.event,
        RedeemEvent { user: who(USER), shares: 1_000_000, assets: 999_000, fee: 1_000 }
    );
    assert_eq!(ctx.vault, ledger(501_000, 500_000, 10));
}

#[test]
fn redeem_rejects_bad_share_amounts_and_changes_nothing() {
    let mut ctx = Redeem { vault: ledger(100, 100, 10), user: who(USER) };
    assert_eq!(redeem(&mut ctx, 0), Err(VaultError::ZeroAmount));
    assert_eq!(redeem(&mut ctx, 101), Err(VaultError::InsufficientShares));
    assert_eq!(ctx, Redeem { vault: ledger(100, 100, 10), user: who(USER) });
}

#[test]
fn redeeming_every_share_leaves_only_the_fee() {
    let mut ctx = Redeem { vault: ledger(501_000, 500_000, 100), user: who(USER) };
    let settlement = redeem(&mut ctx, 500_000).unwrap();
    assert_eq!(settlement.event.fee, 5_010);
    assert_eq!(settlement.event.assets, 495_990);
    assert_eq!(ctx.vault, ledger(5_010, 0, 100));
    assert!(ctx.vault.is_valid());
}

#[test]
fn redeem_to_pays_the_receiver() {
    let mut vault = ledger(200, 100, 0);
    let settlement = redeem_to(&mut vault, who(USER), who(9), 10).unwrap();
    assert_eq!(
        settlement.instructions,
        vec![
            Instruction::Burn { from: who(USER), amount: 10 },
            Instruction::Transfer { from: who(CUSTODY), to: who(9), amount: 20 },
        ]
    );
    assert_eq!(settlement.event, RedeemEvent { user: who(USER), shares: 10, assets: 20, fee: 0 });
    assert_eq!(vault, ledger(180, 90, 0));
}

#[test]
fn round_trip_returns_at_most_the_deposit() {
    for (assets, shares, amount) in
        [(0u64, 0u64, 1_000u64), (3, 2, 5), (1_000_003, 999_999, 12_345), (7, 7, 1)]
    {
        let mut ctx = Deposit { vault: ledger(assets, shares, 0), user: who(USER) };
        let minted = deposit(&mut ctx, amount).unwrap().event.shares;
        if minted > 0 {
            let mut back = Redeem { vault: ctx.vault, user: who(USER) };
            let returned = redeem(&mut back, minted).unwrap().event.assets;
            assert!(returned <= amount);
        }
    }
    let mut ctx = Deposit { vault: ledger(3, 2, 0), user: who(USER) };
    assert_eq!(deposit(&mut ctx, 5).unwrap().event.shares, 3);
    let mut back = Redeem { vault: ctx.vault, user: who(USER) };
    assert_eq!(redeem(&mut back, 3).unwrap().event.assets, 4);
}

#[test]
fn assets_per_share_never_fall() {
    let mut vault = ledger(1_000_003, 999_999, 7);
    let steps: [(bool, u64); 6] =
        [(true, 17), (false, 5), (true, 1), (false, 333_333), (true, 999), (false, 1)];
    for (is_deposit, amount) in steps {
        let before = vault;
        if is_deposit {
            let mut ctx = Deposit { vault, user: who(USER) };
            deposit(&mut ctx, amount).unwrap();
            vault = ctx.vault;
        } else {
            let mut ctx = Redeem { vault, user: who(USER) };
            redeem(&mut ctx, amount).unwrap();
            vault = ctx.vault;
        }
        assert!(
            vault.total_assets as u128 * before.total_shares as u128
                >= before.total_assets as u128 * vault.total_shares as u128
        );
        assert!(vault.total_assets >= vault.total_shares);
        assert!(vault.is_valid());
    }
}

#[test]
fn update_fee_accepts_the_cap_and_rejects_above_it() {
    let mut ctx = UpdateFee { vault: ledger(10, 10, 10), authority: who(AUTHORITY) };
    assert_eq!(update_fee(&mut ctx, 101), Err(VaultError::InvalidFee));
    assert_eq!(ctx.vault, ledger(10, 10, 10));
    assert_eq!(update_fee(&mut ctx, 100), Ok(FeeUpdatedEvent { new_fee_bps: 100 }));
    assert_eq!(ctx.vault, ledger(10, 10, 100));
    assert_eq!(update_fee(&mut ctx, 0), Ok(FeeUpdatedEvent { new_fee_bps: 0 }));
    assert_eq!(ctx.vault, ledger(10, 10, 0));
}

#[test]
fn update_fee_is_reserved_for_the_authority() {
    let mut ctx = UpdateFee { vault: ledger(10, 10, 10), authority: who(USER) };
    assert_eq!(update_fee(&mut ctx, 50), Err(VaultError::Unauthorized));
    assert_eq!(update_fee(&mut ctx, 101), Err(VaultError::Unauthorized));
    assert_eq!(ctx.vault, ledger(10, 10, 10));
}

#[test]
fn emergency_withdraw_leaves_the_ledger_alone() {
    let ctx = EmergencyWithdraw {
        vault: ledger(1_000, 900, 10),
        authority: who(AUTHORITY),
        admin_asset: who(11),
    };
    assert_eq!(
        emergency_withdraw(&ctx, 1_000),
        Ok(Instruction::Transfer { from: who(CUSTODY), to: who(11), amount: 1_000 })
    );
    assert_eq!(ctx.vault, ledger(1_000, 900, 10));
}

#[test]
fn emergency_withdraw_is_reserved_for_the_authority() {
    let ctx = EmergencyWithdraw {
        vault: ledger(1_000, 900, 10),
        authority: who(USER),
        admin_asset: who(USER),
    };
    assert_eq!(emergency_withdraw(&ctx, 1), Err(VaultError::Unauthorized));
}

#[test]
fn worked_example_with_a_ten_point_fee() {
    let vault = initialize(&setup(), 10).unwrap();
    let mut first = Deposit { vault, user: who(USER) };
    assert_eq!(deposit(&mut first, 1_000_000).unwrap().event.shares, 1_000_000);
    assert_eq!((first.vault.total_assets, first.vault.total_shares), (1_000_000, 1_000_000));

    let mut second = Deposit { vault: first.vault, user: who(8) };
    assert_eq!(deposit(&mut second, 500_000).unwrap().event.shares, 500_000);
    assert_eq!((second.vault.total_assets, second.vault.total_shares), (1_500_000, 1_500_000));

    let quote = second.vault.quote_redeem(1_000_000).unwrap();
    assert_eq!((quote.gross_assets, quote.fee, quote.net_assets), (1_000_000, 1_000, 999_000));

    let mut out = Redeem { vault: second.vault, user: who(USER) };
    let settlement = redeem(&mut out, 1_000_000).unwrap();
    assert_eq!(settlement.event.assets, 999_000);
    assert_eq!(settlement.event.fee, 1_000);
    assert_eq!((out.vault.total_assets, out.vault.total_shares), (501_000, 500_000));
    assert!(out.vault.total_assets > out.vault.total_shares);
}

#[test]
fn settlement_is_carried_out_in_order() {
    let transfer = Instruction::Transfer { from: who(USER), to: who(CUSTODY), amount: 5 };
    let mint = Instruction::Mint { to: who(USER), amount: 5 };
    let mut ctx = Deposit { vault: ledger(0, 0, 10), user: who(USER) };
    let settlement = deposit(&mut ctx, 5).unwrap();
    assert_eq!(settlement.step(0, false), Step::Perform(transfer));
    assert_eq!(settlement.step(1, false), Step::Perform(mint));
    assert_eq!(settlement.step(2, false), Step::Commit);
    assert_eq!(settlement.step(usize::MAX, false), Step::Commit);
}

#[test]
fn settlement_aborts_on_the_first_failure() {
    let mut ctx = Deposit { vault: ledger(0, 0, 10), user: who(USER) };
    let settlement = deposit(&mut ctx, 5).unwrap();
    assert_eq!(settlement.step(0, true), Step::Abort);
    assert_eq!(settlement.step(1, true), Step::Abort);
    assert_eq!(settlement.step(2, true), Step::Abort);
    let nothing_to_do = Settlement { instructions: Vec::new(), event: () };
    assert_eq!(nothing_to_do.step(0, false), Step::Commit);
    assert_eq!(nothing_to_do.step(0, true), Step::Abort);
}
