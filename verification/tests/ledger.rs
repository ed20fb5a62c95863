use tsv_usdc_vault::error::VaultError;
use tsv_usdc_vault::math::proportion;
use tsv_usdc_vault::principal::Principal;
use tsv_usdc_vault::vault::{RedeemQuote, Vault, BPS_DENOMINATOR, MAX_FEE_BPS};

fn party(tag: u8) -> Principal {
    Principal::new([tag; 32])
}

fn vault(total_assets: u64, total_shares: u64, fee_bps: u16) -> Vault {
    Vault {
        authority: party(1),
        asset_mint: party(2),
        share_mint: party(3),
        asset_vault: party(4),
        total_assets,
        total_shares,
        fee_bps,
        bump: 255,
    }
}

#[test]
fn proportion_floors_the_quotient() {
    assert_eq!(proportion(10, 3, 4), Ok(7));
    assert_eq!(proportion(7, 1, 2), Ok(3));
    assert_eq!(proportion(1, 1, 3), Ok(0));
    assert_eq!(proportion(0, 99, 7), Ok(0));
    assert_eq!(proportion(1_000_000, 10, 10_000), Ok(1_000));
}

#[test]
fn proportion_uses_a_wide_intermediate() {
    assert_eq!(proportion(u64::MAX, u64::MAX, u64::MAX), Ok(u64::MAX));
    assert_eq!(proportion(u64::MAX, 2, 4), Ok(u64::MAX / 2));
    assert_eq!(
        proportion(12_345_678_901_234_567_890, 9_876_543_210, 9_876_543_211),
        Ok(12_345_678_899_984_567_901)
    );
}

#[test]
fn proportion_rejects_a_zero_denominator() {
    assert_eq!(proportion(5, 5, 0), Err(VaultError::DivisionByZero));
    assert_eq!(proportion(0, 0, 0), Err(VaultError::DivisionByZero));
}

#[test]
fn proportion_rejects_a_quotient_that_does_not_fit() {
    assert_eq!(proportion(u64::MAX, 2, 1), Err(VaultError::ArithmeticOverflow));
    assert_eq!(proportion(u64::MAX, u64::MAX, u64::MAX - 1), Err(VaultError::ArithmeticOverflow));
    assert_eq!(proportion(u64::MAX, 1, 1), Ok(u64::MAX));
}

#[test]
fn constants_are_the_documented_ones() {
    assert_eq!(MAX_FEE_BPS, 100);
    assert_eq!(BPS_DENOMINATOR, 10_000);
}

#[test]
fn validity_follows_the_invariant() {
    assert!(vault(0, 0, 0).is_valid());
    assert!(vault(5, 5, 100).is_valid());
    assert!(vault(5, 0, 10).is_valid());
    assert!(!vault(0, 5, 10).is_valid());
    assert!(!vault(5, 5, 101).is_valid());
}

#[test]
fn quote_deposit_bootstraps_one_to_one() {
    assert_eq!(vault(0, 0, 10).quote_deposit(1), Ok(1));
    assert_eq!(vault(0, 0, 10).quote_deposit(u64::MAX), Ok(u64::MAX));
    assert_eq!(vault(700, 0, 10).quote_deposit(250), Ok(250));
}

#[test]
fn quote_deposit_is_proportional_and_floors() {
    assert_eq!(vault(1_000_000, 1_000_000, 10).quote_deposit(500_000), Ok(500_000));
    assert_eq!(vault(501_000, 500_000, 10).quote_deposit(1_000), Ok(998));
    assert_eq!(vault(3, 2, 0).quote_deposit(1), Ok(0));
    assert_eq!(vault(3, 2, 0).quote_deposit(2), Ok(1));
}

#[test]
fn quote_deposit_rejects_zero() {
    assert_eq!(vault(0, 0, 10).quote_deposit(0), Err(VaultError::ZeroAmount));
    assert_eq!(vault(10, 10, 10).quote_deposit(0), Err(VaultError::ZeroAmount));
}

#[test]
fn quote_deposit_reports_overflow() {
    assert_eq!(vault(1, u64::MAX, 0).quote_deposit(2), Err(VaultError::ArithmeticOverflow));
}

#[test]
fn quote_redeem_splits_gross_fee_and_net() {
    assert_eq!(
        vault(1_500_000, 1_500_000, 10).quote_redeem(1_000_000),
        Ok(RedeemQuote { gross_assets: 1_000_000, fee: 1_000, net_assets: 999_000 })
    );
    assert_eq!(
        vault(501_000, 500_000, 100).quote_redeem(3),
        Ok(RedeemQuote { gross_assets: 3, fee: 0, net_assets: 3 })
    );
    assert_eq!(
        vault(10, 3, 100).quote_redeem(1),
        Ok(RedeemQuote { gross_assets: 3, fee: 0, net_assets: 3 })
    );
    assert_eq!(
        vault(u64::MAX, u64::MAX, 100).quote_redeem(u64::MAX),
        Ok(RedeemQuote {
            gross_assets: u64::MAX,
            fee: 184_467_440_737_095_516,
            net_assets: u64::MAX - 184_467_440_737_095_516,
        })
    );
}

#[test]
fn quote_redeem_rejects_more_than_outstanding() {
    assert_eq!(vault(100, 100, 10).quote_redeem(101), Err(VaultError::InsufficientShares));
    assert_eq!(vault(0, 0, 10).quote_redeem(1), Err(VaultError::InsufficientShares));
    assert!(vault(100, 100, 10).quote_redeem(100).is_ok());
}

#[test]
fn quote_redeem_rejects_zero() {
    assert_eq!(vault(100, 100, 10).quote_redeem(0), Err(VaultError::ZeroAmount));
    assert_eq!(vault(0, 0, 10).quote_redeem(0), Err(VaultError::ZeroAmount));
}

#[test]
fn fee_lies_between_zero_and_gross() {
    for fee_bps in [0u16, 1, 10, 99, 100] {
        for shares in [1u64, 2, 7, 999, 1_000] {
            let quote = vault(12_345, 1_000, fee_bps).quote_redeem(shares).unwrap();
            assert!(quote.fee <= quote.gross_assets);
            assert_eq!(quote.net_assets, quote.gross_assets - quote.fee);
            assert_eq!(quote.fee, quote.gross_assets * fee_bps as u64 / 10_000);
        }
    }
}

#[test]
fn higher_fee_never_pays_out_more() {
    let low = vault(2_000_000, 1_000_000, 10).quote_redeem(500_000).unwrap();
    let high = vault(2_000_000, 1_000_000, 11).quote_redeem(500_000).unwrap();
    assert_eq!(low.gross_assets, high.gross_assets);
    assert_eq!(low.net_assets, 999_000);
    assert_eq!(high.net_assets, 998_900);
    assert!(high.net_assets < low.net_assets);
}

#[test]
fn rounding_can_charge_two_rates_the_same_fee() {
    let low = vault(10, 10, 10).quote_redeem(5).unwrap();
    let high = vault(10, 10, 20).quote_redeem(5).unwrap();
    assert_eq!(low.fee, 0);
    assert_eq!(high.fee, 0);
    assert_eq!(low.net_assets, high.net_assets);
}

#[test]
fn apply_deposit_adds_to_both_totals() {
    let mut v = vault(10, 20, 10);
    assert_eq!(v.apply_deposit(5, 7), Ok(()));
    assert_eq!(v, vault(15, 27, 10));
}

#[test]
fn apply_deposit_rejects_overflow_and_changes_nothing() {
    let mut v = vault(u64::MAX - 1, 5, 10);
    assert_eq!(v.apply_deposit(2, 1), Err(VaultError::ArithmeticOverflow));
    assert_eq!(v, vault(u64::MAX - 1, 5, 10));
    let mut w = vault(5, u64::MAX, 10);
    assert_eq!(w.apply_deposit(1, 1), Err(VaultError::ArithmeticOverflow));
    assert_eq!(w, vault(5, u64::MAX, 10));
    assert_eq!(v.apply_deposit(1, 1), Ok(()));
    assert_eq!(v, vault(u64::MAX, 6, 10));
}

#[test]
fn apply_redeem_leaves_the_fee_in_the_pool() {
    let mut v = vault(1_500_000, 1_500_000, 10);
    assert_eq!(v.apply_redeem(1_000_000, 999_000), Ok(()));
    assert_eq!(v, vault(501_000, 500_000, 10));
}

#[test]
fn apply_redeem_rejects_underflow_and_changes_nothing() {
    let mut v = vault(10, 20, 10);
    assert_eq!(v.apply_redeem(1, 11), Err(VaultError::InsufficientBalance));
    assert_eq!(v, vault(10, 20, 10));
    assert_eq!(v.apply_redeem(21, 1), Err(VaultError::InsufficientBalance));
    assert_eq!(v, vault(10, 20, 10));
    assert_eq!(v.apply_redeem(20, 10), Ok(()));
    assert_eq!(v, vault(0, 0, 10));
}

#[test]
fn identifiers_compare_by_their_bytes() {
    let mut bytes = [9u8; 32];
    assert!(Principal::new(bytes) == party(9));
    bytes[31] = 8;
    assert!(Principal::new(bytes) != party(9));
    bytes[31] = 9;
    bytes[0] = 0;
    assert!(Principal::new(bytes) != party(9));
}
