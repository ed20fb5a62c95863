use vstd::prelude::*;
use crate::error::VaultError;
use crate::math::{
    floor_ratio, lemma_floor_ratio_at_most_amount, lemma_floor_ratio_at_most_numerator,
    lemma_floor_ratio_bounds, proportion, proportion_spec,
};
use crate::principal::Principal;

verus! {

/// The highest redemption fee a vault may carry, in basis points (1.0%).
pub const MAX_FEE_BPS: u16 = 100;

/// The number of basis points in the whole.
pub const BPS_DENOMINATOR: u64 = 10_000;

/// The pool's ledger: who governs it, what it holds, and how much of it is
/// outstanding as shares.
#[derive(Clone, Copy, Debug, PartialEq, Eq)]
pub struct Vault {
    /// The principal allowed to change the fee and to withdraw in an emergency.
    pub authority: Principal,
    /// The asset the pool holds.
    pub asset_mint: Principal,
    /// The unit in which ownership of the pool is counted.
    pub share_mint: Principal,
    /// The custody account; only the vault's own operations debit it.
    pub asset_vault: Principal,
    /// Assets the ledger accounts for.
    pub total_assets: u64,
    /// Shares outstanding.
    pub total_shares: u64,
    /// Redemption fee in basis points.
    pub fee_bps: u16,
    /// Discriminating byte of the vault's derived storage address.
    pub bump: u8,
}

/// What redeeming a number of shares is worth: the proportional claim, the fee
/// retained by the pool, and what is paid out.
#[derive(Clone, Copy, Debug, PartialEq, Eq)]
pub struct RedeemQuote {
    pub gross_assets: u64,
    pub fee: u64,
    pub net_assets: u64,
}

/// The fee charged on `gross` assets at `fee_bps` basis points.
pub open spec fn fee_on(gross: int, fee_bps: int) -> int {
    floor_ratio(gross, fee_bps, BPS_DENOMINATOR as int)
}

impl Vault {
    /// The ledger's invariant: the fee is within its cap, and outstanding
    /// shares are always backed by a positive asset total.
    ///
    /// Assets without shares are a valid state: a fee retained from the last
    /// redemption stays in the pool after every share has been burned.
    pub open spec fn wf(&self) -> bool {
        &&& self.fee_bps <= MAX_FEE_BPS
        &&& self.total_shares > 0 ==> self.total_assets > 0
    }

    /// The pool holds neither assets nor shares.
    pub open spec fn is_empty(&self) -> bool {
        self.total_assets == 0 && self.total_shares == 0
    }

    /// Assets and shares are either both absent or both present: the pool
    /// holds no asset that no share has a claim on.
    pub open spec fn is_pegged(&self) -> bool {
        (self.total_assets == 0) == (self.total_shares == 0)
    }

    /// The ledger with its two totals replaced and everything else kept.
    pub open spec fn with_totals(&self, total_assets: u64, total_shares: u64) -> Vault {
        Vault { total_assets, total_shares, ..*self }
    }

    /// The proportional claim of `shares` on the pool, before the fee.
    pub open spec fn gross_of(&self, shares: u64) -> int {
        floor_ratio(shares as int, self.total_assets as int, self.total_shares as int)
    }

    /// Shares minted for a deposit of `assets`: one for one while no shares
    /// are outstanding, and in proportion to the pool afterwards.
    pub open spec fn quote_deposit_spec(&self, assets: u64) -> Result<u64, VaultError> {
        if assets == 0 {
            Err(VaultError::ZeroAmount)
        } else if self.total_shares == 0 {
            Ok(assets)
        } else {
            proportion_spec(assets, self.total_shares, self.total_assets)
        }
    }

    /// Gross claim, fee and payout for redeeming `shares`.
    pub open spec fn quote_redeem_spec(&self, shares: u64) -> Result<RedeemQuote, VaultError> {
        if shares == 0 {
            Err(VaultError::ZeroAmount)
        } else if shares > self.total_shares {
            Err(VaultError::InsufficientShares)
        } else {
            let gross = self.gross_of(shares);
            let fee = fee_on(gross, self.fee_bps as int);
            Ok(
                RedeemQuote {
                    gross_assets: gross as u64,
                    fee: fee as u64,
                    net_assets: (gross - fee) as u64,
                },
            )
        }
    }

    /// The ledger after `assets` and `shares` have been added to its totals.
    pub open spec fn apply_deposit_spec(&self, assets: u64, shares: u64) -> Result<
        Vault,
        VaultError,
    > {
        if self.total_assets + assets > u64::MAX || self.total_shares + shares > u64::MAX {
            Err(VaultError::ArithmeticOverflow)
        } else {
            Ok(
                self.with_totals(
                    (self.total_assets + assets) as u64,
                    (self.total_shares + shares) as u64,
                ),
            )
        }
    }

    /// The ledger after `shares` have been burned and `net_assets` paid out.
    pub open spec fn apply_redeem_spec(&self, shares: u64, net_assets: u64) -> Result<
        Vault,
        VaultError,
    > {
        if net_assets > self.total_assets || shares > self.total_shares {
            Err(VaultError::InsufficientBalance)
        } else {
            Ok(
                self.with_totals(
                    (self.total_assets - net_assets) as u64,
                    (self.total_shares - shares) as u64,
                ),
            )
        }
    }

    /// For a well-formed ledger and a number of shares it has outstanding, the
    /// gross claim fits the asset total, the fee lies between zero and the
    /// gross claim, and the payout is what remains.
    pub proof fn lemma_quote_redeem_bounds(&self, shares: u64)
        requires
            self.wf(),
            0 < shares <= self.total_shares,
        ensures
            0 <= fee_on(self.gross_of(shares), self.fee_bps as int) <= self.gross_of(shares)
                <= self.total_assets,
            shares < self.total_shares ==> self.gross_of(shares) < self.total_assets,
    {
        let gross = self.gross_of(shares);
        lemma_floor_ratio_at_most_numerator(
            shares as int,
            self.total_assets as int,
            self.total_shares as int,
        );
        lemma_floor_ratio_bounds(
            shares as int,
            self.total_assets as int,
            self.total_shares as int,
        );
        lemma_floor_ratio_at_most_amount(gross, self.fee_bps as int, BPS_DENOMINATOR as int);
        lemma_floor_ratio_bounds(gross, self.fee_bps as int, BPS_DENOMINATOR as int);
    }

    /// Whether the ledger satisfies its invariant.
    pub fn is_valid(&self) -> (b: bool)
        ensures
            b == self.wf(),
    {
        self.fee_bps <= MAX_FEE_BPS && (self.total_shares == 0 || self.total_assets > 0)
    }

    /// Shares a deposit of `assets` would mint.
    ///
    /// Fails with `ZeroAmount` for a deposit of nothing. While no shares are
    /// outstanding the deposit is taken one for one; afterwards the result is
    /// `floor(assets * total_shares / total_assets)`, which fails with
    /// `ArithmeticOverflow` when it does not fit. A well-formed ledger never
    /// divides by zero, and rounding never mints more than the deposit's
    /// proportion of the pool.
    pub fn quote_deposit(&self, assets: u64) -> (r: Result<u64, VaultError>)
        ensures
            r == self.quote_deposit_spec(assets),
            self.wf() ==> r != Err::<u64, VaultError>(VaultError::DivisionByZero),
            r matches Ok(shares) ==> (self.total_shares > 0 ==> shares * self.total_assets <= assets
                * self.total_shares),
    {
        if assets == 0 {
            return Err(VaultError::ZeroAmount);
        }
        if self.total_shares == 0 {
            return Ok(assets);
        }
        let r = proportion(assets, self.total_shares, self.total_assets);
        proof {
            if self.total_assets > 0 {
                lemma_floor_ratio_bounds(
                    assets as int,
                    self.total_shares as int,
                    self.total_assets as int,
                );
            }
        }
        r
    }

    /// Gross claim, fee and payout for redeeming `shares`.
    ///
    /// Fails with `ZeroAmount` when `shares` is zero and with
    /// `InsufficientShares` when more shares are presented than are
    /// outstanding. Otherwise the gross claim is
    /// `floor(shares * total_assets / total_shares)`, the fee is
    /// `floor(gross * fee_bps / 10_000)`, and the payout is their difference;
    /// both roundings favour the pool.
    pub fn quote_redeem(&self, shares: u64) -> (r: Result<RedeemQuote, VaultError>)
        requires
            self.wf(),
        ensures
            r == self.quote_redeem_spec(shares),
            r is Err <==> shares == 0 || shares > self.total_shares,
            r matches Ok(q) ==> {
                &&& q.fee <= q.gross_assets <= self.total_assets
                &&& q.net_assets == q.gross_assets - q.fee
                &&& q.gross_assets == self.gross_of(shares)
                &&& q.fee == fee_on(q.gross_assets as int, self.fee_bps as int)
            },
    {
        if shares == 0 {
            return Err(VaultError::ZeroAmount);
        }
        if shares > self.total_shares {
            return Err(VaultError::InsufficientShares);
        }
        proof {
            self.lemma_quote_redeem_bounds(shares);
        }
        let gross_assets = match proportion(shares, self.total_assets, self.total_shares) {
            Ok(g) => g,
            Err(e) => {
                return Err(e);
            },
        };
        let fee = match proportion(gross_assets, self.fee_bps as u64, BPS_DENOMINATOR) {
            Ok(f) => f,
            Err(e) => {
                return Err(e);
            },
        };
        Ok(RedeemQuote { gross_assets, fee, net_assets: gross_assets - fee })
    }

    /// Adds a deposit to the totals.
    ///
    /// Fails with `ArithmeticOverflow`, changing nothing, when either total
    /// would leave the sixty-four-bit range.
    pub fn apply_deposit(&mut self, assets: u64, shares: u64) -> (r: Result<(), VaultError>)
        ensures
            match old(self).apply_deposit_spec(assets, shares) {
                Ok(v) => r is Ok && *final(self) == v,
                Err(e) => r == Err::<(), VaultError>(e) && *final(self) == *old(self),
            },
    {
        let total_assets = match self.total_assets.checked_add(assets) {
            Some(t) => t,
            None => {
                return Err(VaultError::ArithmeticOverflow);
            },
        };
        let total_shares = match self.total_shares.checked_add(shares) {
            Some(t) => t,
            None => {
                return Err(VaultError::ArithmeticOverflow);
            },
        };
        self.total_assets = total_assets;
        self.total_shares = total_shares;
        Ok(())
    }

    /// Takes a redemption out of the totals: the shares burned and the assets
    /// paid out. The fee is no part of `net_assets`, so it stays in the pool
    /// and accrues to the shares that remain.
    ///
    /// Fails with `InsufficientBalance`, changing nothing, when either total
    /// would fall below zero.
    pub fn apply_redeem(&mut self, shares: u64, net_assets: u64) -> (r: Result<(), VaultError>)
        ensures
            match old(self).apply_redeem_spec(shares, net_assets) {
                Ok(v) => r is Ok && *final(self) == v,
                Err(e) => r == Err::<(), VaultError>(e) && *final(self) == *old(self),
            },
    {
        let total_assets = match self.total_assets.checked_sub(net_assets) {
            Some(t) => t,
            None => {
                return Err(VaultError::InsufficientBalance);
            },
        };
        let total_shares = match self.total_shares.checked_sub(shares) {
            Some(t) => t,
            None => {
                return Err(VaultError::InsufficientBalance);
            },
        };
        self.total_assets = total_assets;
        self.total_shares = total_shares;
        Ok(())
    }
}

} // verus!
